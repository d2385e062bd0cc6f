//! The program's instructions: for each, the accounts it takes, the checks
//! made on them, and its handler. An instruction that opens an account
//! checks it is still free and gives back what to create and write there.
pub mod initialize_employer;
pub mod register_employee;
pub mod update_employee;
pub mod check_in;
pub mod check_out;
pub mod create_payroll_batch;
pub mod process_payroll;
pub mod mark_session_paid;
