//! The records kept in program accounts.
pub mod employee;
pub mod payroll_batch;
pub mod work_session;
