pub mod auth;
pub mod employee;
pub mod object;
pub mod task;
