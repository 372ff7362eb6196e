pub mod checkin_flow;
pub mod credential;
pub mod crypto;
pub mod policy;
pub mod session;
pub mod sign;
pub mod task;
pub mod task_run;
pub mod token;
pub mod user;
