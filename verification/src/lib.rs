pub mod addr;
pub mod outcome;
pub mod probe;
mod sys;
