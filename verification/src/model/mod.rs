pub mod repo;
pub mod run;
pub mod workflow;
