pub mod contract;
pub mod error;
pub mod hub;
pub mod laws;
pub mod math;
pub mod msgs;
pub mod queries;
pub mod simulation;
pub mod state;
pub mod twap;
