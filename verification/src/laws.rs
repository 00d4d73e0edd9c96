//! What the library promises: for each operation, what its result must satisfy
//! in terms of what it was given.
pub mod approval;
pub mod bridge;
pub mod commands;
pub mod credentials;
pub mod groups;
pub mod packages;
pub mod parameters;
pub mod plans;
pub mod recovery;
pub mod refusals;
pub mod reports;
pub mod shown;
pub mod steps;
pub mod texts;
pub mod toggle;
pub mod workflow;
