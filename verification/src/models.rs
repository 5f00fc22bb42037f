pub mod report;
pub mod severity;
pub mod vulnerability;
