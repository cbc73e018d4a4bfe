//! A deliberately degraded mock API: procedurally generated usage records,
//! corrupted more and more as the difficulty level rises, and assembled into
//! a page that is produced chunk by chunk.

pub mod rng;
pub mod json;
pub mod text;
pub mod fields;
pub mod dates;
pub mod usage;
pub mod generator;
pub mod page;

pub use dates::UsageDates;
pub use fields::{Cpu, EmailPattern, Ip, OperatingSystem};
pub use generator::UsageGenerator;
pub use usage::Usage;
