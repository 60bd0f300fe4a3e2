pub mod ai;
pub mod commit;
pub mod error;
pub mod git;
pub mod guarantees;
pub mod json;
pub mod provider;
pub mod text;

pub use provider::Provider;
