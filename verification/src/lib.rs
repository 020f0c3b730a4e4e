//! A polling market-data agent: it watches an upstream snapshot feed,
//! detects version changes, projects each tradable item down to a bounded
//! record, and tracks the durability state of a persist cycle together
//! with a freshness counter for downstream consumers.

mod clock;
pub mod detect;
pub mod driver;
pub mod model;
pub mod project;
pub mod sink;

pub use detect::has_changed;
