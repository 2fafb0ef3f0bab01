//! Layered, hot-reloading configuration: command-line arguments, environment
//! variables and an optional configuration file merged by a fixed precedence.
mod text;
pub mod level;
pub mod format;
pub mod paths;
pub mod watch;
pub mod config;
pub mod laws;
pub mod messages;
pub mod nebulon;
pub mod orbitus;
pub mod double_star;

pub use config::{new, Config, ConfigUpdate};
pub use messages::{DoubleStarMessage, OrbitusMessage};
