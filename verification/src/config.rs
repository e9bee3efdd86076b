pub use crate::eh_config::{load, CommandConfig, Config};
