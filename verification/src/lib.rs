pub mod bak_error;
pub mod builder;
pub mod config;
pub mod config_layer;
pub mod errors;
pub mod file_finder;
pub mod host;
pub mod model;
pub mod paths;
pub mod text;
pub mod traits;

pub use bak_error::BakuninError;
pub use builder::{ConfigBuilder, Priority};
pub use config::BakuninConfig;
pub use errors::ConfigError;
pub use model::{ModelError, Value};
