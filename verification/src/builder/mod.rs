pub mod config_builder;
pub mod env;
pub mod files;
pub mod memory;
pub mod priority;

pub use config_builder::ConfigBuilder;
pub use env::EnvironmentConfigBuilder;
pub use files::{ConfigFile, ConfigFileFinder, OSFolder};
pub use memory::MemoryConfigBuilder;
pub use priority::Priority;
