pub mod error;
pub mod handlers;
pub mod layer;
pub mod layer_env;
pub mod layer_file;
pub mod layer_mem;

pub use error::ConfigLayerError;
pub use layer::ConfigLayer;
pub use layer_env::EnvironmentConfigLayer;
pub use layer_file::FileConfigLayer;
pub use layer_mem::MemoryConfigLayer;
