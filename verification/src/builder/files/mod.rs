pub mod file;
pub mod finder;
pub mod folders;
pub mod handlers;

pub use file::ConfigFile;
pub use finder::ConfigFileFinder;
pub use folders::OSFolder;
pub use handlers::{Json5ConfigHandler, JsonConfigHandler, TomlConfigHandler, YamlConfigHandler};
