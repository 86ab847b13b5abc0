pub mod alg_find_all;
pub mod alg_find_all_or_first;
pub mod alg_find_first;
pub mod alg_find_last;
pub mod candidates;
pub mod error;
pub mod file_extension;
pub mod find_result;
pub mod finder;
pub mod os_directory;

pub use error::FileFinderError;
pub use file_extension::FileExtension;
pub use find_result::FindResult;
pub use finder::FileFinder;
pub use os_directory::OSDirectory;
