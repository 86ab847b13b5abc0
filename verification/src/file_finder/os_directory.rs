use crate::file_finder::finder::{grown_by, FileFinder};
use crate::host::{user_folders, UserFolders};
use crate::paths::{join_path, joined};
use vstd::prelude::*;
use vstd::string::*;

verus! {

/// A directory of the operating system, or a path of one's own.
#[derive(Debug)]
pub enum OSDirectory {
    /// The current working directory.
    WorkingDirectory,
    /// The home directory of the user.
    UserHome,
    /// The configuration directory of the user.
    UserConfig,
    /// The preferences directory of the user.
    UserPreferences,
    /// The configuration directory of the application named.
    AppConfig(&'static str),
    /// The directory of the application named in the user's home directory.
    AppHome(&'static str),
    /// A path given by the caller.
    Path(String),
}

/// A text, if there is one.
pub open spec fn text_of_option(text: Option<String>) -> Option<Seq<char>> {
    match text {
        Some(t) => Some(t@),
        None => None,
    }
}

/// A path with a name put behind it, if there is a path.
pub open spec fn joined_option(base: Option<String>, name: Seq<char>) -> Option<Seq<char>> {
    match base {
        Some(b) => Some(joined(b@, name)),
        None => None,
    }
}

impl OSDirectory {
    /// The path that the directory stands for, given the folders of the
    /// user and the working directory as the system gave them. Without the
    /// folders of the user no directory resolves.
    pub open spec fn resolved(
        self,
        folders: Option<UserFolders>,
        working: Option<String>,
    ) -> Option<Seq<char>> {
        match folders {
            Some(known) => match self {
                OSDirectory::UserHome => text_of_option(known.home),
                OSDirectory::UserConfig => text_of_option(known.config),
                OSDirectory::UserPreferences => text_of_option(known.preferences),
                OSDirectory::WorkingDirectory => text_of_option(working),
                OSDirectory::AppHome(name) => joined_option(known.home, name@),
                OSDirectory::AppConfig(name) => joined_option(known.config, name@),
                OSDirectory::Path(path) => Some(path@),
            },
            None => None,
        }
    }

    /// The path that the directory stands for, given the folders of the
    /// user and the working directory.
    pub fn resolve(&self, folders: &Option<UserFolders>, working: &Option<String>) -> (path: Option<
        String,
    >)
        ensures
            text_of_option(path) == self.resolved(*folders, *working),
    {
        match folders {
            Some(known) => match self {
                OSDirectory::UserHome => known.home.clone(),
                OSDirectory::UserConfig => known.config.clone(),
                OSDirectory::UserPreferences => known.preferences.clone(),
                OSDirectory::WorkingDirectory => working.clone(),
                OSDirectory::AppHome(name) => match &known.home {
                    Some(home) => Some(join_path(home.as_str(), name)),
                    None => None,
                },
                OSDirectory::AppConfig(name) => match &known.config {
                    Some(config) => Some(join_path(config.as_str(), name)),
                    None => None,
                },
                OSDirectory::Path(path) => Some(path.clone()),
            },
            None => None,
        }
    }

    /// The path that the directory stands for on this system. `working` is
    /// the working directory of the process, if it is known. A path of the
    /// caller's own resolves to itself, the working directory to `working`;
    /// none resolves where the system knows no home directory.
    pub fn to_path_buf(&self, working: &Option<String>) -> (path: Option<String>)
        ensures
            exists|folders: Option<UserFolders>|
                text_of_option(path) == #[trigger] self.resolved(folders, *working),
    {
        let folders = user_folders();
        self.resolve(&folders, working)
    }
}

impl FileFinder {
    /// Also looks in the folder given, if there is one.
    pub fn with_resolved(self, folder: Option<String>) -> (finder: FileFinder)
        ensures
            finder.file_name == self.file_name,
            finder.extensions == self.extensions,
            grown_by(finder.folders@, self.folders@, text_of_option(folder)),
    {
        match folder {
            Some(path) => {
                let ghost before = self.folders@;
                let finder = self.with_folder(path);
                assert(finder.folders@.drop_last() =~= before);
                finder
            },
            None => self,
        }
    }

    /// Also looks in a directory of the operating system, where it resolves.
    /// `working` is the working directory of the process, if it is known.
    pub fn with_os_directory(self, os_dir: OSDirectory, working: &Option<String>) -> (finder:
        FileFinder)
        ensures
            finder.file_name == self.file_name,
            finder.extensions == self.extensions,
            exists|folders: Option<UserFolders>|
                grown_by(
                    finder.folders@,
                    self.folders@,
                    #[trigger] os_dir.resolved(folders, *working),
                ),
    {
        let folder = os_dir.to_path_buf(working);
        self.with_resolved(folder)
    }

    /// Also looks in the working directory, if it is known and the system
    /// knows the user's home directory.
    pub fn with_working_directory(self, working: &Option<String>) -> (finder: FileFinder)
        ensures
            finder.file_name == self.file_name,
            finder.extensions == self.extensions,
            exists|folders: Option<UserFolders>|
                grown_by(
                    finder.folders@,
                    self.folders@,
                    #[trigger] OSDirectory::WorkingDirectory.resolved(folders, *working),
                ),
    {
        self.with_os_directory(OSDirectory::WorkingDirectory, working)
    }

    /// Also looks in the user's home directory, where the system knows it.
    pub fn with_user_home(self) -> (finder: FileFinder)
        ensures
            finder.file_name == self.file_name,
            finder.extensions == self.extensions,
            exists|folders: Option<UserFolders>|
                grown_by(
                    finder.folders@,
                    self.folders@,
                    #[trigger] OSDirectory::UserHome.resolved(folders, None),
                ),
    {
        self.with_os_directory(OSDirectory::UserHome, &None)
    }

    /// Also looks in the user's configuration directory, where the system
    /// knows it.
    pub fn with_user_config(self) -> (finder: FileFinder)
        ensures
            finder.file_name == self.file_name,
            finder.extensions == self.extensions,
            exists|folders: Option<UserFolders>|
                grown_by(
                    finder.folders@,
                    self.folders@,
                    #[trigger] OSDirectory::UserConfig.resolved(folders, None),
                ),
    {
        self.with_os_directory(OSDirectory::UserConfig, &None)
    }

    /// Also looks in the user's preferences directory, where the system
    /// knows it.
    pub fn with_user_preferences(self) -> (finder: FileFinder)
        ensures
            finder.file_name == self.file_name,
            finder.extensions == self.extensions,
            exists|folders: Option<UserFolders>|
                grown_by(
                    finder.folders@,
                    self.folders@,
                    #[trigger] OSDirectory::UserPreferences.resolved(folders, None),
                ),
    {
        self.with_os_directory(OSDirectory::UserPreferences, &None)
    }

    /// Also looks in the application's configuration directory, where the
    /// system knows the user's.
    pub fn with_app_config(self, app_name: &'static str) -> (finder: FileFinder)
        ensures
            finder.file_name == self.file_name,
            finder.extensions == self.extensions,
            exists|folders: Option<UserFolders>|
                grown_by(
                    finder.folders@,
                    self.folders@,
                    #[trigger] OSDirectory::AppConfig(app_name).resolved(folders, None),
                ),
    {
        self.with_os_directory(OSDirectory::AppConfig(app_name), &None)
    }

    /// Also looks in the application's directory in the user's home
    /// directory, where the system knows it.
    pub fn with_app_home(self, app_name: &'static str) -> (finder: FileFinder)
        ensures
            finder.file_name == self.file_name,
            finder.extensions == self.extensions,
            exists|folders: Option<UserFolders>|
                grown_by(
                    finder.folders@,
                    self.folders@,
                    #[trigger] OSDirectory::AppHome(app_name).resolved(folders, None),
                ),
    {
        self.with_os_directory(OSDirectory::AppHome(app_name), &None)
    }

    /// Also looks in the path given, where the system knows the user's
    /// home directory.
    pub fn with_path(self, path: String) -> (finder: FileFinder)
        ensures
            finder.file_name == self.file_name,
            finder.extensions == self.extensions,
            exists|folders: Option<UserFolders>|
                grown_by(
                    finder.folders@,
                    self.folders@,
                    #[trigger] OSDirectory::Path(path).resolved(folders, None),
                ),
    {
        self.with_os_directory(OSDirectory::Path(path), &None)
    }
}

} // verus!
