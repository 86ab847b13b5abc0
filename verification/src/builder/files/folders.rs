use crate::builder::files::finder::ConfigFileFinder;
use crate::file_finder::finder::grown_by;
use crate::host::{project_folders, user_folders, ProjectFolders, UserFolders};
use vstd::prelude::*;
use vstd::string::*;

verus! {

/// A folder of the operating system.
#[derive(Debug)]
pub enum OSFolder {
    /// The current working directory.
    WorkingDirectory,
    /// The configuration directory of the user.
    Config,
    /// The home directory of the user.
    UserHome,
    /// The cache directory of the user.
    Cache,
    /// The cache directory of the application named.
    AppCache(String),
    /// The configuration directory of the application named.
    AppConfig(String),
}

/// The text of an optional folder.
pub open spec fn folder_text(folder: Option<String>) -> Option<Seq<char>> {
    match folder {
        Some(text) => Some(text@),
        None => None,
    }
}

impl OSFolder {
    /// The path that the folder stands for, given the working directory,
    /// the folders of the user and, for a folder of an application, the
    /// folders of that application, each as the system gave them.
    pub open spec fn resolved(
        self,
        working: Option<String>,
        user: Option<UserFolders>,
        project: Option<ProjectFolders>,
    ) -> Option<Seq<char>> {
        match self {
            OSFolder::WorkingDirectory => folder_text(working),
            OSFolder::Config => match user {
                Some(known) => folder_text(known.config),
                None => None,
            },
            OSFolder::UserHome => match user {
                Some(known) => folder_text(known.home),
                None => None,
            },
            OSFolder::Cache => match user {
                Some(known) => folder_text(known.cache),
                None => None,
            },
            OSFolder::AppCache(_) => match project {
                Some(known) => folder_text(known.cache),
                None => None,
            },
            OSFolder::AppConfig(_) => match project {
                Some(known) => folder_text(known.config),
                None => None,
            },
        }
    }

    /// The path that the folder stands for, given what the system gave.
    pub fn resolve(
        &self,
        working: &Option<String>,
        user: &Option<UserFolders>,
        project: &Option<ProjectFolders>,
    ) -> (path: Option<String>)
        ensures
            folder_text(path) == self.resolved(*working, *user, *project),
    {
        match self {
            OSFolder::WorkingDirectory => working.clone(),
            OSFolder::Config => match user {
                Some(known) => known.config.clone(),
                None => None,
            },
            OSFolder::UserHome => match user {
                Some(known) => known.home.clone(),
                None => None,
            },
            OSFolder::Cache => match user {
                Some(known) => known.cache.clone(),
                None => None,
            },
            OSFolder::AppCache(_) => match project {
                Some(known) => known.cache.clone(),
                None => None,
            },
            OSFolder::AppConfig(_) => match project {
                Some(known) => known.config.clone(),
                None => None,
            },
        }
    }

    /// The path of the folder on this system, where the system knows it.
    /// `working` is the working directory of the process, if it is known:
    /// it is what the working directory resolves to.
    pub fn to_path_buf(&self, working: &Option<String>) -> (path: Option<String>)
        ensures
            exists|user: Option<UserFolders>, project: Option<ProjectFolders>|
                folder_text(path) == #[trigger] self.resolved(*working, user, project),
    {
        let user = match self {
            OSFolder::Config | OSFolder::UserHome | OSFolder::Cache => user_folders(),
            _ => None,
        };
        let project = match self {
            OSFolder::AppCache(app_name) | OSFolder::AppConfig(app_name) => project_folders(
                "com",
                app_name.as_str(),
                app_name.as_str(),
            ),
            _ => None,
        };
        self.resolve(working, &user, &project)
    }
}

impl ConfigFileFinder {
    /// Also looks in the folder given, if there is one.
    pub fn add_resolved(&mut self, folder: Option<String>)
        ensures
            final(self).file_name == old(self).file_name,
            final(self).extensions == old(self).extensions,
            final(self).supported_added() == old(self).supported_added(),
            grown_by(final(self).folders@, old(self).folders@, folder_text(folder)),
    {
        match folder {
            Some(path) => {
                let ghost before = self.folders@;
                self.folders.push(path);
                assert(self.folders@.drop_last() =~= before);
            },
            None => {},
        }
    }

    /// Also looks in a folder of the operating system, where it resolves.
    /// `working` is the working directory of the process, if it is known.
    pub fn add_os_folder(&mut self, folder: OSFolder, working: &Option<String>)
        ensures
            final(self).file_name == old(self).file_name,
            final(self).extensions == old(self).extensions,
            final(self).supported_added() == old(self).supported_added(),
            exists|user: Option<UserFolders>, project: Option<ProjectFolders>|
                grown_by(
                    final(self).folders@,
                    old(self).folders@,
                    #[trigger] folder.resolved(*working, user, project),
                ),
    {
        let path = folder.to_path_buf(working);
        self.add_resolved(path);
    }

    /// As `add_os_folder`, on a finder that is handed on.
    pub fn with_os_folder(self, folder: OSFolder, working: &Option<String>) -> (finder:
        ConfigFileFinder)
        ensures
            finder.file_name == self.file_name,
            finder.extensions == self.extensions,
            finder.supported_added() == self.supported_added(),
            exists|user: Option<UserFolders>, project: Option<ProjectFolders>|
                grown_by(
                    finder.folders@,
                    self.folders@,
                    #[trigger] folder.resolved(*working, user, project),
                ),
    {
        let mut finder = self;
        finder.add_os_folder(folder, working);
        finder
    }
}

} // verus!
