use vstd::prelude::*;

verus! {

#[verifier::external_type_specification]
#[verifier::external_body]
pub struct ExBaseDirs(directories::BaseDirs);

#[verifier::external_type_specification]
#[verifier::external_body]
pub struct ExProjectDirs(directories::ProjectDirs);

/// `BaseDirs::new` of the crate `directories`: the user's directories as
/// the system gives them at the time of the call, or none where it knows no
/// home directory. Nothing is claimed of the result.
#[verifier::external_body]
pub(crate) fn base_dirs() -> Option<directories::BaseDirs> {
    directories::BaseDirs::new()
}

/// `BaseDirs::home_dir`: the user's home directory, as a text where the
/// path is valid text. Nothing is claimed of the result.
#[verifier::external_body]
pub(crate) fn home_dir(dirs: &directories::BaseDirs) -> Option<String> {
    dirs.home_dir().to_str().map(str::to_owned)
}

/// `BaseDirs::config_dir`: the user's configuration directory, as a text
/// where the path is valid text. Nothing is claimed of the result.
#[verifier::external_body]
pub(crate) fn config_dir(dirs: &directories::BaseDirs) -> Option<String> {
    dirs.config_dir().to_str().map(str::to_owned)
}

/// `BaseDirs::preference_dir`: the user's preferences directory, as a text
/// where the path is valid text. Nothing is claimed of the result.
#[verifier::external_body]
pub(crate) fn preference_dir(dirs: &directories::BaseDirs) -> Option<String> {
    dirs.preference_dir().to_str().map(str::to_owned)
}

/// `BaseDirs::cache_dir`: the user's cache directory, as a text where the
/// path is valid text. Nothing is claimed of the result.
#[verifier::external_body]
pub(crate) fn cache_dir(dirs: &directories::BaseDirs) -> Option<String> {
    dirs.cache_dir().to_str().map(str::to_owned)
}

/// `ProjectDirs::from` of the crate `directories`: the directories of an
/// application as the system gives them at the time of the call, or none
/// where it knows no home directory. Nothing is claimed of the result.
#[verifier::external_body]
pub(crate) fn project_dirs(
    qualifier: &str,
    organization: &str,
    application: &str,
) -> Option<directories::ProjectDirs> {
    directories::ProjectDirs::from(qualifier, organization, application)
}

/// `ProjectDirs::cache_dir`: the application's cache directory, as a text
/// where the path is valid text. Nothing is claimed of the result.
#[verifier::external_body]
pub(crate) fn project_cache_dir(dirs: &directories::ProjectDirs) -> Option<String> {
    dirs.cache_dir().to_str().map(str::to_owned)
}

/// `ProjectDirs::config_dir`: the application's configuration directory, as
/// a text where the path is valid text. Nothing is claimed of the result.
#[verifier::external_body]
pub(crate) fn project_config_dir(dirs: &directories::ProjectDirs) -> Option<String> {
    dirs.config_dir().to_str().map(str::to_owned)
}

/// The folders of the user as the system gave them, each as a text where
/// it is valid text.
#[derive(Debug)]
pub struct UserFolders {
    pub home: Option<String>,
    pub config: Option<String>,
    pub preferences: Option<String>,
    pub cache: Option<String>,
}

/// Asks the system for the user's folders; none where it knows no home
/// directory.
pub fn user_folders() -> Option<UserFolders> {
    match base_dirs() {
        Some(dirs) => Some(
            UserFolders {
                home: home_dir(&dirs),
                config: config_dir(&dirs),
                preferences: preference_dir(&dirs),
                cache: cache_dir(&dirs),
            },
        ),
        None => None,
    }
}

/// The folders of an application as the system gave them, each as a text
/// where it is valid text.
#[derive(Debug)]
pub struct ProjectFolders {
    pub cache: Option<String>,
    pub config: Option<String>,
}

/// Asks the system for the folders of an application; none where it knows
/// no home directory.
pub fn project_folders(qualifier: &str, organization: &str, application: &str) -> Option<
    ProjectFolders,
> {
    match project_dirs(qualifier, organization, application) {
        Some(dirs) => Some(
            ProjectFolders { cache: project_cache_dir(&dirs), config: project_config_dir(&dirs) },
        ),
        None => None,
    }
}

} // verus!
