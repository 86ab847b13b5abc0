use bakunin_config::builder::files::{
    Json5ConfigHandler, JsonConfigHandler, TomlConfigHandler, YamlConfigHandler,
};
use bakunin_config::builder::files::file::{
    format_for_extension, FileFormat, NoFormat, ReadPlan,
};
use bakunin_config::builder::{ConfigFile, ConfigFileFinder, OSFolder};
use bakunin_config::Value;
use bakunin_config::file_finder::{FileFinder, FileFinderError, FindResult, OSDirectory};
use std::path::PathBuf;

fn probe(finder: &FileFinder) -> Vec<bool> {
    finder.candidates().iter().map(|c| PathBuf::from(&c.path).exists()).collect()
}

fn home() -> PathBuf {
    PathBuf::from(OSDirectory::UserHome.to_path_buf(&None).unwrap())
}

fn config() -> PathBuf {
    PathBuf::from(OSDirectory::UserConfig.to_path_buf(&None).unwrap())
}

#[test]
fn returns_all_if_allow_missing() {
    let finder = FileFinder::new("test_file").with_user_home().with_user_config().with_toml();
    let res = finder.find_all(true, &probe(&finder)).unwrap();

    let expected1 = home().join("test_file.toml");
    let expected2 = config().join("test_file.toml");

    assert_eq!(res.len(), 2);
    assert_eq!(PathBuf::from(&res[0].path), expected1);
    assert_eq!(PathBuf::from(&res[1].path), expected2);
}

#[test]
fn returns_first_if_no_file_found() {
    let finder = FileFinder::new("test_file").with_user_home().with_user_config().with_toml();
    let res = finder.find_all_or_first(&probe(&finder)).unwrap();

    let expected1 = home().join("test_file.toml");

    assert_eq!(res.len(), 1);
    assert_eq!(PathBuf::from(&res[0].path), expected1);
}

#[test]
fn returns_first_if_allow_missing() {
    let finder = FileFinder::new("test_file")
        .with_user_config()
        .with_user_home()
        .with_toml()
        .with_extension("txt");
    let res = finder.find_first(true, &probe(&finder)).unwrap();

    let expected = config().join("test_file.toml");

    assert_eq!(PathBuf::from(&res.path), expected);
}

#[test]
fn returns_last_if_allow_missing() {
    let finder = FileFinder::new("test_file")
        .with_user_config()
        .with_user_home()
        .with_toml()
        .with_extension("txt");
    let res = finder.find_last(true, &probe(&finder)).unwrap();

    let expected = home().join("test_file.txt");

    assert_eq!(PathBuf::from(&res.path), expected);
}

fn two_by_two() -> FileFinder {
    FileFinder::new("app")
        .with_folder("/a".to_string())
        .with_folder("/b".to_string())
        .with_supported_extensions()
}

fn paths(results: &[FindResult]) -> Vec<(String, u16, bool)> {
    results.iter().map(|r| (r.path.clone(), r.index, r.exists)).collect()
}

#[test]
fn candidates_go_folder_by_folder() {
    let finder = two_by_two();
    assert_eq!(finder.get_file_name(), "app");
    let list: Vec<(String, &str)> =
        finder.candidates().into_iter().map(|c| (c.path, c.extension)).collect();
    assert_eq!(
        list,
        vec![
            (PathBuf::from("/a").join("app").with_extension("toml").to_str().unwrap().to_string(), "toml"),
            (PathBuf::from("/a").join("app").with_extension("json").to_str().unwrap().to_string(), "json"),
            (PathBuf::from("/b").join("app").with_extension("toml").to_str().unwrap().to_string(), "toml"),
            (PathBuf::from("/b").join("app").with_extension("json").to_str().unwrap().to_string(), "json"),
        ]
    );
    let dotted = FileFinder::new(".app-config").with_folder("/x".to_string()).with_toml();
    assert_eq!(
        PathBuf::from(&dotted.candidates()[0].path),
        PathBuf::from("/x").join(".app-config").with_extension("toml")
    );
    let replaced = FileFinder::new("a.b").with_folder("/x".to_string()).with_json();
    assert_eq!(PathBuf::from(&replaced.candidates()[0].path), PathBuf::from("/x/a.json"));
}

#[test]
fn a_search_needs_folders_and_extensions() {
    let none = FileFinder::new("app");
    assert!(matches!(none.validate(), Err(FileFinderError::NoFoldersDefined)));
    assert!(matches!(none.find_first(true, &vec![]), Err(FileFinderError::NoFoldersDefined)));
    let no_ext = FileFinder::new("app").with_folder("/a".to_string());
    assert!(matches!(no_ext.validate(), Err(FileFinderError::NoExtensionsDefined)));
    assert!(matches!(no_ext.find_last(true, &vec![]), Err(FileFinderError::NoExtensionsDefined)));
    assert!(matches!(no_ext.find_all(true, &vec![]), Err(FileFinderError::NoExtensionsDefined)));
    assert!(matches!(
        FileFinder::new("app").with_json().find_all_or_first(&vec![]),
        Err(FileFinderError::NoFoldersDefined)
    ));
    assert!(two_by_two().validate().is_ok());
}

#[test]
fn first_and_last_of_what_is_there() {
    let finder = two_by_two();
    let all = finder.candidates();
    let exists = vec![false, true, true, false];
    let first = finder.find_first(false, &exists).unwrap();
    assert_eq!((first.path, first.exists, first.index), (all[1].path.clone(), true, 0));
    assert_eq!(first.extension.as_str(), "json");
    let last = finder.find_last(true, &exists).unwrap();
    assert_eq!((last.path, last.exists), (all[2].path.clone(), true));
    assert_eq!(last.extension.as_str(), "toml");

    let nothing = vec![false; 4];
    assert!(matches!(finder.find_first(false, &nothing), Err(FileFinderError::NoFilesFound)));
    assert!(matches!(finder.find_last(false, &nothing), Err(FileFinderError::NoFilesFound)));
    let first = finder.find_first(true, &nothing).unwrap();
    assert_eq!((first.path, first.exists), (all[0].path.clone(), false));
    let last = finder.find_last(true, &nothing).unwrap();
    assert_eq!((last.path, last.exists), (all[3].path.clone(), false));

    let short = vec![false, false, true];
    assert_eq!(finder.find_last(false, &short).unwrap().path, all[2].path);
    assert!(matches!(finder.find_first(false, &vec![]), Err(FileFinderError::NoFilesFound)));
}

#[test]
fn all_of_what_is_there() {
    let finder = two_by_two();
    let all = finder.candidates();
    let exists = vec![false, true, false, true];
    assert_eq!(
        paths(&finder.find_all(false, &exists).unwrap()),
        vec![(all[1].path.clone(), 0, true), (all[3].path.clone(), 1, true)]
    );
    assert_eq!(
        paths(&finder.find_all(true, &exists).unwrap()),
        vec![
            (all[0].path.clone(), 0, false),
            (all[1].path.clone(), 1, true),
            (all[2].path.clone(), 2, false),
            (all[3].path.clone(), 3, true),
        ]
    );
    assert!(matches!(finder.find_all(false, &vec![false; 4]), Err(FileFinderError::NoFilesFound)));
    assert_eq!(
        paths(&finder.find_all_or_first(&exists).unwrap()),
        vec![(all[1].path.clone(), 0, true), (all[3].path.clone(), 1, true)]
    );
    assert_eq!(
        paths(&finder.find_all_or_first(&vec![false; 4]).unwrap()),
        vec![(all[0].path.clone(), 0, false)]
    );
}

#[test]
fn find_result_keeps_what_it_is_given() {
    let found = FindResult::new("/a/b.toml".to_string(), ".toml", true).with_index(7);
    assert_eq!(found.path, "/a/b.toml");
    assert_eq!(found.extension.as_str(), "toml");
    assert_eq!(found.index, 7);
    assert!(found.exists);
    let custom = FindResult::new("/a/b.ini".to_string(), "ini", false);
    assert_eq!(custom.extension.as_str(), "ini");
    assert_eq!(custom.index, 0);
    assert!(!custom.exists);
}

#[test]
fn os_directories_resolve() {
    let working = Some("/work".to_string());
    assert_eq!(OSDirectory::WorkingDirectory.to_path_buf(&working), working);
    assert_eq!(OSDirectory::WorkingDirectory.to_path_buf(&None), None);
    assert_eq!(OSDirectory::Path("/p".to_string()).to_path_buf(&None), Some("/p".to_string()));
    assert_eq!(
        PathBuf::from(OSDirectory::AppHome("myapp").to_path_buf(&None).unwrap()),
        home().join("myapp")
    );
    assert_eq!(
        PathBuf::from(OSDirectory::AppConfig("myapp").to_path_buf(&None).unwrap()),
        config().join("myapp")
    );
    assert!(OSDirectory::UserPreferences.to_path_buf(&None).is_some());

    let finder = FileFinder::new("f")
        .with_working_directory(&working)
        .with_working_directory(&None)
        .with_path("/p".to_string())
        .with_app_home("myapp")
        .with_app_config("myapp")
        .with_user_preferences()
        .with_os_directory(OSDirectory::UserHome, &None)
        .with_resolved(None)
        .with_json();
    assert_eq!(finder.folders.len(), 6);
    assert_eq!(finder.folders[0], "/work");
    assert_eq!(finder.folders[1], "/p");
    assert_eq!(PathBuf::from(&finder.folders[5]), home());
}

#[test]
fn handlers_name_their_extensions() {
    assert_eq!(JsonConfigHandler::extensions(), vec!["json"]);
    assert_eq!(Json5ConfigHandler::extensions(), vec!["json", "json5"]);
    assert_eq!(TomlConfigHandler::extensions(), vec!["toml"]);
    assert_eq!(YamlConfigHandler::extensions(), vec!["yaml", "yml"]);
    assert_eq!(JsonConfigHandler {}.name(), "json");
    assert_eq!(Json5ConfigHandler {}.name(), "json5");
    assert_eq!(TomlConfigHandler {}.name(), "toml");
    assert_eq!(YamlConfigHandler {}.name(), "yaml");
}

#[test]
fn config_file_finder_builds_and_finds() {
    let mut finder = ConfigFileFinder::for_file("app".to_string())
        .with_folder("/a".to_string())
        .with_folders(vec!["/b".to_string()])
        .with_extension("ini".to_string())
        .with_extensions(vec!["cfg".to_string()])
        .with_supported_extensions();
    assert_eq!(finder.extensions, vec!["ini", "cfg", "toml", "json", "yaml", "yml", "json", "json5"]);
    finder.add_supported_extensions();
    assert_eq!(finder.extensions.len(), 8);
    let list = finder.candidates();
    assert_eq!(list.len(), 16);
    assert_eq!(PathBuf::from(&list[0]), PathBuf::from("/a").join("app.ini"));
    assert_eq!(PathBuf::from(&list[2]), PathBuf::from("/a").join("app.toml"));
    assert_eq!(PathBuf::from(&list[8]), PathBuf::from("/b").join("app.ini"));

    let mut exists = vec![false; 16];
    assert_eq!(finder.find(&exists), None);
    assert_eq!(finder.find_all(&exists), Vec::<String>::new());
    assert_eq!(finder.find_or_first(&exists), Some(list[0].clone()));
    exists[3] = true;
    exists[9] = true;
    assert_eq!(finder.find(&exists), Some(list[3].clone()));
    assert_eq!(finder.find_or_first(&exists), Some(list[3].clone()));
    assert_eq!(finder.find_all(&exists), vec![list[3].clone(), list[9].clone()]);

    let bare = ConfigFileFinder::new("app".to_string(), vec![], vec!["toml".to_string()]);
    assert_eq!(bare.find_or_first(&vec![]), None);
    assert_eq!(bare.find(&vec![true]), None);
    let named = ConfigFileFinder::new("a.b".to_string(), vec!["/x".to_string()], vec!["toml".to_string()]);
    assert_eq!(PathBuf::from(named.find_or_first(&vec![]).unwrap()), PathBuf::from("/x/a.b.toml"));
}

#[test]
fn os_folders_resolve() {
    let working = Some("/work".to_string());
    assert_eq!(OSFolder::WorkingDirectory.to_path_buf(&working), working);
    assert_eq!(OSFolder::WorkingDirectory.to_path_buf(&None), None);
    assert_eq!(PathBuf::from(OSFolder::UserHome.to_path_buf(&None).unwrap()), home());
    assert_eq!(PathBuf::from(OSFolder::Config.to_path_buf(&None).unwrap()), config());
    assert!(OSFolder::Cache.to_path_buf(&None).is_some());
    assert!(OSFolder::AppCache("myapp".to_string()).to_path_buf(&None).is_some());
    assert!(OSFolder::AppConfig("myapp".to_string()).to_path_buf(&None).is_some());

    let mut finder = ConfigFileFinder::for_file("app".to_string())
        .with_os_folder(OSFolder::WorkingDirectory, &working)
        .with_os_folder(OSFolder::WorkingDirectory, &None)
        .with_os_folder(OSFolder::UserHome, &None);
    finder.add_os_folder(OSFolder::Config, &None);
    finder.add_resolved(None);
    assert_eq!(finder.folders.len(), 3);
    assert_eq!(finder.folders[0], "/work");
    assert_eq!(PathBuf::from(&finder.folders[1]), home());
    assert_eq!(PathBuf::from(&finder.folders[2]), config());
}

#[test]
fn config_file_plans_its_reading() {
    let file = ConfigFile::new("/etc/app.toml".to_string());
    assert!(file.is_required());
    assert!(file.get_initial_value().is_none());
    assert!(matches!(file.read_plan(true), ReadPlan::Parse));
    assert!(matches!(file.read_plan(false), ReadPlan::FailRequired));
    assert!(matches!(file.format(), Ok(FileFormat::Toml)));

    let mut optional = ConfigFile::from("/etc/app.yml".to_string());
    optional.set_required(false);
    assert!(!optional.is_required());
    assert!(matches!(optional.read_plan(false), ReadPlan::Empty));
    assert!(matches!(optional.format(), Ok(FileFormat::Yaml)));
    assert!(optional.required().is_required());

    let mut initial = Value::new_map();
    initial.set("a", 1.into()).unwrap();
    let mut with_init = ConfigFile::new("app.json5".to_string());
    with_init.set_required(false);
    let with_init = with_init.with_init(initial.clone());
    assert!(with_init.is_required());
    assert_eq!(with_init.get_initial_value(), Some(&initial));
    assert!(matches!(with_init.read_plan(false), ReadPlan::WriteInitial(v) if v == initial));
    assert!(matches!(with_init.read_plan(true), ReadPlan::Parse));
    assert!(matches!(with_init.format(), Ok(FileFormat::Json5)));
    let cleared = with_init.with_init(Value::Integer(1));
    assert!(cleared.get_initial_value().is_none());

    assert!(matches!(ConfigFile::new("app".to_string()).format(), Err(NoFormat::NoExtension)));
    assert!(matches!(
        ConfigFile::new("app.ini".to_string()).format(),
        Err(NoFormat::UnknownExtension(ext)) if ext == "ini"
    ));
    assert_eq!(format_for_extension("json"), Some(FileFormat::Json));
    assert_eq!(format_for_extension("yaml"), Some(FileFormat::Yaml));
    assert_eq!(format_for_extension("JSON"), None);
    assert_eq!(ConfigFile::new("a.toml".to_string()), ConfigFile::from("a.toml".to_string()));
    assert_ne!(ConfigFile::new("a.toml".to_string()), ConfigFile::new("b.toml".to_string()));
}

#[test]
fn an_extension_holds_no_path_separator() {
    assert!(two_by_two().has_plain_extensions());
    assert!(two_by_two().is_searchable());
    let slashed = two_by_two().with_extension("a/b");
    assert!(!slashed.has_plain_extensions());
    assert!(!slashed.is_searchable());
    let backslashed = two_by_two().with_extension("a\\b");
    assert!(!backslashed.is_searchable());
    let no_folder = FileFinder::new("app").with_extension("a/b");
    assert!(!no_folder.has_plain_extensions());
    assert!(no_folder.is_searchable());
    assert!(matches!(
        no_folder.find_first(true, &vec![]),
        Err(FileFinderError::NoFoldersDefined)
    ));
    assert!(bakunin_config::paths::is_plain("toml"));
    assert!(bakunin_config::paths::is_plain(""));
    assert!(!bakunin_config::paths::is_plain("to/ml"));
}
