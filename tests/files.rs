use gravity::config::{ArgWrapper, ConfigError, EnvWrapper};
use gravity::format::{schema_annotation, with_comment, Format, SchemaAnnotation, Startup};
use gravity::orbitus::{self, Color, UiConfig, WebsocketConfig};
use gravity::paths::{config_file_at, is_config_file, locate, Probe};
use gravity::watch::is_reload_event;
use gravity::Config;
use notify::event::{CreateKind, DataChange, MetadataKind, ModifyKind, RenameMode};
use notify::EventKind;

fn orbitus_config(config_path: Option<&str>, dir: Option<&str>) -> Config<orbitus::Config> {
    Config::with_config_dir(
        "ORBITUS",
        "org",
        "example",
        "orbitus",
        dir.map(|d| d.to_string()),
        ArgWrapper {
            values: orbitus::FromArgs {},
            config_path: config_path.map(|p| p.to_string()),
            log_level: None,
            print_schema: false,
            print_config: None,
        },
        EnvWrapper {
            values: orbitus::FromEnv { websocket: WebsocketConfig::default() },
            config_path: None,
            log_level: None,
        },
    )
}

fn entries(names: &[&str]) -> Option<Vec<String>> {
    Some(names.iter().map(|n| n.to_string()).collect())
}

fn red_ui() -> UiConfig {
    let mut ui = UiConfig::default();
    ui.palette.light.primary = Color { red: 255, green: 0, blue: 0, alpha: 255 };
    ui
}

#[test]
fn explicit_path_is_used_when_it_exists() {
    let config = orbitus_config(Some("/srv/app/settings.yml"), Some("/home/u/.config/orbitus"));
    let probe = Probe { explicit_exists: true, dir_entries: entries(&["config.toml"]) };
    let found = config.find_config_file(&probe).unwrap();
    assert_eq!(found.path, "/srv/app/settings.yml");
    assert_eq!(found.format, Some(Format::Yaml));
}

#[test]
fn missing_explicit_path_falls_back_to_the_directory() {
    let config = orbitus_config(Some("/srv/app/settings.yml"), Some("/home/u/.config/orbitus"));
    let probe = Probe { explicit_exists: false, dir_entries: entries(&["notes.txt", "config.toml"]) };
    let found = config.find_config_file(&probe).unwrap();
    assert_eq!(found.path, "/home/u/.config/orbitus/config.toml");
    assert_eq!(found.format, Some(Format::Toml));
}

#[test]
fn directory_scan_prefers_lexical_order() {
    let dir = Some("/d".to_string());
    let probe = Probe {
        explicit_exists: false,
        dir_entries: entries(&["config.yml", "config.yaml", "config.toml", "config.json"]),
    };
    let found = locate(&None, &dir, &probe).unwrap();
    assert_eq!(found.path, "/d/config.json");
    assert_eq!(found.format, Some(Format::Json));

    let probe = Probe { explicit_exists: false, dir_entries: entries(&["config.yml", "config.yaml"]) };
    assert_eq!(locate(&None, &dir, &probe).unwrap().path, "/d/config.yaml");

    let probe = Probe { explicit_exists: false, dir_entries: entries(&["config.yml"]) };
    let found = locate(&None, &dir, &probe).unwrap();
    assert_eq!(found.path, "/d/config.yml");
    assert_eq!(found.format, Some(Format::Yaml));
}

#[test]
fn nothing_found_without_candidates() {
    let dir = Some("/d".to_string());
    let probe = Probe { explicit_exists: false, dir_entries: entries(&["config.ini", "Config.toml"]) };
    assert!(locate(&None, &dir, &probe).is_none());
    let probe = Probe { explicit_exists: false, dir_entries: None };
    assert!(locate(&None, &dir, &probe).is_none());
    let probe = Probe { explicit_exists: true, dir_entries: entries(&["config.toml"]) };
    assert!(locate(&None, &None, &probe).is_none());
}

#[test]
fn config_file_names() {
    assert!(is_config_file("config.yaml"));
    assert!(is_config_file("config.yml"));
    assert!(is_config_file("config.json"));
    assert!(is_config_file("config.toml"));
    assert!(!is_config_file("config.ini"));
    assert!(!is_config_file("config"));
    assert!(!is_config_file("my.config.toml"));
}

#[test]
fn extension_selects_the_format() {
    assert_eq!(config_file_at("/a/b/c.toml").format, Some(Format::Toml));
    assert_eq!(config_file_at("/a/b.d/c.json").format, Some(Format::Json));
    assert_eq!(config_file_at("c.yaml").format, Some(Format::Yaml));
    assert_eq!(config_file_at("/a/b.toml/c").format, None);
    assert_eq!(config_file_at("/a/c.ini").format, None);
    assert_eq!(Format::from_extension("yml"), Some(Format::Yaml));
    assert_eq!(Format::from_extension("YAML"), None);
}

#[test]
fn persist_to_the_explicit_path() {
    let mut config = orbitus_config(Some("/srv/app/settings.json"), Some("/home/u/.config/orbitus"));
    let mut wanted = config.values();
    wanted.ui = red_ui();
    let probe = Probe { explicit_exists: false, dir_entries: None };
    let plan = config.export(&wanted, &probe).unwrap().unwrap();
    assert_eq!(plan.path, "/srv/app/settings.json");
    assert_eq!(plan.format, Format::Json);
    assert_eq!(plan.file.ui, red_ui());
    assert_eq!(config.values().ui, UiConfig::default());
    assert_eq!(config.commit_export(plan, Ok(())), Ok(()));
    assert_eq!(config.values().ui, red_ui());
}

#[test]
fn persist_defaults_to_toml_in_the_directory() {
    let config = orbitus_config(None, Some("/home/u/.config/orbitus"));
    let probe = Probe { explicit_exists: false, dir_entries: entries(&[]) };
    let plan = config.export(&config.values(), &probe).unwrap().unwrap();
    assert_eq!(plan.path, "/home/u/.config/orbitus/config.toml");
    assert_eq!(plan.format, Format::Toml);

    let probe = Probe { explicit_exists: false, dir_entries: entries(&["config.yaml"]) };
    let plan = config.export(&config.values(), &probe).unwrap().unwrap();
    assert_eq!(plan.path, "/home/u/.config/orbitus/config.yaml");
    assert_eq!(plan.format, Format::Yaml);
}

#[test]
fn persist_nowhere_or_to_an_unknown_format() {
    let config = orbitus_config(None, None);
    let probe = Probe { explicit_exists: false, dir_entries: None };
    assert!(matches!(config.export(&config.values(), &probe), Ok(None)));

    let config = orbitus_config(Some("/srv/app/settings.ini"), None);
    assert!(matches!(
        config.export(&config.values(), &probe),
        Err(ConfigError::UnsupportedExtension)
    ));
}

#[test]
fn failed_write_keeps_the_state() {
    let mut config = orbitus_config(Some("/srv/app/settings.toml"), None);
    let mut wanted = config.values();
    wanted.ui = red_ui();
    let probe = Probe { explicit_exists: true, dir_entries: None };
    let plan = config.export(&wanted, &probe).unwrap().unwrap();
    let err = ConfigError::Unwritable("read-only file system".to_string());
    assert_eq!(config.commit_export(plan, Err(err.clone())), Err(err));
    assert_eq!(config.values().ui, UiConfig::default());
}

#[test]
fn watch_paths() {
    let config = orbitus_config(Some("/srv/app/settings.toml"), Some("/home/u/.config/orbitus"));
    let paths = config.find_watch_paths();
    assert_eq!(paths.dirs, vec!["/srv/app".to_string()]);
    assert!(!paths.create_missing);
    let config = orbitus_config(None, Some("/home/u/.config/orbitus"));
    let paths = config.find_watch_paths();
    assert_eq!(paths.dirs, vec!["/home/u/.config/orbitus".to_string()]);
    assert!(paths.create_missing);
    let config = orbitus_config(None, None);
    assert!(config.find_watch_paths().dirs.is_empty());
}

#[test]
fn reload_events() {
    assert!(is_reload_event(&EventKind::Create(CreateKind::File)));
    assert!(is_reload_event(&EventKind::Modify(ModifyKind::Data(DataChange::Content))));
    assert!(is_reload_event(&EventKind::Modify(ModifyKind::Name(RenameMode::To))));
    assert!(!is_reload_event(&EventKind::Create(CreateKind::Folder)));
    assert!(!is_reload_event(&EventKind::Modify(ModifyKind::Data(DataChange::Size))));
    assert!(!is_reload_event(&EventKind::Modify(ModifyKind::Metadata(MetadataKind::WriteTime))));
    assert!(!is_reload_event(&EventKind::Any));
}

#[test]
fn startup_directives() {
    let startup = |print_schema: bool, print_config: Option<&str>| {
        let args = ArgWrapper {
            values: orbitus::FromArgs {},
            config_path: None,
            log_level: None,
            print_schema,
            print_config: print_config.map(|f| f.to_string()),
        };
        let config: Config<orbitus::Config> = Config::with_config_dir(
            "ORBITUS",
            "org",
            "example",
            "orbitus",
            None,
            args,
            EnvWrapper {
                values: orbitus::FromEnv { websocket: WebsocketConfig::default() },
                config_path: None,
                log_level: None,
            },
        );
        config.startup()
    };
    assert_eq!(startup(false, None), Startup::Run);
    assert_eq!(startup(false, None).exit_code(), None);
    assert_eq!(startup(false, Some("yml")), Startup::PrintConfig(Format::Yaml));
    assert_eq!(startup(false, Some("json")), Startup::PrintConfig(Format::Json));
    assert_eq!(startup(false, Some("yml")).exit_code(), Some(0));
    assert_eq!(startup(false, Some("xml")), Startup::InvalidPrintFormat);
    assert_eq!(startup(false, Some("xml")).exit_code(), Some(1));
    assert_eq!(startup(true, Some("xml")), Startup::PrintSchema);
    assert_eq!(startup(true, None).exit_code(), Some(0));
}

#[test]
fn schema_annotations() {
    match schema_annotation(Format::Yaml, "https://x.org/src/orbitus") {
        SchemaAnnotation::Comment(c) => assert_eq!(
            c,
            "# yaml-language-server: $schema=https://x.org/src/orbitus/schema.json"
        ),
        other => panic!("unexpected {other:?}"),
    }
    match schema_annotation(Format::Toml, "r") {
        SchemaAnnotation::Comment(c) => assert_eq!(c, "#:schema r/schema.json"),
        other => panic!("unexpected {other:?}"),
    }
    match schema_annotation(Format::Json, "r") {
        SchemaAnnotation::Field { key, value } => {
            assert_eq!(key, "$schema");
            assert_eq!(value, "r/schema.json");
        }
        other => panic!("unexpected {other:?}"),
    }
    assert_eq!(with_comment("#:schema r/schema.json", "a = 1\n"), "#:schema r/schema.json\na = 1\n");
}
