use merge_tools::read_config::{
    config_files, config_path, config_sources, env_base, env_overrides, ConfigPath, ConfigSource,
    DirEntry, FoundConfig,
};
use merge_tools::table::Table;

fn env(variables: &[(&str, &str)]) -> Table<String> {
    let mut env = Table::new();
    for (name, value) in variables {
        env.insert(name, value.to_string());
    }
    env
}

fn entry(name: &[u8], path: u32, is_file: bool) -> DirEntry<u32> {
    DirEntry {
        name: name.to_vec(),
        path,
        is_file,
    }
}

#[test]
fn config_can_be_given() {
    match config_path(&env(&[("JJ_CONFIG", "/x"), ("EDITOR", "e")])) {
        ConfigPath::Given(path) => assert_eq!(path, "/x"),
        ConfigPath::InConfigDir(_) => panic!(),
    }
}

#[test]
fn config_is_in_the_config_dir_otherwise() {
    match config_path(&env(&[("EDITOR", "e")])) {
        ConfigPath::InConfigDir(components) => assert_eq!(components, ["jj", "config.toml"]),
        ConfigPath::Given(_) => panic!(),
    }
}

#[test]
fn base_holds_the_editor() {
    let config = env_base(&env(&[("EDITOR", "vi"), ("JJ_EDITOR", "no"), ("JJ_USER", "no")]));
    assert_eq!(config.get_string("ui.editor").unwrap(), "vi");
    assert!(config.get_string("user.name").is_err());
    assert!(env_base(&env(&[])).get_string("ui.editor").is_err());
}

#[test]
fn variables_have_their_settings() {
    let settings = [
        ("JJ_USER", "user.name"),
        ("JJ_EMAIL", "user.email"),
        ("JJ_TIMESTAMP", "user.timestamp"),
        ("JJ_EDITOR", "ui.editor"),
    ];
    let all: Vec<(&str, &str)> = settings.iter().map(|(var, _)| (*var, *var)).collect();
    let config = env_overrides(&env(&all));
    for (var, key) in settings {
        assert_eq!(config.get_string(key).unwrap(), var);
        let config = env_overrides(&env(&[(var, "x y")]));
        for (_, other) in settings {
            assert_eq!(config.get_string(other).ok(), (other == key).then_some("x y".to_owned()));
        }
    }
    assert!(env_overrides(&env(&[("EDITOR", "vi")])).get_string("ui.editor").is_err());
}

#[test]
fn files_come_in_the_order_of_their_names() {
    let entries = vec![
        entry(b"b", 1, true),
        entry(b"a.toml", 2, true),
        entry(b"c", 3, false),
        entry(b"a", 4, true),
        entry(b"B", 5, true),
        entry(b"b\xff", 6, true),
        entry(b"a.d", 7, false),
    ];
    assert_eq!(config_files(Some(FoundConfig::Directory(entries))), [5, 4, 2, 1, 6]);
}

#[test]
fn listing_order_makes_no_difference() {
    let found = [b"x".as_slice(), b"xy", b"a", b""];
    for shift in 0..found.len() {
        let mut entries: Vec<_> =
            (0u32..4).map(|i| entry(found[i as usize], i, true)).collect();
        entries.rotate_left(shift);
        assert_eq!(config_files(Some(FoundConfig::Directory(entries))), [3, 2, 0, 1]);
    }
}

#[test]
fn empty_directory_has_no_files() {
    assert!(config_files::<u32>(Some(FoundConfig::Directory(vec![]))).is_empty());
    assert!(config_files::<u32>(None).is_empty());
}

#[test]
fn other_path_is_the_one_file() {
    assert_eq!(config_files(Some(FoundConfig::Other(9))), [9]);
}

#[test]
fn files_lie_between_the_environments() {
    let env = env(&[("EDITOR", "vi"), ("JJ_USER", "me")]);
    let found = FoundConfig::Directory(vec![entry(b"2", 2, true), entry(b"1", 1, true)]);
    let sources = config_sources(&env, Some(found));
    assert_eq!(sources.len(), 4);
    match &sources[..] {
        [ConfigSource::Values(base), ConfigSource::File(1), ConfigSource::File(2), ConfigSource::Values(overrides)] =>
        {
            assert_eq!(base.get_string("ui.editor").unwrap(), "vi");
            assert_eq!(overrides.get_string("user.name").unwrap(), "me");
        }
        _ => panic!(),
    }
}

fn effective(variables: &[(&str, &str)], files: &[&str], key: &str) -> Option<String> {
    let entries = (0..files.len()).map(|i| entry(&[b'0' + i as u8], i as u32, true)).collect();
    let mut builder = config::Config::builder();
    for source in config_sources(&env(variables), Some(FoundConfig::Directory(entries))) {
        builder = match source {
            ConfigSource::Values(values) => builder.add_source(values),
            ConfigSource::File(i) => builder.add_source(config::File::from_str(
                files[i as usize],
                config::FileFormat::Toml,
            )),
        };
    }
    builder.build().unwrap().get_string(key).ok()
}

#[test]
fn later_sources_win() {
    let files = ["ui.editor = \"one\"", "ui.editor = \"two\"", "ui.color = \"never\""];
    let base = ("EDITOR", "base");
    let top = ("JJ_EDITOR", "top");
    assert_eq!(effective(&[base, top], &files, "ui.editor").unwrap(), "top");
    assert_eq!(effective(&[base], &files, "ui.editor").unwrap(), "two");
    assert_eq!(effective(&[base], &files[..1], "ui.editor").unwrap(), "one");
    assert_eq!(effective(&[base], &files[2..], "ui.editor").unwrap(), "base");
    assert_eq!(effective(&[], &files[2..], "ui.editor"), None);
    assert_eq!(effective(&[base, top], &files, "ui.color").unwrap(), "never");
}

#[test]
fn tables_hold_the_last_value() {
    let mut table = Table::new();
    assert_eq!(table.get("a"), None);
    table.insert("a", 1);
    table.insert("b", 2);
    table.insert("a", 3);
    assert_eq!(table.get("a"), Some(&3));
    assert_eq!(table.get("b"), Some(&2));
    assert_eq!(table.get("A"), None);
}
