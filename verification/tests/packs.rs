use whisperkeys::pack::{
    from_mechvibes, read_config_file, Bindings, Pack, PackError, RawPack, SoundFile,
};

fn decoded(key: &str, path: &str, sound: u32) -> SoundFile<u32> {
    SoundFile { key: key.to_string(), path: path.to_string(), sound: Some(sound) }
}

fn failed(key: &str, path: &str) -> SoundFile<u32> {
    SoundFile { key: key.to_string(), path: path.to_string(), sound: None }
}

#[test]
fn a_pack_loads_with_all_its_keys() {
    let files = vec![
        decoded("KeyA", "packs/soft/a.ogg", 1),
        decoded("KeyB", "packs/soft/b.ogg", 2),
        decoded("Unknown", "packs/soft/any.ogg", 3),
    ];
    let pack = Pack::load_from("soft", "70", files).unwrap();
    assert_eq!(pack.name(), "soft");
    assert_eq!(pack.default_volume(), 70);
    assert_eq!(pack.get("KeyA"), Some(&1));
    assert_eq!(pack.get("KeyB"), Some(&2));
    assert_eq!(pack.get("Unknown"), Some(&3));
    assert_eq!(pack.get("KeyC"), None);
    assert!(pack.has_fallback());
}

#[test]
fn identifiers_keep_their_case() {
    let pack = Pack::load_from("soft", "50", vec![decoded("KeyA", "a.ogg", 1)]).unwrap();
    assert_eq!(pack.get("KeyA"), Some(&1));
    assert_eq!(pack.get("keya"), None);
    assert_eq!(pack.get("KEYA"), None);
    assert_eq!(pack.get("unknown"), None);
}

#[test]
fn an_empty_pack_loads() {
    let pack = Pack::<u32>::load_from("empty", "0", Vec::new()).unwrap();
    assert_eq!(pack.default_volume(), 0);
    assert_eq!(pack.get("KeyA"), None);
    assert_eq!(pack.resolve("KeyA"), None);
    assert!(!pack.has_fallback());
}

#[test]
fn a_missing_sound_fails_the_whole_load() {
    let files = vec![
        decoded("KeyA", "packs/soft/a.ogg", 1),
        failed("KeyB", "packs/soft/missing.ogg"),
        decoded("KeyC", "packs/soft/c.ogg", 3),
    ];
    let error = Pack::load_from("soft", "50", files).unwrap_err();
    match &error {
        PackError::SoundLoad { key, path } => {
            assert_eq!(key, "KeyB");
            assert_eq!(path, "packs/soft/missing.ogg");
        }
        other => panic!("unexpected error: {other:?}"),
    }
    assert_eq!(
        error.message(),
        "Failed to load sound for key 'KeyB' from 'packs/soft/missing.ogg'"
    );
}

#[test]
fn the_first_missing_sound_is_reported() {
    let files = vec![failed("KeyX", "x.ogg"), failed("KeyY", "y.ogg")];
    match Pack::load_from("soft", "50", files).unwrap_err() {
        PackError::SoundLoad { key, path } => {
            assert_eq!(key, "KeyX");
            assert_eq!(path, "x.ogg");
        }
        other => panic!("unexpected error: {other:?}"),
    }
}

#[test]
fn a_missing_sound_is_reported_before_a_bad_volume() {
    let files = vec![failed("KeyA", "a.ogg")];
    let error = Pack::load_from("soft", "loud", files).unwrap_err();
    assert!(matches!(error, PackError::SoundLoad { .. }));
}

#[test]
fn a_volume_that_is_no_number_fails_the_load() {
    let error = Pack::load_from("soft", "loud", vec![decoded("KeyA", "a.ogg", 1)]).unwrap_err();
    match &error {
        PackError::InvalidVolume { value } => assert_eq!(value, "loud"),
        other => panic!("unexpected error: {other:?}"),
    }
    assert_eq!(error.message(), "Invalid default_volume: 'loud'");
    for text in ["", "-5", "5.5", " 50", "50%"] {
        let error = Pack::load_from("soft", text, vec![decoded("KeyA", "a.ogg", 1)]).unwrap_err();
        assert!(matches!(error, PackError::InvalidVolume { .. }), "{text:?}");
    }
}

#[test]
fn a_volume_above_one_hundred_fails_the_load() {
    assert!(Pack::load_from("soft", "100", vec![decoded("KeyA", "a.ogg", 1)]).is_ok());
    match Pack::load_from("soft", "101", vec![decoded("KeyA", "a.ogg", 1)]).unwrap_err() {
        PackError::InvalidVolume { value } => assert_eq!(value, "101"),
        other => panic!("unexpected error: {other:?}"),
    }
    assert!(Pack::load_from("soft", "4294967296", vec![decoded("KeyA", "a.ogg", 1)]).is_err());
}

#[test]
fn the_last_binding_of_an_identifier_counts() {
    let files = vec![decoded("KeyA", "old.ogg", 1), decoded("KeyB", "b.ogg", 2), decoded("KeyA", "new.ogg", 9)];
    let pack = Pack::load_from("soft", "50", files).unwrap();
    assert_eq!(pack.get("KeyA"), Some(&9));
    assert_eq!(pack.get("KeyB"), Some(&2));
}

#[test]
fn a_key_without_a_sound_falls_back() {
    let with_fallback =
        Pack::load_from("soft", "50", vec![decoded("KeyA", "a.ogg", 1), decoded("Unknown", "u.ogg", 7)])
            .unwrap();
    assert_eq!(with_fallback.resolve("KeyA"), Some(&1));
    assert_eq!(with_fallback.resolve("KeyQ"), Some(&7));
    assert_eq!(with_fallback.resolve("Unknown"), Some(&7));

    let without = Pack::load_from("soft", "50", vec![decoded("KeyA", "a.ogg", 1)]).unwrap();
    assert_eq!(without.resolve("KeyA"), Some(&1));
    assert_eq!(without.resolve("KeyQ"), None);
    assert!(!without.has_fallback());
}

#[test]
fn error_messages_name_what_failed() {
    let missing = PackError::MissingConfig { path: "packs/soft".to_string() };
    assert_eq!(missing.message(), "No config file found at path packs/soft");
    let invalid = PackError::InvalidConfig { path: "packs/soft".to_string() };
    assert_eq!(invalid.message(), "Invalid configuration file in packs/soft");
    let sound = PackError::SoundLoad { key: "KeyA".to_string(), path: "packs/soft/a.ogg".to_string() };
    assert_eq!(sound.message(), "Failed to load sound for key 'KeyA' from 'packs/soft/a.ogg'");
    let volume = PackError::InvalidVolume { value: "x".to_string() };
    assert_eq!(volume.message(), "Invalid default_volume: 'x'");
}

#[test]
fn the_relaxed_config_is_preferred() {
    let both = read_config_file("packs/soft", Some("relaxed".to_string()), Some("strict".to_string()));
    assert_eq!(both.unwrap(), "relaxed");
    let only_relaxed = read_config_file("packs/soft", Some("relaxed".to_string()), None);
    assert_eq!(only_relaxed.unwrap(), "relaxed");
    let only_strict = read_config_file("packs/soft", None, Some("strict".to_string()));
    assert_eq!(only_strict.unwrap(), "strict");
}

#[test]
fn a_folder_without_config_is_an_error() {
    match read_config_file("packs/soft", None, None).unwrap_err() {
        PackError::MissingConfig { path } => assert_eq!(path, "packs/soft"),
        other => panic!("unexpected error: {other:?}"),
    }
}

fn define(code: &str, path: Option<&str>) -> (String, Option<String>) {
    (code.to_string(), path.map(str::to_string))
}

fn bindings(pack: &RawPack) -> Vec<(&str, &str)> {
    pack.keys.as_pairs().iter().map(|(key, path)| (key.as_str(), path.as_str())).collect()
}

#[test]
fn legacy_codes_translate_to_identifiers() {
    let pack = from_mechvibes(vec![define("30", Some("a.ogg")), define("999999", Some("u.ogg"))]);
    assert_eq!(bindings(&pack), vec![("KeyA", "a.ogg"), ("Unknown", "u.ogg")]);
    assert!(pack.has_fallback());
    assert_eq!(pack.creator, "");
    assert_eq!(pack.source, "");
    assert_eq!(pack.default_volume, "50");
}

#[test]
fn legacy_entries_without_a_path_are_dropped() {
    let pack = from_mechvibes(vec![
        define("30", None),
        define("48", Some("b.ogg")),
        define("46", None),
    ]);
    assert_eq!(bindings(&pack), vec![("KeyB", "b.ogg")]);
    assert!(!pack.has_fallback());
}

#[test]
fn legacy_entries_that_are_no_code_are_dropped() {
    let pack = from_mechvibes(vec![
        define("enter", Some("e.ogg")),
        define("-1", Some("m.ogg")),
        define("", Some("n.ogg")),
        define("99999999999", Some("big.ogg")),
        define("28", Some("return.ogg")),
    ]);
    assert_eq!(bindings(&pack), vec![("Return", "return.ogg")]);
}

#[test]
fn unlisted_legacy_codes_become_the_fallback() {
    let pack = from_mechvibes(vec![define("0", Some("zero.ogg"))]);
    assert_eq!(bindings(&pack), vec![("Unknown", "zero.ogg")]);
    assert!(pack.has_fallback());
}

#[test]
fn two_unlisted_legacy_codes_give_one_fallback() {
    let pack = from_mechvibes(vec![
        define("0", Some("zero.ogg")),
        define("30", Some("a.ogg")),
        define("65535", Some("top.ogg")),
    ]);
    assert_eq!(bindings(&pack), vec![("Unknown", "top.ogg"), ("KeyA", "a.ogg")]);
    assert_eq!(pack.keys.len(), 2);
    assert_eq!(pack.keys.get("Unknown").map(String::as_str), Some("top.ogg"));
}

#[test]
fn two_legacy_codes_of_one_key_give_one_binding() {
    let pack = from_mechvibes(vec![define("13", Some("x.ogg")), define("3597", Some("y.ogg"))]);
    assert_eq!(bindings(&pack), vec![("Equal", "y.ogg")]);

    let pack = from_mechvibes(vec![define("3597", Some("y.ogg")), define("13", Some("x.ogg"))]);
    assert_eq!(bindings(&pack), vec![("Equal", "x.ogg")]);
}

#[test]
fn a_dropped_legacy_entry_does_not_replace_a_kept_one() {
    let pack = from_mechvibes(vec![
        define("13", Some("x.ogg")),
        define("3597", None),
        define("equal", Some("z.ogg")),
    ]);
    assert_eq!(bindings(&pack), vec![("Equal", "x.ogg")]);
}

#[test]
fn translated_identifiers_are_unique() {
    let mut defines = Vec::new();
    for code in 0..200u32 {
        defines.push((code.to_string(), Some(format!("{code}.ogg"))));
    }
    defines.push(("3597".to_string(), Some("late.ogg".to_string())));
    let pack = from_mechvibes(defines);
    let mut identifiers: Vec<&str> =
        pack.keys.as_pairs().iter().map(|(key, _)| key.as_str()).collect();
    let count = identifiers.len();
    identifiers.sort_unstable();
    identifiers.dedup();
    assert_eq!(identifiers.len(), count);
    assert_eq!(pack.keys.len(), count);
    assert_eq!(pack.keys.get("Equal").map(String::as_str), Some("late.ogg"));
    assert_eq!(pack.keys.get("Unknown").map(String::as_str), Some("199.ogg"));
    assert_eq!(pack.keys.get("KeyA").map(String::as_str), Some("30.ogg"));
}

#[test]
fn an_empty_legacy_table_gives_an_empty_pack() {
    let pack = from_mechvibes(Vec::new());
    assert!(pack.keys.as_pairs().is_empty());
    assert_eq!(pack.keys.len(), 0);
    assert!(!pack.has_fallback());
    assert_eq!(pack.default_volume, "50");
}

#[test]
fn a_translated_pack_loads() {
    let raw = from_mechvibes(vec![define("30", Some("a.ogg")), define("999999", Some("u.ogg"))]);
    let files: Vec<SoundFile<u32>> = raw
        .keys
        .as_pairs()
        .iter()
        .enumerate()
        .map(|(i, (key, path))| SoundFile { key: key.clone(), path: path.clone(), sound: Some(i as u32) })
        .collect();
    let pack = Pack::load_from("imported", &raw.default_volume, files).unwrap();
    assert_eq!(pack.default_volume(), 50);
    assert_eq!(pack.resolve("KeyA"), Some(&0));
    assert_eq!(pack.resolve("KeyZ"), Some(&1));
}

fn pair(key: &str, path: &str) -> (String, String) {
    (key.to_string(), path.to_string())
}

#[test]
fn an_empty_table_binds_nothing() {
    let table = Bindings::new();
    assert_eq!(table.len(), 0);
    assert!(table.as_pairs().is_empty());
    assert_eq!(table.get("KeyA"), None);
}

#[test]
fn insert_binds_or_rebinds() {
    let table = Bindings::new()
        .insert("KeyA".to_string(), "a.ogg".to_string())
        .insert("KeyB".to_string(), "b.ogg".to_string());
    assert_eq!(table.as_pairs(), &vec![pair("KeyA", "a.ogg"), pair("KeyB", "b.ogg")]);
    let table = table.insert("KeyA".to_string(), "other.ogg".to_string());
    assert_eq!(table.as_pairs(), &vec![pair("KeyA", "other.ogg"), pair("KeyB", "b.ogg")]);
    assert_eq!(table.len(), 2);
    assert_eq!(table.get("KeyA").map(String::as_str), Some("other.ogg"));
    assert_eq!(table.get("KeyB").map(String::as_str), Some("b.ogg"));
    assert_eq!(table.get("keya"), None);
}

#[test]
fn a_list_with_repeats_becomes_a_table_without() {
    let table = Bindings::from_pairs(vec![
        pair("KeyA", "first.ogg"),
        pair("Unknown", "u.ogg"),
        pair("KeyA", "second.ogg"),
        pair("KeyB", "b.ogg"),
        pair("KeyA", "third.ogg"),
    ]);
    assert_eq!(
        table.as_pairs(),
        &vec![pair("KeyA", "third.ogg"), pair("Unknown", "u.ogg"), pair("KeyB", "b.ogg")]
    );
    assert_eq!(table.len(), 3);
}

#[test]
fn a_configuration_knows_its_fallback() {
    let with = RawPack {
        creator: String::new(),
        source: String::new(),
        default_volume: "50".to_string(),
        keys: Bindings::from_pairs(vec![pair("KeyA", "a.ogg"), pair("Unknown", "u.ogg")]),
    };
    assert!(with.has_fallback());
    let without = RawPack {
        creator: String::new(),
        source: String::new(),
        default_volume: "50".to_string(),
        keys: Bindings::from_pairs(vec![pair("KeyA", "a.ogg"), pair("unknown", "u.ogg")]),
    };
    assert!(!without.has_fallback());
}
