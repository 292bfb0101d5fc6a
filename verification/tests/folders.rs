use whisperkeys::folders::{
    create_new_pack, format_pack_list, has_config_file, list_installed, FolderEntry,
};

fn names(list: &[&str]) -> Vec<String> {
    list.iter().map(|name| name.to_string()).collect()
}

fn folder(name: &str, files: &[&str]) -> FolderEntry {
    FolderEntry { name: name.to_string(), is_dir: true, files: names(files) }
}

fn file(name: &str) -> FolderEntry {
    FolderEntry { name: name.to_string(), is_dir: false, files: Vec::new() }
}

#[test]
fn either_config_name_makes_a_pack_folder() {
    assert!(has_config_file(&names(&["config.json5"])));
    assert!(has_config_file(&names(&["config.json"])));
    assert!(has_config_file(&names(&["a.ogg", "config.json", "b.ogg"])));
    assert!(has_config_file(&names(&["config.json", "config.json5"])));
}

#[test]
fn other_file_names_are_no_config() {
    assert!(!has_config_file(&names(&[])));
    assert!(!has_config_file(&names(&["a.ogg", "b.ogg"])));
    assert!(!has_config_file(&names(&["config.json.bak", "Config.json", "config.json6", "config"])));
}

#[test]
fn installed_packs_are_the_folders_with_a_config() {
    let entries = vec![
        folder("soft", &["config.json5", "a.ogg"]),
        file("notes.txt"),
        folder("empty", &[]),
        folder("legacy", &["config.json", "a.ogg"]),
        folder("sounds only", &["a.ogg"]),
        FolderEntry { name: "config.json".to_string(), is_dir: false, files: names(&["config.json"]) },
        folder("loud", &["b.ogg", "config.json5"]),
    ];
    assert_eq!(list_installed(entries), names(&["soft", "legacy", "loud"]));
}

#[test]
fn an_empty_folder_has_no_packs() {
    assert_eq!(list_installed(Vec::new()), Vec::<String>::new());
}

#[test]
fn the_first_new_pack_is_unnumbered() {
    assert_eq!(create_new_pack(&names(&[])), Some("New pack".to_string()));
    assert_eq!(create_new_pack(&names(&["soft", "New pack (2)"])), Some("New pack".to_string()));
}

#[test]
fn later_new_packs_are_numbered_from_two() {
    assert_eq!(create_new_pack(&names(&["New pack"])), Some("New pack (2)".to_string()));
    assert_eq!(
        create_new_pack(&names(&["New pack (2)", "New pack"])),
        Some("New pack (3)".to_string())
    );
    assert_eq!(
        create_new_pack(&names(&["New pack", "New pack (3)"])),
        Some("New pack (2)".to_string())
    );
}

#[test]
fn numbering_goes_past_single_digits() {
    let mut existing = vec!["New pack".to_string()];
    for n in 2..=11 {
        existing.push(format!("New pack ({n})"));
    }
    assert_eq!(create_new_pack(&existing), Some("New pack (12)".to_string()));
}

#[test]
fn similar_names_do_not_count_as_taken() {
    assert_eq!(
        create_new_pack(&names(&["new pack", "New pack ", "New pack (1)"])),
        Some("New pack".to_string())
    );
}

#[test]
fn short_names_are_listed_in_full() {
    let exactly_28 = "abcdefghijklmnopqrstuvwxyz12";
    assert_eq!(exactly_28.len(), 28);
    assert_eq!(
        format_pack_list(names(&["soft", "", exactly_28])),
        names(&["soft", "", exactly_28])
    );
}

#[test]
fn long_names_are_cut_after_28_characters() {
    let long = "abcdefghijklmnopqrstuvwxyz123";
    assert_eq!(long.len(), 29);
    assert_eq!(
        format_pack_list(names(&[long, "ok", "a very long pack name that goes on and on"])),
        names(&["abcdefghijklmnopqrstuvwxyz12\u{2026}", "ok", "a very long pack name that g\u{2026}"])
    );
}

#[test]
fn the_limit_counts_bytes_and_the_cut_counts_characters() {
    let accented = "\u{e9}".repeat(15);
    assert_eq!(accented.len(), 30);
    let shown = format_pack_list(vec![accented.clone()]);
    assert_eq!(shown, vec![format!("{accented}\u{2026}")]);

    let many = "\u{e9}".repeat(40);
    let shown = format_pack_list(vec![many]);
    assert_eq!(shown, vec![format!("{}\u{2026}", "\u{e9}".repeat(28))]);
}
