use pwman_desktop::vaults::{
    describe, is_vault_entry, list_local_vaults, precedes_or_equals, resolve_dir_hint,
    scan_vault_dir, vault_label, FileMeta, FoundEntry, ListAction, ListEvent, VaultDir, VaultInfo,
};

fn entry(name: &str) -> FoundEntry {
    let extension = std::path::Path::new(name).extension().map(|e| e.to_str().unwrap().to_string());
    FoundEntry {
        path: format!("/v/{}", name),
        file_name: Some(name.to_string()),
        extension,
        metadata: Some(FileMeta { len: name.len() as u64, modified: Some(1_700_000_000) }),
    }
}

fn names(vaults: &[VaultInfo]) -> Vec<&str> {
    vaults.iter().map(|v| v.file_name.as_str()).collect()
}

#[test]
fn hint_chooses_the_directory() {
    assert_eq!(resolve_dir_hint(None), VaultDir::Default);
    assert_eq!(resolve_dir_hint(Some("~/vaults/work".to_string())), VaultDir::UnderHome("vaults/work".to_string()));
    assert_eq!(resolve_dir_hint(Some("~/".to_string())), VaultDir::UnderHome(String::new()));
    assert_eq!(resolve_dir_hint(Some("~".to_string())), VaultDir::At("~".to_string()));
    assert_eq!(resolve_dir_hint(Some("~x/y".to_string())), VaultDir::At("~x/y".to_string()));
    assert_eq!(resolve_dir_hint(Some("/srv/~/v".to_string())), VaultDir::At("/srv/~/v".to_string()));
    assert_eq!(resolve_dir_hint(Some(String::new())), VaultDir::At(String::new()));
    assert_eq!(resolve_dir_hint(Some("~/é/ü".to_string())), VaultDir::UnderHome("é/ü".to_string()));
}

#[test]
fn label_leaves_out_the_ending() {
    assert_eq!(vault_label("work.json"), "work");
    assert_eq!(vault_label("a.b.json"), "a.b");
    assert_eq!(vault_label(".json"), "");
    assert_eq!(vault_label("work.JSON"), "work.JSON");
    assert_eq!(vault_label("json"), "json");
    assert_eq!(vault_label("work.json.bak"), "work.json.bak");
    assert_eq!(vault_label(""), "");
    assert_eq!(vault_label("größe.json"), "größe");
}

#[test]
fn only_json_entries_are_vaults() {
    assert!(is_vault_entry(&entry("a.json")));
    assert!(!is_vault_entry(&entry("a.JSON")));
    assert!(!is_vault_entry(&entry("a.jsonx")));
    assert!(!is_vault_entry(&entry("a.jso")));
    assert!(!is_vault_entry(&entry("json")));
    assert!(!is_vault_entry(&entry(".json")));
    assert!(!is_vault_entry(&entry("a.txt")));
}

#[test]
fn entry_is_described_with_what_is_known() {
    let full = describe(&entry("Work.json"));
    assert_eq!(
        full,
        VaultInfo {
            path: "/v/Work.json".to_string(),
            file_name: "Work.json".to_string(),
            size: 9,
            modified: Some(1_700_000_000),
            label: "Work".to_string(),
        }
    );
    let bare = describe(&FoundEntry {
        path: "/v/\u{fffd}.json".to_string(),
        file_name: None,
        extension: Some("json".to_string()),
        metadata: None,
    });
    assert_eq!(
        bare,
        VaultInfo {
            path: "/v/\u{fffd}.json".to_string(),
            file_name: String::new(),
            size: 0,
            modified: None,
            label: String::new(),
        }
    );
    let undated = describe(&FoundEntry { metadata: Some(FileMeta { len: 12, modified: None }), ..entry("x.json") });
    assert_eq!((undated.size, undated.modified), (12, None));
}

#[test]
fn texts_are_ordered_by_code_point() {
    assert!(precedes_or_equals("", ""));
    assert!(precedes_or_equals("", "a"));
    assert!(!precedes_or_equals("a", ""));
    assert!(precedes_or_equals("a", "a"));
    assert!(precedes_or_equals("a", "ab"));
    assert!(!precedes_or_equals("ab", "a"));
    assert!(precedes_or_equals("ab", "b"));
    assert!(!precedes_or_equals("b", "ab"));
    assert!(precedes_or_equals("B", "a"));
    assert!(!precedes_or_equals("a", "B"));
    assert!(precedes_or_equals("z", "é"));
    assert!(precedes_or_equals("é", "\u{10000}"));
    assert!(!precedes_or_equals("\u{10000}", "\u{ffff}"));
    for (a, b) in [("", "x"), ("ab", "ac"), ("é", "e"), ("\u{ff5e}", "\u{1f600}"), ("same", "same")] {
        assert_eq!(precedes_or_equals(a, b), a <= b);
        assert_eq!(precedes_or_equals(b, a), b <= a);
    }
}

#[test]
fn vaults_are_listed_without_regard_to_case() {
    let found = vec![entry("b.json"), entry("A.json"), entry("notes.txt"), entry("C.json"), entry("a1.json")];
    let vaults = scan_vault_dir(&found);
    assert_eq!(names(&vaults), vec!["A.json", "a1.json", "b.json", "C.json"]);
    assert_eq!(vaults[3].label, "C");
    assert_eq!(vaults[3].path, "/v/C.json");
}

#[test]
fn upper_case_does_not_come_first() {
    let vaults = scan_vault_dir(&vec![entry("B.json"), entry("a.json")]);
    assert_eq!(names(&vaults), vec!["a.json", "B.json"]);
    let vaults = scan_vault_dir(&vec![entry("a.json"), entry("B.json")]);
    assert_eq!(names(&vaults), vec!["a.json", "B.json"]);
    let vaults = scan_vault_dir(&vec![entry("Émile.json"), entry("éa.json"), entry("z.json")]);
    assert_eq!(names(&vaults), vec!["z.json", "éa.json", "Émile.json"]);
}

#[test]
fn names_alike_but_for_case_stay_as_found() {
    let vaults = scan_vault_dir(&vec![entry("x.json"), entry("A.json"), entry("a.json"), entry("A.JSON"), entry("a.Json")]);
    assert_eq!(names(&vaults), vec!["A.json", "a.json", "x.json"]);
    let vaults = scan_vault_dir(&vec![entry("a.json"), entry("x.json"), entry("A.json")]);
    assert_eq!(names(&vaults), vec!["a.json", "A.json", "x.json"]);
}

#[test]
fn empty_directory_has_no_vaults() {
    assert_eq!(scan_vault_dir(&Vec::new()), Vec::new());
    assert_eq!(scan_vault_dir(&vec![entry("readme.md"), entry("json")]), Vec::new());
}

#[test]
fn listing_reads_the_directory_and_then_lists() {
    assert_eq!(list_local_vaults(ListEvent::Begin(None)), ListAction::ReadDir(VaultDir::Default));
    assert_eq!(
        list_local_vaults(ListEvent::Begin(Some("~/v".to_string()))),
        ListAction::ReadDir(VaultDir::UnderHome("v".to_string()))
    );
    assert_eq!(
        list_local_vaults(ListEvent::Begin(Some("/v".to_string()))),
        ListAction::ReadDir(VaultDir::At("/v".to_string()))
    );
    assert_eq!(list_local_vaults(ListEvent::Unreadable), ListAction::Finish(Vec::new()));
    match list_local_vaults(ListEvent::Entries(vec![entry("b.json"), entry("skip"), entry("A.json")])) {
        ListAction::Finish(vaults) => assert_eq!(names(&vaults), vec!["A.json", "b.json"]),
        other => panic!("unexpected {:?}", other),
    }
}
