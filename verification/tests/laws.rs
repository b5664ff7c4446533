use clipygo_plugin_obsidian::clock::local_time_text;
use clipygo_plugin_obsidian::config::{
    config_file_path, get_config, load_config, set_config, ConfigUpdate, ObsidianConfig,
    DEFAULT_APPEND_TEMPLATE,
};
use clipygo_plugin_obsidian::notes::{
    daily_note_at, daily_note_path, inbox_note_path, render_entry, resolve_vault_path,
};
use clipygo_plugin_obsidian::json::{
    config_update_from_document, config_update_from_value, vault_from_document, vault_from_obsidian_json,
    JsonValue,
};
use clipygo_plugin_obsidian::paths::{obsidian_json_path, HostOs};
use clipygo_plugin_obsidian::protocol::{
    info_response, plan_send, plan_send_at, send_response, taken_note_path, taken_note_path_at,
    targets_response, SendPlan,
};
use clipygo_plugin_obsidian::text::{chars_of, replace_chars, same_text, trim_chars};
use clipygo_plugin_obsidian::titles::{checked_note_title, name_char_for, sanitize_chars};
use clipygo_plugin_obsidian::paths::path1;
use clipygo_plugin_obsidian::protocol::new_note_location;

fn config(vault: &str) -> ObsidianConfig {
    ObsidianConfig::with_vault_path(vault.to_string())
}

fn no_update() -> ConfigUpdate {
    ConfigUpdate {
        vault_path: None,
        daily_notes_folder: None,
        daily_notes_format: None,
        inbox_note: None,
        append_template: None,
    }
}

#[test]
fn defaults_match_the_readme() {
    let c = config("");
    assert_eq!(c.vault_path, "");
    assert_eq!(c.daily_notes_folder, "Daily Notes");
    assert_eq!(c.daily_notes_format, "%Y-%m-%d");
    assert_eq!(c.inbox_note, "Inbox.md");
    assert_eq!(c.append_template, "\n---\n*{timestamp}*\n{content}\n");
}

#[test]
fn empty_vault_path_is_not_configured() {
    assert_eq!(resolve_vault_path(&config(""), true), Err("Vault path not configured".to_string()));
}

#[test]
fn missing_vault_is_not_found() {
    assert_eq!(resolve_vault_path(&config("/no/vault"), false), Err("Vault not found: /no/vault".to_string()));
    assert_eq!(resolve_vault_path(&config("/vault"), true), Ok("/vault".to_string()));
}

#[test]
fn inbox_lies_in_the_vault() {
    let p = inbox_note_path(&config("/vault"), true).unwrap();
    assert_eq!(p.base, "/vault");
    assert_eq!(p.parts, vec!["Inbox.md".to_string()]);
    assert!(inbox_note_path(&config("/vault"), false).is_err());
}

#[test]
fn daily_note_is_named_by_date() {
    let p = daily_note_at(&config("/vault"), true, "2024-05-06").unwrap();
    assert_eq!(p.base, "/vault");
    assert_eq!(p.parts, vec!["Daily Notes".to_string(), "2024-05-06.md".to_string()]);
}

#[test]
fn rejected_daily_format_gives_no_path() {
    let mut c = config("/vault");
    c.daily_notes_format = "%Q".to_string();
    assert!(daily_note_path(&c, true).is_none());
    assert!(daily_note_path(&c, false).unwrap().is_err());
    assert!(plan_send(&c, true, "daily-note", "x").is_none());
    // Parsed by chrono, but it cannot be printed.
    c.daily_notes_format = "%#z".to_string();
    assert!(daily_note_path(&c, true).is_none());
    assert!(plan_send(&c, true, "daily-note", "x").is_none());
    assert!(plan_send(&c, true, "inbox", "x").is_some());
}

#[test]
fn daily_date_follows_the_format() {
    let c = config("/vault");
    let p = daily_note_path(&c, true).unwrap().unwrap();
    let today = chrono::Local::now().format("%Y-%m-%d").to_string();
    assert_eq!(p.parts[1], format!("{today}.md"));
    let mut plain = config("/vault");
    plain.daily_notes_format = "journal".to_string();
    let p = daily_note_path(&plain, true).unwrap().unwrap();
    assert_eq!(p.parts[1], "journal.md");
}

#[test]
fn default_entry_from_the_clock() {
    let c = config("/vault");
    let entry = clipygo_plugin_obsidian::notes::format_entry(&c, "hello");
    assert!(entry.starts_with("\n---\n*"));
    assert!(entry.ends_with("*\nhello\n"));
    let stamp = &entry[6..entry.len() - 8];
    assert_eq!(stamp.len(), 16);
    assert!(stamp.chars().all(|ch| ch.is_ascii_digit() || "-: ".contains(ch)));
}

#[test]
fn whitespace_matches_std() {
    for code in 0u32..0x110000 {
        if let Some(ch) = char::from_u32(code) {
            let trimmed = trim_chars(&vec![ch]);
            assert_eq!(trimmed.is_empty(), ch.is_whitespace(), "U+{code:04X}");
        }
    }
}

#[test]
fn chrono_renders_only_printable_formats() {
    assert!(local_time_text("%Q").is_none());
    assert!(local_time_text("abc%").is_none());
    assert!(local_time_text("%#z").is_none());
    let year = local_time_text("%Y").unwrap();
    assert_eq!(year, chrono::Local::now().format("%Y").to_string());
    assert_ne!(year, "%Y");
    assert_eq!(local_time_text("plain").unwrap(), "plain");
}

#[test]
fn default_template_entry() {
    let entry = render_entry(DEFAULT_APPEND_TEMPLATE, "2024-05-06 07:08", "hello");
    assert_eq!(entry, "\n---\n*2024-05-06 07:08*\nhello\n");
}

#[test]
fn plain_template_is_kept() {
    assert_eq!(render_entry("no placeholders here", "T", "C"), "no placeholders here");
}

#[test]
fn every_placeholder_is_replaced() {
    let entry = render_entry("{content}|{timestamp}|{content}", "T", "C");
    assert_eq!(entry, "C|T|C");
    // The content is inserted as it is, placeholders in it included.
    assert_eq!(render_entry("[{content}]", "T", "{timestamp}"), "[{timestamp}]");
}

#[test]
fn replace_finds_occurrences_left_to_right() {
    let s = chars_of("aaaa");
    let r = replace_chars(&s, &chars_of("aa"), &chars_of("b"));
    assert_eq!(r, chars_of("bb"));
    let r = replace_chars(&chars_of("aaa"), &chars_of("aa"), &chars_of("b"));
    assert_eq!(r, chars_of("ba"));
}

#[test]
fn trim_removes_unicode_whitespace() {
    assert_eq!(trim_chars(&chars_of(" \t x y \u{3000}")), chars_of("x y"));
    assert_eq!(trim_chars(&chars_of("   ")), chars_of(""));
}

#[test]
fn sanitize_keeps_letters_digits_space_dash_underscore() {
    assert_eq!(sanitize_chars(&chars_of("a/b:c é-1_ ?")), chars_of("a_b_c é-1_ _"));
    let once = sanitize_chars(&chars_of("x<>y"));
    assert_eq!(sanitize_chars(&once), once);
}

#[test]
fn title_is_first_line_trimmed() {
    assert_eq!(checked_note_title("  My Idea  \r\nrest"), Some("My Idea".to_string()));
    assert_eq!(checked_note_title(""), Some("Untitled".to_string()));
    assert_eq!(checked_note_title("\nsecond"), Some(String::new()));
    assert_eq!(checked_note_title("ends with cr\r"), Some("ends with cr_".to_string()));
    assert_eq!(checked_note_title("Plain title"), Some("Plain title".to_string()));
}

#[test]
fn long_titles_are_cut_at_80_bytes() {
    let long = "a".repeat(100);
    assert_eq!(checked_note_title(&long), Some("a".repeat(80)));
    let spaced = format!("{}  {}", "b".repeat(79), "c".repeat(10));
    assert_eq!(checked_note_title(&spaced), Some("b".repeat(79)));
    let wide = format!("{}{}", "a".repeat(80), "éé");
    assert_eq!(checked_note_title(&wide), Some("a".repeat(80)));
}

#[test]
fn cut_inside_a_character_is_refused() {
    let split = format!("{}{}", "a".repeat(79), "é".repeat(5));
    assert_eq!(checked_note_title(&split), None);
    assert!(plan_send(&config("/vault"), true, "new-note", &split).is_none());
    // Without a usable vault the title is never computed.
    assert!(matches!(plan_send(&config("/vault"), false, "new-note", &split), Some(SendPlan::Fail { .. })));
}

#[test]
fn empty_title_falls_back_to_the_time() {
    match plan_send_at(&config("/v"), true, "new-note", "???", "", "", "Note 2024-01-01 000000") {
        SendPlan::CreateNote { title, .. } => assert_eq!(title, "___"),
        _ => panic!("expected a new note"),
    }
    match plan_send_at(&config("/v"), true, "new-note", "  \nbody", "", "", "Note 2024-01-01 000000") {
        SendPlan::CreateNote { title, first_choice, .. } => {
            assert_eq!(title, "Note 2024-01-01 000000");
            assert_eq!(first_choice.parts, vec!["Note 2024-01-01 000000.md".to_string()]);
        }
        _ => panic!("expected a new note"),
    }
    match plan_send(&config("/v"), true, "new-note", "\n").unwrap() {
        SendPlan::CreateNote { title, .. } => {
            assert!(title.starts_with("Note "));
            assert_eq!(title.len(), "Note 2024-01-01 000000".len());
            assert!(title.chars().all(|c| c.is_ascii_alphanumeric() || c == ' ' || c == '-'));
            assert!(title.ends_with(|c: char| c.is_ascii_digit()));
        }
        _ => panic!("expected a new note"),
    }
}

#[test]
fn unknown_target_fails() {
    match plan_send(&config("/v"), true, "calendar", "x").unwrap() {
        SendPlan::Fail { error } => assert_eq!(error, "Unknown target: calendar"),
        _ => panic!("expected a failure"),
    }
    let resp = send_response(Err("boom".to_string()));
    assert!(!resp.success);
    assert_eq!(resp.error, Some("boom".to_string()));
}

#[test]
fn exact_plan_for_the_inbox() {
    match plan_send_at(&config("/v"), true, "inbox", "hi", "2024-05-06 07:08", "", "") {
        SendPlan::Append { note, entry } => {
            assert_eq!(note.parts, vec!["Inbox.md".to_string()]);
            assert_eq!(entry, "\n---\n*2024-05-06 07:08*\nhi\n");
        }
        _ => panic!("expected an append"),
    }
}

#[test]
fn taken_name_gets_a_time_suffix() {
    let p = taken_note_path_at("/v", "Idea", "123456");
    assert_eq!(p.base, "/v");
    assert_eq!(p.parts, vec!["Idea 123456.md".to_string()]);
    let q = taken_note_path("/v", "Idea");
    assert_ne!(q.parts, vec!["Idea.md".to_string()]);
    assert!(q.parts[0].starts_with("Idea "));
}

#[test]
fn targets_describe_the_inbox() {
    let mut c = config("/v");
    c.inbox_note = "Captures.md".to_string();
    let t = targets_response(&c, true);
    assert_eq!(t[1].description, "Append to Captures.md");
    assert_eq!(t[0].formats, vec!["text".to_string()]);
    assert!(targets_response(&config(""), true).is_empty());
}

#[test]
fn info_has_the_link() {
    let i = info_response("9.9.9");
    assert_eq!(i.version, "9.9.9");
    assert_eq!(i.link.as_deref(), Some("https://github.com/it-atelier-gn/clipygo-plugin-obsidian"));
}

#[test]
fn update_twice_equals_once_and_empty_update_keeps() {
    let mut a = config("/v");
    let upd = || ConfigUpdate {
        vault_path: Some("/w".to_string()),
        daily_notes_folder: None,
        daily_notes_format: None,
        inbox_note: Some("In.md".to_string()),
        append_template: None,
    };
    a.apply_update(upd());
    let mut b = a.duplicate();
    b.apply_update(upd());
    assert_eq!(a.vault_path, b.vault_path);
    assert_eq!(a.inbox_note, b.inbox_note);
    assert_eq!(b.vault_path, "/w");
    assert_eq!(b.daily_notes_folder, "Daily Notes");
    let mut c = b.duplicate();
    c.apply_update(no_update());
    assert_eq!(c.vault_path, b.vault_path);
    assert_eq!(c.inbox_note, b.inbox_note);
}

#[test]
fn set_config_updates_the_settings_in_use() {
    let mut cache = None;
    let values: serde_json::Value = serde_json::from_str(r#"{"inbox_note": "Captures.md"}"#).unwrap();
    let saved = set_config(&mut cache, config_update_from_value(values), || config("/loaded"));
    assert_eq!(saved.inbox_note, "Captures.md");
    assert_eq!(saved.vault_path, "/loaded");
    let now = get_config(&mut cache, || panic!("already loaded"));
    assert_eq!(now.inbox_note, "Captures.md");
    assert_eq!(now.daily_notes_folder, "Daily Notes");
}

#[test]
fn get_config_loads_once() {
    let mut cache = None;
    let first = get_config(&mut cache, || config("/loaded"));
    assert_eq!(first.vault_path, "/loaded");
    let second = get_config(&mut cache, || panic!("loaded twice"));
    assert_eq!(second.vault_path, "/loaded");
}

#[test]
fn load_config_prefers_saved_settings() {
    let saved = load_config(Some(config("/saved")), || panic!("no detection needed"));
    assert_eq!(saved.vault_path, "/saved");
    let detected = load_config(None, || Some("/found".to_string()));
    assert_eq!(detected.vault_path, "/found");
    assert_eq!(detected.inbox_note, "Inbox.md");
    let none = load_config(None, || None);
    assert_eq!(none.vault_path, "");
}

#[test]
fn config_file_path_is_cached() {
    let mut cache = None;
    let p = config_file_path(&mut cache, || Some("/home/u/.config".to_string())).unwrap();
    assert_eq!(p.base, "/home/u/.config");
    assert_eq!(p.parts, vec!["clipygo-plugin-obsidian".to_string(), "config.json".to_string()]);
    let q = config_file_path(&mut cache, || panic!("asked twice")).unwrap();
    assert_eq!(q.base, "/home/u/.config");
    let mut empty = None;
    assert!(config_file_path(&mut empty, || None).is_none());
    assert!(empty.is_none());
}

#[test]
fn obsidian_json_location_per_os() {
    let mac = obsidian_json_path(HostOs::MacOs, Some("/c".to_string()), Some("/h".to_string())).unwrap();
    assert_eq!(mac.base, "/h");
    assert_eq!(mac.parts.len(), 4);
    assert_eq!(mac.parts[1], "Application Support");
    let other = obsidian_json_path(HostOs::Windows, Some("/c".to_string()), None).unwrap();
    assert_eq!(other.parts, vec!["obsidian".to_string(), "obsidian.json".to_string()]);
    assert!(obsidian_json_path(HostOs::MacOs, Some("/c".to_string()), None).is_none());
}

#[test]
fn first_vault_with_a_path_wins() {
    let text = r#"{"vaults": {"b": {"path": "/b"}, "a": {"open": true}, "c": {"path": "/c"}}}"#;
    // serde_json's map lists the vaults by id: "a" has no path, "b" comes next.
    assert_eq!(vault_from_obsidian_json(text), Some("/b".to_string()));
    assert_eq!(vault_from_obsidian_json(r#"{"vaults": []}"#), None);
    assert_eq!(vault_from_obsidian_json(r#"{"vaults": {"x": {"path": 3}}}"#), None);
    assert_eq!(vault_from_obsidian_json("not json"), None);
}

#[test]
fn vault_from_a_built_document() {
    let vault = |path: Option<&str>| {
        let members = match path {
            Some(p) => vec![("path".to_string(), JsonValue::Text(p.to_string()))],
            None => vec![],
        };
        JsonValue::Object(members)
    };
    let doc = JsonValue::Object(vec![(
        "vaults".to_string(),
        JsonValue::Object(vec![
            ("1".to_string(), vault(None)),
            ("2".to_string(), JsonValue::Null),
            ("3".to_string(), vault(Some("/three"))),
        ]),
    )]);
    assert_eq!(vault_from_document(&doc), Some("/three".to_string()));
    assert_eq!(vault_from_document(&JsonValue::Null), None);
}

#[test]
fn set_config_values_must_be_strings() {
    let values: serde_json::Value = serde_json::from_str(
        r#"{"vault_path": 5, "inbox_note": "Captures.md", "append_template": null, "other": "x"}"#,
    )
    .unwrap();
    let update = config_update_from_value(values);
    assert_eq!(update.vault_path, None);
    assert_eq!(update.inbox_note, Some("Captures.md".to_string()));
    assert_eq!(update.append_template, None);
    assert_eq!(update.daily_notes_folder, None);
    let doc = JsonValue::Object(vec![("daily_notes_format".to_string(), JsonValue::Text("%d".to_string()))]);
    let update = config_update_from_document(&doc);
    assert_eq!(update.daily_notes_format, Some("%d".to_string()));
    assert_eq!(config_update_from_document(&JsonValue::Bool(true)).inbox_note, None);
}

#[test]
fn name_chars_follow_the_alphanumeric_answer() {
    assert_eq!(name_char_for('x', true), 'x');
    assert_eq!(name_char_for('/', false), '_');
    assert_eq!(name_char_for(' ', false), ' ');
    assert_eq!(name_char_for('-', false), '-');
    assert_eq!(name_char_for('.', false), '_');
}

#[test]
fn new_note_location_avoids_a_taken_name() {
    let first = new_note_location("/v", "Idea", path1("/v", "Idea.md"), false);
    assert_eq!(first.parts, vec!["Idea.md".to_string()]);
    let other = new_note_location("/v", "Idea", path1("/v", "Idea.md"), true);
    assert!(other.parts[0].starts_with("Idea "));
    assert!(other.parts[0].ends_with(".md"));
    assert_eq!(other.parts[0].len(), "Idea 123456.md".len());
}

#[test]
fn titles_hold_no_path_characters() {
    let t = checked_note_title("../etc/passwd: <x>?*|\\\"").unwrap();
    assert!(!t.contains(|c: char| "/\\.:<>?*|\"".contains(c)));
    assert_eq!(t, "___etc_passwd_ _x______");
}

#[test]
fn daily_format_chrono_renders_gives_a_path() {
    let mut c = config("/vault");
    c.daily_notes_format = "%A".to_string();
    let p = daily_note_path(&c, true).unwrap().unwrap();
    assert_eq!(p.parts[1], format!("{}.md", chrono::Local::now().format("%A")));
    assert!(plan_send(&c, true, "daily-note", "x").is_some());
}

#[test]
fn same_text_compares_characters() {
    assert!(same_text("inbox", "inbox"));
    assert!(!same_text("inbox", "Inbox"));
}
