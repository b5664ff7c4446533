use clipygo_plugin_obsidian::config::{get_config, ObsidianConfig};
use clipygo_plugin_obsidian::json::{config_update_from_value, vault_from_obsidian_json};
use clipygo_plugin_obsidian::paths::{obsidian_json_path, FsPath, HostOs};
use clipygo_plugin_obsidian::protocol::{
    config_schema_response, info_response, plan_send, send_response, targets_response, SendPlan,
};

const VAULT: &str = "/tmp/clipygo-obsidian-test-vault";

fn test_config(vault: &str) -> ObsidianConfig {
    ObsidianConfig {
        vault_path: vault.to_string(),
        daily_notes_folder: "Daily Notes".to_string(),
        daily_notes_format: "%Y-%m-%d".to_string(),
        inbox_note: "Inbox.md".to_string(),
        append_template: "\n---\n*{timestamp}*\n{content}\n".to_string(),
    }
}

fn parts(p: &FsPath) -> Vec<&str> {
    p.parts.iter().map(|s| s.as_str()).collect()
}

#[test]
fn get_info_returns_name_and_version() {
    let resp = info_response("0.1.0");
    assert_eq!(resp.name, "Obsidian");
    assert!(!resp.version.is_empty());
}

#[test]
fn get_targets_empty_when_no_vault() {
    let config = ObsidianConfig::with_vault_path("/nonexistent/path".to_string());
    let is_dir = std::path::Path::new(&config.vault_path).is_dir();
    let targets = targets_response(&config, is_dir);
    assert!(targets.is_empty());
}

#[test]
fn get_targets_returns_three_when_vault_exists() {
    let config = test_config(VAULT);
    let targets = targets_response(&config, true);
    assert_eq!(targets.len(), 3);
    assert_eq!(targets[0].id, "daily-note");
    assert_eq!(targets[1].id, "inbox");
    assert_eq!(targets[2].id, "new-note");
}

#[test]
fn send_to_daily_note_creates_file() {
    let config = test_config(VAULT);
    let plan = plan_send(&config, true, "daily-note", "test content").unwrap();
    let today = chrono::Local::now().format("%Y-%m-%d").to_string();
    match plan {
        SendPlan::Append { note, entry } => {
            assert_eq!(note.base, VAULT);
            assert_eq!(parts(&note), vec!["Daily Notes", format!("{today}.md").as_str()]);
            assert!(entry.contains("test content"));
        }
        _ => panic!("expected an append"),
    }
}

#[test]
fn send_to_inbox_appends() {
    let config = test_config(VAULT);
    let first = plan_send(&config, true, "inbox", "first").unwrap();
    let second = plan_send(&config, true, "inbox", "second").unwrap();
    let mut body = String::new();
    for plan in [first, second] {
        match plan {
            SendPlan::Append { note, entry } => {
                assert_eq!(note.base, VAULT);
                assert_eq!(parts(&note), vec!["Inbox.md"]);
                body.push_str(&entry);
            }
            _ => panic!("expected an append"),
        }
    }
    assert!(body.contains("first"));
    assert!(body.contains("second"));
}

#[test]
fn send_new_note_uses_first_line_as_filename() {
    let config = test_config(VAULT);
    let plan = plan_send(&config, true, "new-note", "My Great Idea\nSome details here").unwrap();
    match plan {
        SendPlan::CreateNote { vault, title, first_choice, content } => {
            assert_eq!(vault, VAULT);
            assert_eq!(title, "My Great Idea");
            assert_eq!(parts(&first_choice), vec!["My Great Idea.md"]);
            assert!(content.contains("Some details here"));
        }
        _ => panic!("expected a new note"),
    }
    let resp = send_response(Ok(()));
    assert_eq!(resp.success, true);
}

#[test]
fn send_new_note_sanitizes_filename() {
    let config = test_config(VAULT);
    let plan = plan_send(&config, true, "new-note", "What/about:these<chars>?").unwrap();
    match plan {
        SendPlan::CreateNote { first_choice, .. } => {
            let names = parts(&first_choice);
            assert_eq!(names.len(), 1);
            let name = names[0];
            assert!(!name.contains('/'));
            assert!(!name.contains(':'));
            assert!(!name.contains('<'));
            assert_eq!(name, "What_about_these_chars__.md");
        }
        _ => panic!("expected a new note"),
    }
}

#[test]
fn send_fails_when_vault_missing() {
    let config = ObsidianConfig::with_vault_path("/nonexistent/vault".to_string());
    let is_dir = std::path::Path::new(&config.vault_path).is_dir();
    let plan = plan_send(&config, is_dir, "inbox", "test").unwrap();
    let outcome = match plan {
        SendPlan::Fail { error } => Err(error),
        _ => Ok(()),
    };
    let resp = send_response(outcome);
    assert_eq!(resp.success, false);
    assert!(resp.error.unwrap().contains("not found"));
}

#[test]
fn get_config_schema_returns_values() {
    let resp = config_schema_response(ObsidianConfig::with_vault_path(String::new()));
    assert_eq!(resp.properties.len(), 5);
    assert_eq!(resp.schema_type, "object");
    assert_eq!(resp.values.daily_notes_folder, "Daily Notes");
}

#[test]
fn set_config_persists_values() {
    let mut cache = Some(ObsidianConfig::with_vault_path(String::new()));
    let mut config = get_config(&mut cache, || panic!("the cache is full"));
    let values: serde_json::Value =
        serde_json::from_str(r#"{"inbox_note": "Captures.md", "daily_notes_folder": "Journal"}"#).unwrap();
    config.apply_update(config_update_from_value(values));
    cache = Some(config);
    let resp = send_response(Ok(()));
    assert_eq!(resp.success, true);

    let config = get_config(&mut cache, || panic!("the cache is full"));
    assert_eq!(config.inbox_note, "Captures.md");
    assert_eq!(config.daily_notes_folder, "Journal");
}

#[test]
fn format_entry_substitutes_placeholders() {
    let mut config = ObsidianConfig::with_vault_path(String::new());
    config.append_template = "\n- {timestamp}: {content}\n".to_string();
    let entry = clipygo_plugin_obsidian::notes::format_entry(&config, "hello world");
    assert!(entry.contains("hello world"));
    assert!(entry.contains(&chrono::Local::now().format("%Y").to_string()));
}

#[test]
fn detect_vault_path_returns_none_when_no_obsidian() {
    let location = obsidian_json_path(HostOs::Other, None, None);
    assert!(location.is_none());
    assert_eq!(vault_from_obsidian_json(""), None);
}
