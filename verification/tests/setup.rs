use gtasks::config::{config_dir, secret_path, tasks_scopes, token_path, ConfigError};
use gtasks::json::{check_secret_json, load_application_secret, records_json, task_record, task_records, SecretError};
use gtasks::task::TaskFields;

#[test]
fn config_directory_and_files() {
    let dir = config_dir(Some("/home/u/.config")).unwrap();
    assert_eq!(dir, "/home/u/.config/gtasks-cli");
    assert_eq!(config_dir(Some("/cfg/")).unwrap(), "/cfg/gtasks-cli");
    assert_eq!(config_dir(None), Err(ConfigError::NoHome));
    assert_eq!(ConfigError::NoHome.message(), "ホームディレクトリが見つかりません");
    assert_eq!(token_path(&dir), "/home/u/.config/gtasks-cli/token_cache.json");
    assert_eq!(secret_path(&dir), "/home/u/.config/gtasks-cli/client_secret.json");
}

#[test]
fn config_paths_match_std_join() {
    for base in ["/a/b", "/a/b/", "rel", ""] {
        let expected = std::path::Path::new(base).join("gtasks-cli");
        assert_eq!(config_dir(Some(base)).unwrap(), expected.to_str().unwrap());
    }
}

#[test]
fn scopes() {
    assert_eq!(
        tasks_scopes(),
        vec!["https://www.googleapis.com/auth/tasks", "https://www.googleapis.com/auth/tasks.readonly"]
    );
}

#[test]
fn secret_must_be_json() {
    assert!(check_secret_json("{\"installed\": {}}").is_ok());
    assert!(matches!(check_secret_json("client_id=abc"), Err(SecretError::NotJson(_))));
}

#[test]
fn installed_secret_is_read() {
    let data = r#"{"installed":{"client_id":"cid","client_secret":"xyz","token_uri":"https://oauth2.googleapis.com/token","auth_uri":"https://accounts.google.com/o/oauth2/auth","redirect_uris":["http://localhost"]}}"#;
    let secret = load_application_secret(data).unwrap();
    assert_eq!(secret.client_id, "cid");
    assert_eq!(secret.redirect_uris, vec!["http://localhost".to_string()]);
}

#[test]
fn secret_without_installed_part_is_malformed() {
    assert!(matches!(load_application_secret("{\"web\": {}}"), Err(SecretError::Malformed(_))));
    assert!(matches!(load_application_secret("not json"), Err(SecretError::NotJson(_))));
}

fn sample() -> TaskFields {
    TaskFields {
        id: Some("t1".to_string()),
        title: Some("Buy \"milk\"".to_string()),
        status: Some("needsAction".to_string()),
        due: None,
        notes: None,
        completed: None,
    }
}

#[test]
fn task_record_members() {
    let r = task_record(&sample(), None);
    let names: Vec<&str> = r.iter().map(|m| m.0.as_str()).collect();
    assert_eq!(names, vec!["id", "title", "status", "due", "notes", "completed"]);
    let r = task_record(&sample(), Some("Work"));
    assert_eq!(r[6], ("list_name".to_string(), Some("Work".to_string())));
}

#[test]
fn json_output_text() {
    let records = task_records(&vec![sample()], Some("Work"));
    let text = records_json(&records).unwrap();
    let expected = "[\n  {\n    \"completed\": null,\n    \"due\": null,\n    \"id\": \"t1\",\n    \"list_name\": \"Work\",\n    \"notes\": null,\n    \"status\": \"needsAction\",\n    \"title\": \"Buy \\\"milk\\\"\"\n  }\n]";
    assert_eq!(text, expected);
    assert_eq!(records_json(&vec![]).unwrap(), "[]");
}

#[test]
fn installed_secret_is_read_even_beside_web() {
    let data = r#"{"web":{"client_id":"web-id","client_secret":"w","token_uri":"t","auth_uri":"a","redirect_uris":[]},"installed":{"client_id":"inst-id","client_secret":"i","token_uri":"t2","auth_uri":"a2","redirect_uris":["http://localhost"],"project_id":"p"}}"#;
    let secret = load_application_secret(data).unwrap();
    assert_eq!(secret.client_id, "inst-id");
    assert_eq!(secret.client_secret, "i");
    assert_eq!(secret.token_uri, "t2");
    assert_eq!(secret.project_id.as_deref(), Some("p"));
    assert_eq!(secret.client_email, None);
}
