use moldy::config::{get_template_path, inspect_template, require_config_file, template_found, Config};
use moldy::error::MoldyError;
use moldy::templates::TemplateMap;
use std::path::PathBuf;
use tempfile::TempDir;

#[test]
fn test_get_template_path_valid() {
    let temp_dir = TempDir::new().unwrap();
    let template = tempfile::Builder::new()
        .prefix("my-template")
        .rand_bytes(0)
        .tempdir_in(temp_dir.path())
        .unwrap();
    let template_dir = template.path().to_path_buf();

    let mut config = Config::default();
    config.templates.insert(
        "mytemplate".to_string(),
        template_dir.to_string_lossy().to_string(),
    );

    let (key, path) = get_template_path(&config, "mytemplate").unwrap();
    assert_eq!(key, "mytemplate");
    assert_eq!(PathBuf::from(path), template_dir);
}

#[test]
fn test_get_template_path_missing_key() {
    let config = Config::default();
    let result = get_template_path(&config, "nonexistent");
    assert!(matches!(result, Err(MoldyError::TemplateKeyMissing(_, _))));
}

#[test]
fn test_get_template_path_missing_source() {
    let mut config = Config::default();
    config
        .templates
        .insert("bad".to_string(), "/nonexistent/path".to_string());

    let result = get_template_path(&config, "bad");
    assert!(matches!(result, Err(MoldyError::TemplatePathMissing(_))));
}

#[test]
fn missing_key_lists_every_key_in_order() {
    let mut config = Config::default();
    config.templates.insert("react".to_string(), "/t/react".to_string());
    config.templates.insert("api".to_string(), "/t/api".to_string());
    config.templates.insert("cli".to_string(), "/t/cli".to_string());
    match get_template_path(&config, "vue") {
        Err(MoldyError::TemplateKeyMissing(key, available)) => {
            assert_eq!(key, "vue");
            assert_eq!(available, vec!["react".to_string(), "api".to_string(), "cli".to_string()]);
        }
        other => panic!("unexpected result: {:?}", other),
    }
}

#[test]
fn missing_source_names_the_path() {
    let mut config = Config::default();
    config.templates.insert("bad".to_string(), "/nonexistent/path".to_string());
    match get_template_path(&config, "bad") {
        Err(MoldyError::TemplatePathMissing(path)) => assert_eq!(path, "/nonexistent/path"),
        other => panic!("unexpected result: {:?}", other),
    }
}

#[test]
fn template_found_follows_existence() {
    match template_found("api", "/t/api", true) {
        Ok((k, p)) => {
            assert_eq!(k, "api");
            assert_eq!(p, "/t/api");
        }
        other => panic!("unexpected result: {:?}", other),
    }
    match template_found("api", "/t/api", false) {
        Err(MoldyError::TemplatePathMissing(p)) => assert_eq!(p, "/t/api"),
        other => panic!("unexpected result: {:?}", other),
    }
}

#[test]
fn insert_then_get_gives_back_the_value() {
    let mut map = TemplateMap::new();
    assert!(map.is_empty());
    assert_eq!(map.insert("a".to_string(), "/x".to_string()), None);
    assert_eq!(map.insert("b".to_string(), "/y".to_string()), None);
    assert_eq!(map.get("a"), Some(&"/x".to_string()));
    assert_eq!(map.insert("a".to_string(), "/z".to_string()), Some("/x".to_string()));
    assert_eq!(map.get("a"), Some(&"/z".to_string()));
    assert_eq!(map.get("b"), Some(&"/y".to_string()));
    assert_eq!(map.get("c"), None);
    assert_eq!(map.len(), 2);
    assert!(map.contains_key("b"));
    assert!(!map.contains_key("c"));
    assert_eq!(map.keys(), vec!["a".to_string(), "b".to_string()]);
}

#[test]
fn missing_config_file_is_reported_with_its_path() {
    assert_eq!(require_config_file("/h/c.toml".to_string(), true).unwrap(), "/h/c.toml");
    match require_config_file("/h/c.toml".to_string(), false) {
        Err(MoldyError::ConfigMissing(p)) => assert_eq!(p, "/h/c.toml"),
        other => panic!("unexpected result: {:?}", other),
    }
}

#[test]
fn inspect_template_reports_the_disk_answer() {
    let temp_dir = TempDir::new().unwrap();
    let mut config = Config::default();
    config.templates.insert("here".to_string(), temp_dir.path().to_str().unwrap().to_string());
    config.templates.insert("gone".to_string(), "/nonexistent/path".to_string());
    let (res, seen) = inspect_template(&config, "here");
    assert_eq!(seen, Some(true));
    assert!(res.is_ok());
    let (res, seen) = inspect_template(&config, "gone");
    assert_eq!(seen, Some(false));
    assert!(matches!(res, Err(MoldyError::TemplatePathMissing(_))));
    let (res, seen) = inspect_template(&config, "other");
    assert_eq!(seen, None);
    assert!(matches!(res, Err(MoldyError::TemplateKeyMissing(_, _))));
}
