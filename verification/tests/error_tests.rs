use moldy::error::{failure_error, IoStep, MoldyError};

#[test]
fn test_config_missing_error() {
    let err = MoldyError::ConfigMissing("/test/path".to_string());
    let msg = err.to_string();
    assert!(msg.contains("Config file not found"));
    assert!(msg.contains("/test/path"));
}

#[test]
fn test_template_key_missing_error() {
    let err = MoldyError::TemplateKeyMissing("react".to_string(), vec!["api".to_string(), "cli".to_string()]);
    let msg = err.to_string();
    assert!(msg.contains("Template 'react' not found"));
    assert!(msg.contains("api, cli"));
}

#[test]
fn test_parent_dir_missing_error() {
    let err = MoldyError::ParentDirMissing("/nonexistent/parent".to_string());
    let msg = err.to_string();
    assert!(msg.contains("Parent directory"));
    assert!(msg.contains("/nonexistent/parent"));
}

#[test]
fn test_usage_error() {
    let err = MoldyError::Usage("No arguments provided".to_string());
    let msg = err.to_string();
    assert!(msg.contains("Usage:"));
    assert!(msg.contains("No arguments provided"));
}

#[test]
fn every_message_in_full() {
    assert_eq!(
        MoldyError::ConfigMissing("/h/.config/moldy/config.toml".to_string()).to_string(),
        "Config file not found at '/h/.config/moldy/config.toml'\nCreate one with: mkdir -p ~/.config/moldy && touch ~/.config/moldy/config.toml"
    );
    assert_eq!(MoldyError::ConfigParse("bad".to_string()).to_string(), "Failed to parse config: bad");
    assert_eq!(
        MoldyError::TemplateKeyMissing("x".to_string(), vec![]).to_string(),
        "Template 'x' not found in config"
    );
    assert_eq!(
        MoldyError::TemplateKeyMissing("x".to_string(), vec!["a".to_string()]).to_string(),
        "Template 'x' not found in config\nAvailable templates: a"
    );
    assert_eq!(
        MoldyError::TemplateKeyMissing(
            "x".to_string(),
            vec!["a".to_string(), "b".to_string(), "c".to_string()]
        )
        .to_string(),
        "Template 'x' not found in config\nAvailable templates: a, b, c"
    );
    assert_eq!(
        MoldyError::TemplatePathMissing("/t".to_string()).to_string(),
        "Template source path does not exist: '/t'"
    );
    assert_eq!(
        MoldyError::ParentDirMissing("/p".to_string()).to_string(),
        "Parent directory '/p' does not exist"
    );
    assert_eq!(MoldyError::CopyError("c".to_string()).to_string(), "Copy error: c");
    assert_eq!(MoldyError::PermissionDenied("d".to_string()).to_string(), "Permission denied: d");
    assert_eq!(
        MoldyError::Usage("u".to_string()).to_string(),
        "Usage: moldy <TARGET_DIRECTORY> <PATH_IN_CONFIG>\n\nu"
    );
}

fn text_of(e: &MoldyError) -> (&'static str, String) {
    match e {
        MoldyError::ConfigParse(m) => ("parse", m.clone()),
        MoldyError::CopyError(m) => ("copy", m.clone()),
        MoldyError::PermissionDenied(m) => ("denied", m.clone()),
        other => panic!("unexpected error: {:?}", other),
    }
}

#[test]
fn every_failed_step_maps_to_its_error() {
    let cases = [
        (IoStep::ReadConfig, "parse", "Failed to read config file: boom"),
        (IoStep::ParseConfig, "parse", "TOML parse error: boom"),
        (IoStep::ReadEntry, "copy", "Failed to read directory entry: boom"),
        (IoStep::RelativePath, "copy", "Failed to get relative path: boom"),
        (IoStep::ReadSymlink, "copy", "Failed to read symlink: boom"),
        (IoStep::CreateSymlink, "denied", "Failed to create symlink: boom"),
        (IoStep::CreateDirectory, "denied", "Failed to create directory: boom"),
        (IoStep::CopyFile, "denied", "Failed to copy file: boom"),
        (IoStep::FlushPrompt, "copy", "Failed to flush stdout: boom"),
        (IoStep::ReadAnswer, "copy", "Failed to read input: boom"),
    ];
    for (step, kind, text) in cases {
        let (k, m) = text_of(&failure_error(step, "boom"));
        assert_eq!(k, kind);
        assert_eq!(m, text);
    }
}
