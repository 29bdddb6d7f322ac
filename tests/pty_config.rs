use pachyterm::PtyConfig;

#[test]
fn default_shell_is_bash() {
    let c = PtyConfig::from_environment(None, vec![]);
    assert_eq!(c.shell, "/bin/bash");
    assert!(c.args.is_empty());
    assert_eq!(c.working_dir, None);
    assert_eq!((c.rows, c.cols), (24, 80));
}

#[test]
fn shell_from_environment_is_used() {
    let env = vec![("TERM".to_string(), "xterm".to_string())];
    let c = PtyConfig::from_environment(Some("/bin/zsh".to_string()), env.clone());
    assert_eq!(c.shell, "/bin/zsh");
    assert_eq!(c.env, env);
}

#[test]
fn argv_starts_with_shell() {
    let mut c = PtyConfig::from_environment(Some("/bin/sh".to_string()), vec![]);
    assert_eq!(c.argv(), vec!["/bin/sh".to_string()]);
    c.args = vec!["-l".to_string(), "-i".to_string()];
    assert_eq!(c.argv(), vec!["/bin/sh".to_string(), "-l".to_string(), "-i".to_string()]);
}

#[test]
fn repeated_environment_names_keep_last_value() {
    let env = vec![
        ("A".to_string(), "1".to_string()),
        ("B".to_string(), "2".to_string()),
        ("A".to_string(), "3".to_string()),
    ];
    let c = PtyConfig::from_environment(None, env);
    assert_eq!(c.env, vec![("A".to_string(), "3".to_string()), ("B".to_string(), "2".to_string())]);
}
