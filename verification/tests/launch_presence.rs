use stremio_shell::{
    accelerators, is_desktop_kde, program_args, server_environment, watching_activity, Activity,
    ActivityKind,
};

#[test]
fn program_args_puts_program_name_first() {
    let args = program_args(
        Some("stremio".to_string()),
        vec!["--dev".to_string(), "stremio://x".to_string()],
    );
    assert_eq!(args, vec!["stremio", "--dev", "stremio://x"]);
}

#[test]
fn program_args_without_program_name() {
    assert_eq!(program_args(None, vec!["a".to_string()]), vec!["a"]);
    assert!(program_args(None, Vec::new()).is_empty());
    assert_eq!(program_args(Some("p".to_string()), Vec::new()), vec!["p"]);
}

#[test]
fn kde_detection() {
    assert!(is_desktop_kde(Some("KDE")));
    assert!(!is_desktop_kde(Some("GNOME")));
    assert!(!is_desktop_kde(Some("kde")));
    assert!(!is_desktop_kde(Some("KDE:GNOME")));
    assert!(!is_desktop_kde(None));
}

#[test]
fn server_environment_in_both_modes() {
    let dev = server_environment(true, "key");
    assert_eq!(
        dev,
        vec![
            ("NO_CORS".to_string(), "1".to_string()),
            ("SERVER_IPC_KEY".to_string(), "key".to_string())
        ]
    );
    let prod = server_environment(false, "");
    assert_eq!(prod[0], ("NO_CORS".to_string(), "0".to_string()));
    assert_eq!(prod[1], ("SERVER_IPC_KEY".to_string(), String::new()));
}

#[test]
fn accelerator_table() {
    assert_eq!(
        accelerators(),
        vec![
            ("app.quit".to_string(), "<Control>q".to_string()),
            ("app.show-preferences".to_string(), "<Control>comma".to_string())
        ]
    );
}

#[test]
fn watching_activity_with_and_without_image() {
    let p = watching_activity(Activity {
        details: "Movie".to_string(),
        state: "Playing".to_string(),
        image: Some("https://img/x.png".to_string()),
    });
    assert_eq!(p.kind, ActivityKind::Watching);
    assert_eq!(p.details, "Movie");
    assert_eq!(p.state, "Playing");
    assert_eq!(p.large_text, "Stremio");
    assert_eq!(p.large_image.as_deref(), Some("https://img/x.png"));

    let q = watching_activity(Activity { details: "d".to_string(), state: "s".to_string(), image: None });
    assert_eq!(q.large_text, "Stremio");
    assert!(q.large_image.is_none());
}
