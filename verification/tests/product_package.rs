use codex_voice::product_package::{
    command_candidates, overlay_backend, overlay_script_candidates, settings_binary_candidates,
    Layout,
};

fn layout() -> Layout {
    Layout {
        source_root: Some("/work/codex-voice".into()),
        executable_dir: Some("/opt/Codex Voice".into()),
        user_share: Some("/home/user/.local/share/codex-voice".into()),
    }
}

#[test]
fn overlay_layout_covers_installed_user_and_development_forms() {
    let candidates = layout().overlay_candidates();
    assert!(candidates.contains(&"/usr/share/codex-voice/overlay.py".to_string()));
    assert!(candidates.contains(&"/home/user/.local/share/codex-voice/overlay.py".to_string()));
    assert!(candidates.contains(&"/work/codex-voice/src/overlay.py".to_string()));
    assert!(candidates.contains(&"/opt/Codex Voice/../share/codex-voice/overlay.py".to_string()));
}

#[test]
fn schema_resources_cover_user_and_system_layouts() {
    assert_eq!(
        layout().schema_directories(),
        vec![
            "/home/user/.local/share/codex-voice/schemas".to_string(),
            "/usr/share/glib-2.0/schemas".to_string(),
        ]
    );
}

#[test]
fn overlay_candidates_come_in_priority_order() {
    assert_eq!(
        layout().overlay_candidates(),
        vec![
            "/opt/Codex Voice/../share/codex-voice/overlay.py".to_string(),
            "/opt/Codex Voice/../lib/codex-voice/overlay.py".to_string(),
            "/opt/Codex Voice/../src/overlay.py".to_string(),
            "/opt/Codex Voice/../../src/overlay.py".to_string(),
            "/work/codex-voice/src/overlay.py".to_string(),
            "/home/user/.local/share/codex-voice/overlay.py".to_string(),
            "/usr/share/codex-voice/overlay.py".to_string(),
        ]
    );
    let bare = Layout::new(None, None, None);
    assert_eq!(
        bare.overlay_candidates(),
        vec!["/usr/share/codex-voice/overlay.py".to_string()]
    );
    assert_eq!(
        bare.schema_directories(),
        vec!["/usr/share/glib-2.0/schemas".to_string()]
    );
    let with_home = Layout::new(None, None, Some("/home/u/".into()));
    assert_eq!(
        with_home.user_share,
        Some("/home/u/.local/share/codex-voice".into())
    );
    let overridden = overlay_script_candidates(Some("/custom/overlay.py".into()), &bare);
    assert_eq!(
        overridden,
        vec![
            "/custom/overlay.py".to_string(),
            "/usr/share/codex-voice/overlay.py".to_string()
        ]
    );
}

#[test]
fn settings_binary_override_stands_alone() {
    assert_eq!(
        settings_binary_candidates(Some("/x/settings".into()), Some("/home/u".into())),
        vec!["/x/settings".to_string()]
    );
    assert_eq!(
        settings_binary_candidates(None, Some("/home/u".into())),
        vec![
            "/usr/bin/codex-voice-settings".to_string(),
            "/home/u/.local/bin/codex-voice-settings".to_string()
        ]
    );
    assert!(settings_binary_candidates(None, None).is_empty());
}

#[test]
fn commands_are_searched_in_path_then_packaged_locations() {
    assert_eq!(
        command_candidates("arecord", Some("/usr/local/bin:/usr/bin".into()), None),
        vec![
            "/usr/local/bin/arecord".to_string(),
            "/usr/bin/arecord".to_string()
        ]
    );
    assert_eq!(
        command_candidates("codex-asr", Some("/bin".into()), Some("/home/u".into())),
        vec![
            "/bin/codex-asr".to_string(),
            "/usr/lib/codex-voice/codex-asr".to_string(),
            "/home/u/.cargo/bin/codex-asr".to_string()
        ]
    );
    assert_eq!(
        command_candidates("./tool", Some("/bin".into()), None),
        vec!["./tool".to_string()]
    );
    assert!(command_candidates("ydotool", None, None).is_empty());
}

#[test]
fn overlay_backend_prefers_the_explicit_setting() {
    assert_eq!(
        overlay_backend(Some("wayland".into()), Some("x11".into()), None),
        Some("wayland".into())
    );
    assert_eq!(
        overlay_backend(Some("".into()), Some("broadway".into()), None),
        Some("broadway".into())
    );
    assert_eq!(
        overlay_backend(None, None, Some(":0".into())),
        Some("x11".into())
    );
    assert_eq!(overlay_backend(None, Some("".into()), Some("".into())), None);
}
