use codex_voice::failure::FailureKind;
use codex_voice::settings::{
    extension_is_active, fallback_shortcut_action, gsettings_result, gsettings_schema_path,
    normalize_accelerator, normalize_language, parse_gvariant_string,
    parse_gvariant_string_array, plan_settings_set, transcriber_language_args, AfterWrite,
    Settings, ShortcutAction, DEFAULT_KEYBINDING, SCHEMA,
};

#[test]
fn normalizes_languages_and_legacy_empty_values() {
    assert_eq!(normalize_language(""), Some("auto".into()));
    assert_eq!(normalize_language("EN-US"), Some("en-us".into()));
    assert_eq!(normalize_language("en_US"), None);
}

#[test]
fn validates_accelerators() {
    assert_eq!(
        normalize_accelerator("<Ctrl><Super>space"),
        Some("<Control><Super>space".into())
    );
    assert_eq!(normalize_accelerator("a"), None);
    assert_eq!(normalize_accelerator("F12"), Some("F12".into()));
}

#[test]
fn effective_language_and_asr_arguments_agree() {
    let settings = Settings {
        enabled: true,
        show_tray_icon: true,
        keybinding: DEFAULT_KEYBINDING.into(),
        language: "auto".into(),
        language_override: None,
    };
    assert_eq!(settings.effective_language(), "auto");
    assert!(transcriber_language_args(&settings.effective_language()).is_empty());
    assert_eq!(transcriber_language_args("es"), vec!["--language", "es"]);
}

#[test]
fn language_normalisation_edges() {
    assert_eq!(normalize_language("  Auto "), Some("auto".into()));
    assert_eq!(normalize_language("zh-Hant-TW"), Some("zh-hant-tw".into()));
    assert_eq!(normalize_language("en--us"), None);
    assert_eq!(normalize_language("abcdefghi"), None);
    assert_eq!(normalize_language("abcdefgh"), Some("abcdefgh".into()));
    let long = "aaaaaaaa-bbbbbbbb-cccccccc-dddddddd";
    assert_eq!(long.len(), 35);
    assert_eq!(normalize_language(long), Some(long.into()));
    assert_eq!(normalize_language("aaaaaaaa-bbbbbbbb-cccccccc-dddddddd-e"), None);
}

#[test]
fn accelerator_normalisation_edges() {
    assert_eq!(
        normalize_accelerator("<Primary><Shift>k"),
        Some("<Control><Shift>k".into())
    );
    assert_eq!(
        normalize_accelerator("<Alt><Alt>1"),
        Some("<Alt>1".into())
    );
    assert_eq!(normalize_accelerator(" <Super> "), None);
    assert_eq!(
        normalize_accelerator(" <Super>space "),
        Some("<Super>space".into())
    );
    assert_eq!(normalize_accelerator("F36"), None);
    assert_eq!(normalize_accelerator("F0"), None);
    assert_eq!(normalize_accelerator("F35"), Some("F35".into()));
    assert_eq!(normalize_accelerator("<Shift>a"), None);
    assert_eq!(normalize_accelerator(""), None);
    assert_eq!(normalize_accelerator("<Control>ab"), None);
}

#[test]
fn reads_gvariant_values() {
    assert_eq!(parse_gvariant_string(" 'en' "), Some("en".into()));
    assert_eq!(parse_gvariant_string("'it\\'s'"), Some("it's".into()));
    assert_eq!(parse_gvariant_string("en"), None);
    assert_eq!(
        parse_gvariant_string_array("['<Control><Super>space']"),
        vec!["<Control><Super>space".to_string()]
    );
    assert_eq!(
        parse_gvariant_string_array("['a', 'b']"),
        vec!["a".to_string(), "b".to_string()]
    );
    assert!(parse_gvariant_string_array("@as []").is_empty());
}

#[test]
fn settings_come_from_gsettings_with_defaults() {
    let settings = Settings::from_gsettings(
        Some("false".into()),
        None,
        Some("['<Alt>x']".into()),
        Some("'EN'".into()),
        Some("de".into()),
    );
    assert!(!settings.enabled);
    assert!(settings.show_tray_icon);
    assert_eq!(settings.keybinding, "<Alt>x");
    assert_eq!(settings.language, "en");
    assert_eq!(settings.language_override, Some("de".into()));
    assert_eq!(settings.effective_language(), "de");
    let document = settings.document();
    assert_eq!(document.schema_version, 1);
    assert_eq!(document.overrides.language, Some("de".into()));

    let defaults = Settings::from_gsettings(None, None, None, Some("'bad_tag'".into()), None);
    assert!(defaults.enabled);
    assert_eq!(defaults.keybinding, DEFAULT_KEYBINDING);
    assert_eq!(defaults.language, "auto");
    assert_eq!(defaults.language_override, None);
}

#[test]
fn plans_settings_writes() {
    let write = plan_settings_set("enabled", "false").unwrap();
    assert_eq!(write.key, "enabled");
    assert_eq!(write.value, "false");
    assert_eq!(write.after, AfterWrite::SyncShortcut(false));
    let write = plan_settings_set("show-tray-icon", "true").unwrap();
    assert_eq!(write.after, AfterWrite::Nothing);
    let write = plan_settings_set("keybinding", "<Ctrl>'").unwrap_err();
    assert_eq!(write.message, "invalid GNOME accelerator");
    let write = plan_settings_set("keybinding", "<Ctrl><Super>space").unwrap();
    assert_eq!(write.value, "['<Control><Super>space']");
    assert_eq!(write.after, AfterWrite::SyncShortcutIfEnabled);
    let write = plan_settings_set("language", "PT-BR").unwrap();
    assert_eq!(write.value, "pt-br");
    let error = plan_settings_set("enabled", "yes").unwrap_err();
    assert_eq!(error.kind, FailureKind::InvalidInput);
    assert_eq!(error.message, "boolean setting must be true or false");
    let error = plan_settings_set("language", "en_US").unwrap_err();
    assert_eq!(error.message, "language must be auto or a BCP-47-like code");
    let error = plan_settings_set("volume", "3").unwrap_err();
    assert_eq!(error.message, "unknown settings key");
}

#[test]
fn gsettings_outcomes() {
    assert_eq!(gsettings_result(true, " true\n", "").unwrap(), "true");
    let error = gsettings_result(false, "", "  No such schema\n").unwrap_err();
    assert_eq!(error.message, "No such schema");
    let error = gsettings_result(false, "", " ").unwrap_err();
    assert_eq!(error.message, "GSettings operation failed");
    assert_eq!(SCHEMA, "io.github.andy_spike.CodexVoice");
}

#[test]
fn fallback_shortcut_only_without_the_extension() {
    assert_eq!(fallback_shortcut_action(true, false), ShortcutAction::Install);
    assert_eq!(fallback_shortcut_action(true, true), ShortcutAction::Remove);
    assert_eq!(fallback_shortcut_action(false, false), ShortcutAction::Remove);
    assert_eq!(ShortcutAction::Install.name(), "install");
    assert_eq!(
        ShortcutAction::Remove.failure().message,
        "could not remove the fallback global shortcut"
    );
    assert!(extension_is_active("Name: Codex Voice\n  state: active  \n"));
    assert!(!extension_is_active("State: INACTIVE\n"));
}

#[test]
fn schema_search_path_keeps_existing_directories() {
    let dirs = vec!["/a/schemas".to_string(), "/usr/share/glib-2.0/schemas".to_string()];
    assert_eq!(
        gsettings_schema_path(&dirs, Some("/old".into())),
        Some("/a/schemas:/usr/share/glib-2.0/schemas:/old".into())
    );
    assert_eq!(
        gsettings_schema_path(&dirs, None),
        Some("/a/schemas:/usr/share/glib-2.0/schemas".into())
    );
    assert_eq!(gsettings_schema_path(&Vec::new(), Some("/old".into())), None);
}

#[test]
fn saved_settings_read_back_as_written() {
    let language = plan_settings_set("language", " PT-BR ").unwrap();
    let loaded = Settings::from_gsettings(None, None, None, Some(format!("'{}'", language.value)), None);
    assert_eq!(loaded.language, "pt-br");
    let keybinding = plan_settings_set("keybinding", "<Primary><Alt>F5").unwrap();
    assert_eq!(keybinding.value, "['<Control><Alt>F5']");
    let loaded = Settings::from_gsettings(None, None, Some(keybinding.value.clone()), None, None);
    assert_eq!(loaded.keybinding, "<Control><Alt>F5");
    let again = normalize_language("EN-gb").unwrap();
    assert_eq!(normalize_language(&again), Some(again.clone()));
}

#[test]
fn normalised_shortcuts_are_canonical_and_stable() {
    for raw in ["<Ctrl><Alt><Shift>F5", "<Primary><Primary>space", " <Super>7 ", "F+9", "<Alt><Control>x"] {
        if let Some(shortcut) = normalize_accelerator(raw) {
            assert_eq!(normalize_accelerator(&shortcut), Some(shortcut.clone()));
        }
    }
    assert_eq!(
        normalize_accelerator("<Ctrl><Alt><Shift>F5"),
        Some("<Control><Alt><Shift>F5".into())
    );
    assert_eq!(normalize_accelerator("<Primary><Primary>space"), Some("<Control>space".into()));
    assert_eq!(normalize_accelerator("F+9"), Some("F+9".into()));
    assert_eq!(normalize_accelerator("<Alt><Control>x"), None);
}
