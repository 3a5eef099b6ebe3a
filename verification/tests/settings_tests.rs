use rzem_mj_lora::settings::{
    get_config_dir, get_settings_path, resolve_config_dir, resolve_settings_path,
    settings_from_store, AnalysisMode, AppSettings, ModelVariant, SettingsError,
};

#[test]
fn test_default_settings() {
    let settings = AppSettings::default();

    assert_eq!(settings.analysis_mode, AnalysisMode::Auto);
    assert_eq!(settings.offline_model_variant, ModelVariant::Qwen2VL2B);
    assert_eq!(settings.model_cache_dir, None);
    assert_eq!(settings.auto_fallback, true);
    assert_eq!(settings.keep_model_loaded, true);
}

#[test]
fn test_config_dir_uses_namespace() {
    let dir = get_config_dir().unwrap();
    assert!(dir.ends_with("/rzem-mj-lora"));
}

#[test]
fn test_settings_path_location() {
    let path = get_settings_path().unwrap();
    assert!(path.ends_with("/rzem-mj-lora/settings.json"));
}

#[test]
fn test_resolve_config_dir_exact() {
    assert_eq!(
        resolve_config_dir(Some("/home/u/.config".to_string())),
        Ok("/home/u/.config/rzem-mj-lora".to_string())
    );
    assert_eq!(resolve_config_dir(None), Err(SettingsError::ConfigDirUnavailable));
}

#[test]
fn test_resolve_settings_path_exact() {
    assert_eq!(
        resolve_settings_path(Some("/cfg".to_string())),
        Ok("/cfg/rzem-mj-lora/settings.json".to_string())
    );
    assert_eq!(resolve_settings_path(None), Err(SettingsError::ConfigDirUnavailable));
}

#[test]
fn test_settings_from_store_decisions() {
    // A missing file means the defaults.
    let s = settings_from_store(None).unwrap();
    assert_eq!(s.analysis_mode, AnalysisMode::Auto);
    assert_eq!(s.offline_model_variant, ModelVariant::Qwen2VL2B);
    assert_eq!(s.model_cache_dir, None);
    assert!(s.auto_fallback);
    assert!(s.keep_model_loaded);

    // A decoded file means exactly its settings.
    let mut stored = AppSettings::default();
    stored.analysis_mode = AnalysisMode::Offline;
    stored.auto_fallback = false;
    let s = settings_from_store(Some(Ok(stored))).unwrap();
    assert_eq!(s.analysis_mode, AnalysisMode::Offline);
    assert_eq!(s.auto_fallback, false);

    // Undecodable content is an error, never silently replaced.
    let r = settings_from_store(Some(Err("bad token at line 3".to_string())));
    match r {
        Err(SettingsError::Malformed { detail }) => {
            assert_eq!(detail, "bad token at line 3");
            let e = SettingsError::Malformed { detail };
            assert_eq!(e.message(), "Failed to parse settings JSON: bad token at line 3");
        }
        other => panic!("expected Malformed, got {:?}", other),
    }
}
