use rzem_mj_lora::model_manager::{
    check_model_status, clear_model_cache, download_copy_error, download_events,
    download_fetch_error, get_model_cache_dir, get_model_path, resolve_cache_root,
    CacheObservation, ModelConfig, ModelError, ModelStatus,
};
use rzem_mj_lora::settings::ModelVariant;

#[test]
fn test_model_config_2b() {
    let config = ModelConfig::from_variant(ModelVariant::Qwen2VL2B);
    assert_eq!(config.hf_repo, "Qwen/Qwen2-VL-2B-Instruct");
    assert_eq!(config.files.len(), 4);
    assert!(config.total_size_bytes > 0);
}

#[test]
fn test_model_config_7b() {
    let config = ModelConfig::from_variant(ModelVariant::Qwen2VL7B);
    assert_eq!(config.hf_repo, "Qwen/Qwen2-VL-7B-Instruct");
    assert_eq!(config.files.len(), 13);
    assert!(config.total_size_bytes > 0);
}

#[test]
fn test_model_path_generation() {
    let path = get_model_path(ModelVariant::Qwen2VL2B, None).unwrap();
    assert!(path.contains("qwen2-vl-2b"));
}

#[test]
fn test_model_path_with_custom_dir() {
    let path = get_model_path(ModelVariant::Qwen2VL72B, Some("/tmp/mycache".to_string())).unwrap();
    assert_eq!(path, "/tmp/mycache/qwen2-vl-72b");
}

#[test]
fn test_cache_dir_override_is_verbatim() {
    let dir = get_model_cache_dir(Some("anywhere/at/all".to_string())).unwrap();
    assert_eq!(dir, "anywhere/at/all");
}

#[test]
fn test_model_status_not_downloaded() {
    let status = check_model_status(ModelVariant::Qwen2VL2B, &CacheObservation::Missing);
    assert_eq!(status, ModelStatus::NotDownloaded);
}

#[test]
fn test_model_status_empty_root_all_variants() {
    // An empty cache root means no variant directory exists.
    for variant in [
        ModelVariant::Qwen2VL2B,
        ModelVariant::Qwen2VL7B,
        ModelVariant::Qwen2VL72B,
    ] {
        let status = check_model_status(variant, &CacheObservation::Missing);
        assert_eq!(status, ModelStatus::NotDownloaded);
    }
}

#[test]
fn test_model_status_ready_all_variants() {
    // A variant directory holding every required file (whatever their
    // contents, which status never reads) is Ready.
    for variant in [
        ModelVariant::Qwen2VL2B,
        ModelVariant::Qwen2VL7B,
        ModelVariant::Qwen2VL72B,
    ] {
        let config = ModelConfig::from_variant(variant);
        let obs = CacheObservation::Present { files: config.files.clone() };
        assert_eq!(check_model_status(variant, &obs), ModelStatus::Ready);
    }
}

#[test]
fn test_model_status_one_missing_file_named() {
    // All but one required file present: the error names the missing file.
    for variant in [
        ModelVariant::Qwen2VL2B,
        ModelVariant::Qwen2VL7B,
        ModelVariant::Qwen2VL72B,
    ] {
        let config = ModelConfig::from_variant(variant);
        for drop_idx in 0..config.files.len() {
            let mut files = config.files.clone();
            let removed = files.remove(drop_idx);
            let obs = CacheObservation::Present { files };
            let status = check_model_status(variant, &obs);
            match status {
                ModelStatus::Error { message } => {
                    assert_eq!(message, format!("Missing required file: {}", removed));
                }
                other => panic!("expected Error, got {:?}", other),
            }
        }
    }
}

#[test]
fn test_model_status_extra_files_still_ready() {
    let config = ModelConfig::from_variant(ModelVariant::Qwen2VL2B);
    let mut files = config.files.clone();
    files.push("notes.txt".to_string());
    files.reverse();
    let obs = CacheObservation::Present { files };
    assert_eq!(check_model_status(ModelVariant::Qwen2VL2B, &obs), ModelStatus::Ready);
}

#[test]
fn test_model_status_unresolved_location() {
    let obs = CacheObservation::Unresolved { message: "boom".to_string() };
    let status = check_model_status(ModelVariant::Qwen2VL7B, &obs);
    assert_eq!(
        status,
        ModelStatus::Error { message: "Failed to determine model path: boom".to_string() }
    );
}

#[test]
fn test_clear_cache_nonexistent_root() {
    assert_eq!(clear_model_cache(None), Ok(0));
}

#[test]
fn test_clear_cache_sums_all_files() {
    // Sizes gathered at any directory depth are summed exactly.
    assert_eq!(clear_model_cache(Some(vec![100, 200, 300])), Ok(600));
    assert_eq!(clear_model_cache(Some(vec![])), Ok(0));
    assert_eq!(clear_model_cache(Some(vec![7])), Ok(7));
}

#[test]
fn test_clear_cache_total_overflow_is_io_error() {
    let r = clear_model_cache(Some(vec![u64::MAX, 1]));
    assert!(matches!(r, Err(ModelError::IoError(_))));
}

#[test]
fn test_download_events_protocol() {
    let config = ModelConfig::from_variant(ModelVariant::Qwen2VL2B);
    let events = download_events(&config);
    // M files yield exactly M + 1 events.
    assert_eq!(events.len(), config.files.len() + 1);
    assert_eq!(events[0].current_file, 1);
    assert_eq!(events[0].progress_percent, 0);
    let last = events.last().unwrap();
    assert_eq!(last.current_file, config.files.len());
    assert_eq!(last.progress_percent, 100);
    assert_eq!(last.file_name, "Complete");
    for (i, e) in events.iter().enumerate() {
        assert_eq!(e.total_files, config.files.len());
        if i < config.files.len() {
            assert_eq!(e.current_file, i + 1);
            assert_eq!(e.file_name, config.files[i]);
        }
        if i > 0 {
            assert!(events[i - 1].progress_percent <= e.progress_percent);
        }
    }
    // Exact percents for the four-file variant.
    let percents: Vec<u8> = events.iter().map(|e| e.progress_percent).collect();
    assert_eq!(percents, vec![0, 25, 50, 75, 100]);
}

#[test]
fn test_download_error_messages() {
    let e = download_fetch_error("model.safetensors", "connection reset");
    assert!(matches!(
        e,
        ModelError::DownloadFailed(ref m)
            if m == "Failed to download model.safetensors: connection reset"
    ));
    let e = download_copy_error("config.json", "disk full");
    assert!(matches!(
        e,
        ModelError::DownloadFailed(ref m)
            if m == "Failed to copy config.json to model directory: disk full"
    ));
}

#[test]
fn test_resolve_cache_root_exact() {
    assert_eq!(
        resolve_cache_root(Some("/home/u/.cache".to_string())),
        Ok("/home/u/.cache/rzem-mj-lora/models".to_string())
    );
    let r = resolve_cache_root(None);
    assert_eq!(r, Err(ModelError::Other("Failed to get cache directory".to_string())));
}
