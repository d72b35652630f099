use cloudiful_docling_convert::{
    build_convert_options, ChunkerKind, ConversionBehavior, ConvertOptions, DoclingRuntimeConfig,
    EnvSettings, InputKind,
};

#[test]
fn default_behavior_uses_normal_conversion() {
    assert_eq!(ConversionBehavior::default().chunker, ChunkerKind::Disabled);
}

#[test]
fn generic_inputs_use_native_chunker_options() {
    let options = build_convert_options(
        InputKind::Docx,
        &ConversionBehavior {
            chunker: ChunkerKind::Hierarchical,
            ..ConversionBehavior::default()
        },
    )
    .unwrap();

    assert!(matches!(options, ConvertOptions::Generic(_)));
}

#[test]
fn text_inputs_remain_local() {
    let options = build_convert_options(InputKind::Text, &ConversionBehavior::default()).unwrap();
    assert!(matches!(options, ConvertOptions::Text(_)));
}

#[test]
fn runtime_config_keeps_docling_and_openai_keys_separate() {
    let config = DoclingRuntimeConfig::without_vlm("http://localhost:5001/v1")
        .into_docling_config(&EnvSettings::default());
    assert!(config.api_key.is_none());
    assert!(config.openai_api_key.is_none());
}

#[test]
fn environment_fills_only_unset_keys() {
    let env = EnvSettings {
        docling_api_key: Some("env-docling".to_string()),
        openai_api_key: Some("env-openai".to_string()),
        tenant_id: Some("env-tenant".to_string()),
        ..EnvSettings::default()
    };
    let mut runtime = DoclingRuntimeConfig::without_vlm("http://localhost:5001/v1");
    runtime.api_key = Some("own-key".to_string());
    let config = runtime.into_docling_config(&env);
    assert_eq!(config.api_key.as_deref(), Some("own-key"));
    assert_eq!(config.openai_api_key.as_deref(), Some("env-openai"));
    assert_eq!(config.tenant_id.as_deref(), Some("env-tenant"));
}

#[test]
fn timeouts_come_from_whole_seconds() {
    let env = EnvSettings {
        http_timeout_secs: Some("90".to_string()),
        task_timeout_secs: Some("soon".to_string()),
        ..EnvSettings::default()
    };
    let config = DoclingRuntimeConfig::from_env("http://localhost:5001/v1", &env);
    assert_eq!(config.request_timeout, Some(std::time::Duration::from_secs(90)));
    assert_eq!(config.task_timeout, None);
    assert_eq!(
        cloudiful_docling_convert::config::default_task_timeout(&env),
        std::time::Duration::from_secs(3600)
    );
    let zero = EnvSettings {
        http_timeout_secs: Some("0".to_string()),
        max_sync_wait_secs: Some("12".to_string()),
        ..EnvSettings::default()
    };
    assert_eq!(
        cloudiful_docling_convert::config::default_request_timeout(&zero),
        std::time::Duration::from_secs(1)
    );
    let fallback = EnvSettings {
        max_sync_wait_secs: Some("12".to_string()),
        ..EnvSettings::default()
    };
    assert_eq!(
        cloudiful_docling_convert::config::default_request_timeout(&fallback),
        std::time::Duration::from_secs(12)
    );
}

#[test]
fn built_options_always_fit_their_kind() {
    for kind in [InputKind::Pdf, InputKind::Docx, InputKind::Latex, InputKind::Text] {
        let options = build_convert_options(kind, &ConversionBehavior::default()).unwrap();
        match kind {
            InputKind::Pdf => assert!(matches!(options, ConvertOptions::Pdf(_))),
            InputKind::Text => assert!(matches!(options, ConvertOptions::Text(_))),
            _ => assert!(matches!(options, ConvertOptions::Generic(_))),
        }
    }
}
