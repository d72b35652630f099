use cloudiful_docling_convert::DoclingConfig;

fn config() -> DoclingConfig {
    DoclingConfig {
        base_url: "http://127.0.0.1:5001/v1".into(),
        openai_base_url: String::new(),
        vlm_pipeline_model: String::new(),
        picture_description_model: String::new(),
        code_formula_model: String::new(),
        api_key: None,
        openai_api_key: None,
        tenant_id: None,
        request_timeout: None,
        task_timeout: None,
    }
}

#[test]
fn missing_vlm_bundle_is_allowed() {
    assert!(config().resolved_vlm_config().unwrap().is_none());
}

#[test]
fn partial_vlm_bundle_is_rejected() {
    let mut config = config();
    config.openai_base_url = "https://api.openai.com/v1".into();
    config.vlm_pipeline_model = "gpt-4o-mini".into();

    let error = config.resolved_vlm_config().unwrap_err();
    assert!(error
        .display()
        .contains("optional VLM runtime config is incomplete"));
}

#[test]
fn complete_vlm_bundle_is_trimmed() {
    let mut config = config();
    config.openai_base_url = " https://api.openai.com/v1 ".into();
    config.vlm_pipeline_model = "gpt-4o-mini".into();
    config.picture_description_model = "gpt-4o-mini".into();
    config.code_formula_model = "gpt-4o".into();
    config.openai_api_key = Some(" sk-test ".into());
    let bundle = config.resolved_vlm_config().unwrap().unwrap();
    assert_eq!(bundle.openai_base_url, "https://api.openai.com/v1");
    assert_eq!(bundle.api_key, "sk-test");
    assert_eq!(bundle.code_formula_model, "gpt-4o");
}
