use qpipe::config::{
    generate_default_config_step, Config, ConfigStep, FileProbe, API_URL, CONFIG_FILE, MODEL_NAME,
    PROMPT,
};

#[test]
fn default_config_values() {
    let config = Config::default();
    assert_eq!(config.model, "glm-4-flash");
    assert_eq!(config.model, MODEL_NAME);
    assert_eq!(config.api_key, "");
    assert_eq!(config.url, "https://open.bigmodel.cn/api/paas/v4/chat/completions");
    assert_eq!(config.url, API_URL);
    assert_eq!(config.server, "127.0.0.1:6000");
    assert_eq!(config.process_group.len(), 1);
    let group = &config.process_group[0];
    assert_eq!(group.name, "default");
    assert_eq!(group.cron, "now");
    assert_eq!(group.prompt, PROMPT);
    assert_eq!(group.prompt, "You are an AI assistant. You will be given a task.");
    assert_eq!(group.stream, "/path/to/script.py");
}

#[test]
fn set_model_name_changes_only_the_model() {
    let mut config = Config::default();
    config.set_model_name("glm-4-plus");
    assert_eq!(config.model, "glm-4-plus");
    assert_eq!(config.url, API_URL);
    assert_eq!(config.server, "127.0.0.1:6000");
    assert_eq!(config.process_group.len(), 1);
}

#[test]
fn set_url_changes_only_the_url() {
    let mut config = Config::default();
    config.set_url("http://localhost:8080/v1/chat");
    assert_eq!(config.url, "http://localhost:8080/v1/chat");
    assert_eq!(config.model, MODEL_NAME);
    assert_eq!(config.api_key, "");
}

#[test]
fn get_config_is_the_config_itself() {
    let config = Config::default();
    assert!(std::ptr::eq(config.get_config(), &config));
}

#[test]
fn config_path_prefers_the_given_path() {
    assert_eq!(Config::config_path(Some("/etc/qpipe.yaml".to_string())), "/etc/qpipe.yaml");
    assert_eq!(Config::config_path(None), "config.yaml");
    assert_eq!(Config::config_path(None), CONFIG_FILE);
}

#[test]
fn read_step_outcomes() {
    assert!(matches!(Config::read_step(FileProbe::Present), ConfigStep::Proceed));
    match Config::read_step(FileProbe::Missing) {
        ConfigStep::WriteDefaultAndFail(m) => assert_eq!(m, "error: config file not found"),
        other => panic!("unexpected {:?}", other),
    }
    match Config::read_step(FileProbe::Failed) {
        ConfigStep::Fail(m) => assert_eq!(m, "error: other error occurred"),
        other => panic!("unexpected {:?}", other),
    }
}

#[test]
fn generate_default_config_step_outcomes() {
    assert!(matches!(generate_default_config_step(FileProbe::Present), ConfigStep::Proceed));
    match generate_default_config_step(FileProbe::Missing) {
        ConfigStep::WriteDefaultAndFail(m) => assert_eq!(
            m,
            "error: config file not provided. Please provide a config file path via `--config <path>"
        ),
        other => panic!("unexpected {:?}", other),
    }
    match generate_default_config_step(FileProbe::Failed) {
        ConfigStep::Fail(m) => assert_eq!(m, "error: other error occurred"),
        other => panic!("unexpected {:?}", other),
    }
}
