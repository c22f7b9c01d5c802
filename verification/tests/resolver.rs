use help_me_write::config::{
    default_api_base, default_api_key, default_model, default_model_for_base,
    default_system_prompt, builtin_system_prompt, provider_of, resolve, AppSettings, EnvOverrides,
    Provider,
};

fn blank_settings() -> AppSettings {
    AppSettings {
        ai_provider: String::new(),
        api_base: "   ".to_string(),
        api_key: String::new(),
        model: "\t".to_string(),
        system_prompt: " \n ".to_string(),
        hotkey: String::new(),
    }
}

fn no_env() -> EnvOverrides {
    EnvOverrides { api_base: None, api_key: None, model: None }
}

#[test]
fn blank_settings_resolve_to_documented_defaults() {
    let r = resolve(&blank_settings(), Provider::Custom, &no_env());
    assert_eq!(r.endpoint, "http://localhost:11434/v1");
    assert_eq!(r.api_key, "ollama");
    assert_eq!(r.model, "gemma3");
    assert_eq!(r.system_prompt, builtin_system_prompt());
    assert!(!r.endpoint.is_empty());
    assert!(!r.api_key.is_empty());
    assert!(!r.model.is_empty());
    assert!(!r.system_prompt.is_empty());
}

#[test]
fn blank_settings_resolve_to_defaults_for_ollama() {
    let r = resolve(&blank_settings(), Provider::Ollama, &no_env());
    assert_eq!(r.endpoint, "http://localhost:11434/v1");
    assert_eq!(r.model, "gemma3");
}

#[test]
fn fixed_providers_ignore_stored_base() {
    let mut s = blank_settings();
    s.api_base = "http://somewhere.else:9999/v7".to_string();
    let r = resolve(&s, Provider::OpenAI, &no_env());
    assert_eq!(r.endpoint, "https://api.openai.com/v1");
    assert_eq!(r.model, "gpt-5-nano");
    let r = resolve(&s, Provider::Gemini, &no_env());
    assert_eq!(r.endpoint, "https://generativelanguage.googleapis.com/v1beta");
    assert_eq!(r.model, "gemini-3-flash-preview");
}

#[test]
fn fields_fall_back_independently() {
    let mut s = blank_settings();
    s.model = "my-model".to_string();
    let r = resolve(&s, Provider::Custom, &no_env());
    assert_eq!(r.endpoint, "http://localhost:11434/v1");
    assert_eq!(r.model, "my-model");
    assert_eq!(r.api_key, "ollama");
}

#[test]
fn stored_base_is_trimmed_and_used() {
    let mut s = blank_settings();
    s.api_base = "  http://box:8080/v1  ".to_string();
    let r = resolve(&s, Provider::Custom, &no_env());
    assert_eq!(r.endpoint, "http://box:8080/v1");
}

#[test]
fn unicode_whitespace_is_trimmed_and_counts_as_blank() {
    let mut s = blank_settings();
    s.api_base = "\u{a0}http://box:8080/v1\u{2002}".to_string();
    s.model = "\u{a0}\u{3000}".to_string();
    let r = resolve(&s, Provider::Custom, &no_env());
    assert_eq!(r.endpoint, "http://box:8080/v1");
    assert_eq!(r.model, "gemma3");
}

#[test]
fn environment_overrides_fill_blank_fields() {
    let env = EnvOverrides {
        api_base: Some("http://envhost:1234/v1".to_string()),
        api_key: Some("env-key".to_string()),
        model: Some("env-model".to_string()),
    };
    let r = resolve(&blank_settings(), Provider::Custom, &env);
    assert_eq!(r.endpoint, "http://envhost:1234/v1");
    assert_eq!(r.api_key, "env-key");
    assert_eq!(r.model, "env-model");
}

#[test]
fn blank_environment_values_count_as_absent() {
    let env = EnvOverrides {
        api_base: Some("   ".to_string()),
        api_key: Some(String::new()),
        model: Some("\n".to_string()),
    };
    let r = resolve(&blank_settings(), Provider::Custom, &env);
    assert_eq!(r.endpoint, "http://localhost:11434/v1");
    assert_eq!(r.api_key, "ollama");
    assert_eq!(r.model, "gemma3");
}

#[test]
fn stored_fields_beat_environment() {
    let mut s = blank_settings();
    s.api_key = "stored-key".to_string();
    let env = EnvOverrides {
        api_base: None,
        api_key: Some("env-key".to_string()),
        model: None,
    };
    let r = resolve(&s, Provider::Custom, &env);
    assert_eq!(r.api_key, "stored-key");
}

#[test]
fn provider_parsing_is_trimmed_and_case_insensitive() {
    assert_eq!(provider_of("OpenAI"), Provider::OpenAI);
    assert_eq!(provider_of("  gemini "), Provider::Gemini);
    assert_eq!(provider_of("OLLAMA"), Provider::Ollama);
    assert_eq!(provider_of("custom"), Provider::Custom);
    assert_eq!(provider_of("anything-else"), Provider::Custom);
    assert_eq!(provider_of(""), Provider::Custom);
}

#[test]
fn model_defaults_follow_the_host() {
    assert_eq!(default_model_for_base("https://api.openai.com/v1"), "gpt-5-nano");
    assert_eq!(
        default_model_for_base("https://generativelanguage.googleapis.com/v1beta"),
        "gemini-3-flash-preview"
    );
    assert_eq!(default_model_for_base("http://localhost:11434/v1"), "gemma3");
}

#[test]
fn fresh_settings_carry_the_documented_defaults() {
    let s = AppSettings::default();
    assert_eq!(s.api_base, default_api_base());
    assert_eq!(s.api_key, default_api_key());
    assert_eq!(s.model, default_model());
    assert_eq!(s.system_prompt, default_system_prompt());
    assert!(s.ai_provider.is_empty());
    assert!(s.hotkey.is_empty());
}
