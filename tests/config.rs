use pachyterm::config::{check_cursor_style, check_font_size, error_line};
use pachyterm::sample_config::push_decimal;
use pachyterm::{generate_large_config, ConfigError, KeymapConfig, ModelConfig, ModelsConfig, TelemetryConfig};

fn s(x: &str) -> String {
    x.to_string()
}

#[test]
fn default_keymap_values() {
    let k = KeymapConfig::default_keymap();
    assert_eq!(k.prefix, "p");
    assert_eq!(k.escape_sequence, "\\p");
    assert_eq!(
        k.bindings,
        vec![(s("ctrl+c"), s("interrupt")), (s("ctrl+d"), s("eof")), (s("ctrl+l"), s("clear"))]
    );
    assert!(k.validate().is_ok());
}

#[test]
fn bind_replaces_or_appends() {
    let mut k = KeymapConfig::default_keymap();
    k.bind(s("ctrl+d"), s("detach"));
    k.bind(s("ctrl+t"), s("tab"));
    assert_eq!(k.bindings[1], (s("ctrl+d"), s("detach")));
    assert_eq!(k.bindings[3], (s("ctrl+t"), s("tab")));
    assert_eq!(k.bindings.len(), 4);
}

#[test]
fn keymap_settings_apply_in_order() {
    let k = KeymapConfig::with_settings(
        Some(s("x")),
        None,
        vec![(s("key0"), s("action0")), (s("ctrl+c"), s("copy")), (s("key0"), s("again"))],
    );
    assert_eq!(k.prefix, "x");
    assert_eq!(k.escape_sequence, "\\p");
    assert_eq!(k.bindings[0], (s("ctrl+c"), s("copy")));
    assert_eq!(k.bindings[3], (s("key0"), s("again")));
    assert_eq!(k.bindings.len(), 4);
}

#[test]
fn empty_prefix_is_invalid() {
    let k = KeymapConfig::with_settings(Some(s("")), None, vec![]);
    assert_eq!(k.validate(), Err(ConfigError::Validation(s("prefix cannot be empty"))));
}

#[test]
fn font_size_bounds() {
    assert!(check_font_size(5).is_err());
    assert!(check_font_size(6).is_ok());
    assert!(check_font_size(12).is_ok());
    assert!(check_font_size(72).is_ok());
    assert!(matches!(check_font_size(100), Err(ConfigError::Validation(_))));
}

#[test]
fn cursor_styles() {
    for ok in ["block", "beam", "underline"] {
        assert!(check_cursor_style(&s(ok)).is_ok());
    }
    assert!(matches!(check_cursor_style(&s("invalid")), Err(ConfigError::Validation(_))));
}

#[test]
fn default_models_values() {
    let m = ModelsConfig::default_models();
    assert_eq!(m.cache_dir, "~/.cache/pachyterm/models");
    assert_eq!(m.models.len(), 1);
    assert_eq!(m.models[0].name, "mistral-7b-instruct");
    assert_eq!(m.models[0].path.as_deref(), Some("~/.cache/pachyterm/models/mistral-7b-instruct.gguf"));
    assert_eq!(m.models[0].quantization, "q4_0");
    assert_eq!(m.models[0].context_window, 4096);
    assert!(m.validate().is_ok());
}

#[test]
fn model_needs_name_and_location() {
    let nameless = ModelConfig::with_settings(None, Some(s("/m.gguf")), None, None, None, None);
    assert_eq!(nameless.validate(), Err(ConfigError::Validation(s("model name cannot be empty"))));
    let nowhere = ModelConfig::with_settings(Some(s("tiny")), None, None, None, None, Some(2048));
    assert_eq!(nowhere.context_window, 2048);
    assert_eq!(
        nowhere.validate(),
        Err(ConfigError::Validation(s("model 'tiny' must have either path or api_endpoint")))
    );
    let remote = ModelConfig::with_settings(Some(s("r")), None, Some(s("http://x")), None, Some(s("q8_0")), None);
    assert!(remote.validate().is_ok());
    assert_eq!(remote.quantization, "q8_0");
    let all = ModelsConfig::with_settings(Some(s("/tmp")), Some(vec![remote, nowhere]));
    assert_eq!(all.cache_dir, "/tmp");
    assert!(all.validate().is_err());
}

#[test]
fn telemetry_settings_truncate_integers() {
    let d = TelemetryConfig::default_telemetry();
    assert!(!d.enabled);
    assert_eq!(d.endpoint, "https://telemetry.pachyterm.dev");
    let t = TelemetryConfig::with_settings(Some(true), None, Some((1i64 << 32) + 5), Some(-1));
    assert!(t.enabled);
    assert_eq!(t.batch_size, 5);
    assert_eq!(t.flush_interval_ms, u64::MAX);
    assert_eq!(t.endpoint, d.endpoint);
}

#[test]
fn decimal_digits() {
    let mut out = String::from("n=");
    push_decimal(&mut out, 0);
    assert_eq!(out, "n=0");
    push_decimal(&mut out, 4096);
    assert_eq!(out, "n=04096");
    let mut big = String::new();
    push_decimal(&mut big, u64::MAX);
    assert_eq!(big, u64::MAX.to_string());
}

#[test]
fn large_config_shape() {
    let text = generate_large_config();
    assert!(text.starts_with("\n[ui]\nfont_size = 12\n"));
    assert!(text.contains("escape_sequence = \"\\\\p\"\n"));
    assert!(text.contains("\"ctrl+alt+f0\" = \"action0\"\n\"ctrl+alt+f1\" = \"action1\"\n"));
    assert!(text.contains("\"ctrl+alt+f199\" = \"action199\"\n\n[agent]"));
    assert_eq!(text.matches("ctrl+alt+f").count(), 200);
    assert_eq!(text.matches("[[models.models]]").count(), 100);
    assert!(text.contains("name = \"model99\"\npath = \"~/.cache/pachyterm/models/model99.gguf\"\n"));
    assert!(text.ends_with("batch_size = 100\nflush_interval_ms = 60000\n"));
}

#[test]
fn test_config_validation() {
    let mut keymap = KeymapConfig::default_keymap();
    assert!(check_font_size(100).is_err());
    assert!(check_font_size(12).is_ok());
    assert!(check_cursor_style(&s("invalid")).is_err());
    assert!(check_cursor_style(&s("block")).is_ok());
    keymap.prefix = s("");
    assert!(keymap.validate().is_err());
    keymap.prefix = s("p");
    assert!(keymap.validate().is_ok());
    assert!(ModelsConfig::default_models().validate().is_ok());
}

#[test]
fn error_line_counts_lines_before_offset() {
    let text = "a = 1\nb = [\n\nc";
    assert_eq!(error_line(text, 0), 0);
    assert_eq!(error_line(text, 3), 1);
    assert_eq!(error_line(text, 6), 1);
    assert_eq!(error_line(text, 7), 2);
    assert_eq!(error_line(text, 12), 2);
    assert_eq!(error_line(text, 13), 3);
    assert_eq!(error_line(text, text.len()), 4);
    for k in 0..=text.len() {
        assert_eq!(error_line(text, k), text[..k].lines().count());
    }
    assert_eq!(error_line("x\r\n", 3), "x\r\n".lines().count());
}

#[test]
fn sections_default_through_the_trait() {
    assert_eq!(KeymapConfig::default(), KeymapConfig::default_keymap());
    assert_eq!(ModelsConfig::default(), ModelsConfig::default_models());
    assert_eq!(TelemetryConfig::default(), TelemetryConfig::default_telemetry());
    assert_eq!(KeymapConfig::default().prefix, "p");
    assert!(!TelemetryConfig::default().enabled);
}
