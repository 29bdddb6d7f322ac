use vstd::prelude::*;
use vstd::string::{StringExecFns, StringSliceAdditionalSpecFns};

use crate::entries::{bind_all, bind_each, bind_entry, bind_spec, keys_unique};

verus! {

/// Smallest accepted font size.
pub const MIN_FONT_SIZE: u32 = 6;

/// Largest accepted font size.
pub const MAX_FONT_SIZE: u32 = 72;

/// Number of line feeds in `b`.
pub open spec fn line_feeds(b: Seq<u8>) -> nat
    decreases b.len(),
{
    if b.len() == 0 {
        0
    } else {
        line_feeds(b.drop_last()) + if b.last() == 10u8 {
            1nat
        } else {
            0nat
        }
    }
}

/// Number of lines in the text `b`: one per line feed, and one more for a
/// last line without one.
pub open spec fn line_count(b: Seq<u8>) -> nat {
    line_feeds(b) + if b.len() > 0 && b.last() != 10u8 {
        1nat
    } else {
        0nat
    }
}

/// The number of lines of `content` before byte `offset`, as reported with
/// a parse error at that offset.
pub fn error_line(content: &str, offset: usize) -> (line: usize)
    requires
        offset <= content.spec_bytes().len(),
    ensures
        line == line_count(content.spec_bytes().subrange(0, offset as int)),
{
    let bytes = content.as_bytes();
    let mut feeds: usize = 0;
    let mut i: usize = 0;
    while i < offset
        invariant
            offset <= bytes@.len(),
            i <= offset,
            feeds == line_feeds(bytes@.subrange(0, i as int)),
            feeds <= i,
            i > 0 && bytes@[i - 1] != 10u8 ==> feeds < i,
        decreases offset - i,
    {
        assert(bytes@.subrange(0, i + 1).drop_last() =~= bytes@.subrange(0, i as int));
        if bytes[i] == 10u8 {
            feeds = feeds + 1;
        }
        i += 1;
    }
    if offset > 0 && bytes[offset - 1] != 10u8 {
        feeds + 1
    } else {
        feeds
    }
}

/// Why a configuration could not be loaded.
#[derive(Debug, Clone, PartialEq, Eq)]
pub enum ConfigError {
    /// Reading or writing the configuration file failed.
    Io(String),
    /// The text is not valid TOML; `line` counts the lines up to the error.
    Parse { line: usize, message: String },
    /// A value is outside what the schema allows.
    Validation(String),
    /// Watching the configuration file failed.
    Watcher(String),
    /// No configuration directory could be determined.
    DirectoryNotFound,
}

/// Key bindings, from key chord to action, and the agent command prefix.
#[derive(Debug, Clone, PartialEq, Eq)]
pub struct KeymapConfig {
    pub bindings: Vec<(String, String)>,
    pub prefix: String,
    pub escape_sequence: String,
}

/// One model the agent can use, found at a local path or behind an endpoint.
#[derive(Debug, Clone, PartialEq, Eq)]
pub struct ModelConfig {
    pub name: String,
    pub path: Option<String>,
    pub api_endpoint: Option<String>,
    pub api_key: Option<String>,
    pub quantization: String,
    pub context_window: u32,
}

/// The models known to the agent and where they are cached.
#[derive(Debug, Clone, PartialEq, Eq)]
pub struct ModelsConfig {
    pub models: Vec<ModelConfig>,
    pub cache_dir: String,
}

/// Opt-in usage reporting.
#[derive(Debug, Clone, PartialEq, Eq)]
pub struct TelemetryConfig {
    pub enabled: bool,
    pub endpoint: String,
    pub batch_size: u32,
    pub flush_interval_ms: u64,
}

/// A validation error with this message.
pub open spec fn is_validation(e: ConfigError, message: Seq<char>) -> bool {
    e matches ConfigError::Validation(m) && m@ == message
}

fn validation(message: &str) -> (e: ConfigError)
    ensures
        is_validation(e, message@),
{
    ConfigError::Validation(message.to_owned())
}

/// Accepts font sizes from `MIN_FONT_SIZE` to `MAX_FONT_SIZE`.
pub fn check_font_size(font_size: u32) -> (r: Result<(), ConfigError>)
    ensures
        r is Ok <==> MIN_FONT_SIZE <= font_size <= MAX_FONT_SIZE,
        r is Err ==> is_validation(r->Err_0, "font_size must be between 6 and 72"@),
{
    if font_size < MIN_FONT_SIZE || font_size > MAX_FONT_SIZE {
        return Err(validation("font_size must be between 6 and 72"));
    }
    Ok(())
}

pub open spec fn is_cursor_style(style: Seq<char>) -> bool {
    style == "block"@ || style == "beam"@ || style == "underline"@
}

/// Accepts the cursor styles `block`, `beam` and `underline`.
pub fn check_cursor_style(style: &String) -> (r: Result<(), ConfigError>)
    ensures
        r is Ok <==> is_cursor_style(style@),
        r is Err ==> is_validation(r->Err_0, "cursor_style must be 'block', 'beam', or 'underline'"@),
{
    let block = "block".to_owned();
    let beam = "beam".to_owned();
    let underline = "underline".to_owned();
    if *style == block || *style == beam || *style == underline {
        Ok(())
    } else {
        Err(validation("cursor_style must be 'block', 'beam', or 'underline'"))
    }
}

/// The value of an optional setting, or the fallback where it is absent.
pub open spec fn or_else<T>(setting: Option<T>, fallback: T) -> T {
    match setting {
        Some(v) => v,
        None => fallback,
    }
}

/// The text of an optional string setting, or the fallback where it is absent.
pub open spec fn text_or(setting: Option<String>, fallback: Seq<char>) -> Seq<char> {
    match setting {
        Some(v) => v@,
        None => fallback,
    }
}

/// The bindings of the default keymap, in this order.
pub open spec fn is_default_bindings(b: Seq<(String, String)>) -> bool {
    &&& b.len() == 3
    &&& b[0].0@ == "ctrl+c"@ && b[0].1@ == "interrupt"@
    &&& b[1].0@ == "ctrl+d"@ && b[1].1@ == "eof"@
    &&& b[2].0@ == "ctrl+l"@ && b[2].1@ == "clear"@
}

impl KeymapConfig {
    /// Bindings for interrupt, end of input and clearing the screen; the
    /// prefix `p` and the escape sequence `\p`.
    pub fn default_keymap() -> (k: KeymapConfig)
        ensures
            is_default_bindings(k.bindings@),
            keys_unique(k.bindings@),
            k.prefix@ == "p"@,
            k.escape_sequence@ == "\\p"@,
    {
        let mut bindings: Vec<(String, String)> = Vec::new();
        bindings.push(("ctrl+c".to_owned(), "interrupt".to_owned()));
        bindings.push(("ctrl+d".to_owned(), "eof".to_owned()));
        bindings.push(("ctrl+l".to_owned(), "clear".to_owned()));
        proof {
            reveal_strlit("ctrl+c");
            reveal_strlit("ctrl+d");
            reveal_strlit("ctrl+l");
            assert("ctrl+c"@[5] != "ctrl+d"@[5]);
            assert("ctrl+c"@[5] != "ctrl+l"@[5]);
            assert("ctrl+d"@[5] != "ctrl+l"@[5]);
        }
        KeymapConfig { bindings, prefix: "p".to_owned(), escape_sequence: "\\p".to_owned() }
    }

    /// Binds `key` to `action`, replacing an earlier binding of the same key.
    pub fn bind(&mut self, key: String, action: String)
        requires
            keys_unique(old(self).bindings@),
        ensures
            keys_unique(final(self).bindings@),
            final(self).prefix == old(self).prefix,
            final(self).escape_sequence == old(self).escape_sequence,
            final(self).bindings@ == bind_spec(old(self).bindings@, key, action),
    {
        bind_entry(&mut self.bindings, key, action);
    }

    /// The default keymap with the settings found applied: a prefix, an
    /// escape sequence, and bindings added in order.
    pub fn with_settings(prefix: Option<String>, escape_sequence: Option<String>, bindings: Vec<(String, String)>) -> (k:
        KeymapConfig)
        ensures
            k.prefix@ == text_or(prefix, "p"@),
            k.escape_sequence@ == text_or(escape_sequence, "\\p"@),
            exists|base: Seq<(String, String)>|
                is_default_bindings(base) && k.bindings@ == bind_all(base, bindings@),
    {
        let mut k = KeymapConfig::default_keymap();
        if let Some(p) = prefix {
            k.prefix = p;
        }
        if let Some(e) = escape_sequence {
            k.escape_sequence = e;
        }
        bind_each(&mut k.bindings, &bindings);
        k
    }

    /// The prefix must not be empty.
    pub fn validate(&self) -> (r: Result<(), ConfigError>)
        ensures
            r is Ok <==> self.prefix@.len() > 0,
            r is Err ==> is_validation(r->Err_0, "prefix cannot be empty"@),
    {
        if self.prefix.as_str().is_empty() {
            return Err(validation("prefix cannot be empty"));
        }
        Ok(())
    }
}

impl ModelConfig {
    /// A model entry named `name`, with no location yet, `q4_0`
    /// quantization and a 4096-token context window.
    pub fn named(name: String) -> (m: ModelConfig)
        ensures
            m.name == name,
            m.path is None,
            m.api_endpoint is None,
            m.api_key is None,
            m.quantization@ == "q4_0"@,
            m.context_window == 4096,
    {
        ModelConfig {
            name,
            path: None,
            api_endpoint: None,
            api_key: None,
            quantization: "q4_0".to_owned(),
            context_window: 4096,
        }
    }

    /// A model entry built from the settings found: absent text settings
    /// leave the name empty and the locations and key unset, and integers are
    /// truncated to the field's width.
    pub fn with_settings(
        name: Option<String>,
        path: Option<String>,
        api_endpoint: Option<String>,
        api_key: Option<String>,
        quantization: Option<String>,
        context_window: Option<i64>,
    ) -> (m: ModelConfig)
        ensures
            m.name@ == text_or(name, Seq::empty()),
            m.path == path,
            m.api_endpoint == api_endpoint,
            m.api_key == api_key,
            m.quantization@ == text_or(quantization, "q4_0"@),
            m.context_window == (match context_window {
                Some(c) => c as u32,
                None => 4096,
            }),
    {
        let mut m = ModelConfig::named(String::new());
        if let Some(n) = name {
            m.name = n;
        }
        m.path = path;
        m.api_endpoint = api_endpoint;
        m.api_key = api_key;
        if let Some(q) = quantization {
            m.quantization = q;
        }
        if let Some(c) = context_window {
            m.context_window = c as u32;
        }
        m
    }

    pub open spec fn is_valid(&self) -> bool {
        self.name@.len() > 0 && (self.path is Some || self.api_endpoint is Some)
    }

    /// A model needs a name, and a path or an endpoint.
    pub fn validate(&self) -> (r: Result<(), ConfigError>)
        ensures
            r is Ok <==> self.is_valid(),
            r is Err ==> r->Err_0 is Validation,
            self.name@.len() == 0 ==> is_validation(r->Err_0, "model name cannot be empty"@),
            self.name@.len() > 0 && self.path is None && self.api_endpoint is None ==> is_validation(
                r->Err_0,
                "model '"@ + self.name@ + "' must have either path or api_endpoint"@,
            ),
    {
        if self.name.as_str().is_empty() {
            return Err(validation("model name cannot be empty"));
        }
        if self.path.is_none() && self.api_endpoint.is_none() {
            let mut message = "model '".to_owned();
            message.append(self.name.as_str());
            message.append("' must have either path or api_endpoint");
            return Err(ConfigError::Validation(message));
        }
        Ok(())
    }
}

/// The default list: one local `mistral-7b-instruct` model.
pub open spec fn is_default_model_list(models: Seq<ModelConfig>) -> bool {
    &&& models.len() == 1
    &&& models[0].name@ == "mistral-7b-instruct"@
    &&& models[0].path matches Some(p) && p@ == "~/.cache/pachyterm/models/mistral-7b-instruct.gguf"@
    &&& models[0].api_endpoint is None
    &&& models[0].api_key is None
    &&& models[0].quantization@ == "q4_0"@
    &&& models[0].context_window == 4096
}

impl ModelsConfig {
    /// One local model, `mistral-7b-instruct`, cached under
    /// `~/.cache/pachyterm/models`.
    pub fn default_models() -> (m: ModelsConfig)
        ensures
            is_default_model_list(m.models@),
            m.cache_dir@ == "~/.cache/pachyterm/models"@,
    {
        let mut model = ModelConfig::named("mistral-7b-instruct".to_owned());
        model.path = Some("~/.cache/pachyterm/models/mistral-7b-instruct.gguf".to_owned());
        let mut models: Vec<ModelConfig> = Vec::new();
        models.push(model);
        ModelsConfig { models, cache_dir: "~/.cache/pachyterm/models".to_owned() }
    }

    /// The default models with the settings found applied: a cache directory,
    /// and a list of models that replaces the default one.
    pub fn with_settings(cache_dir: Option<String>, models: Option<Vec<ModelConfig>>) -> (m: ModelsConfig)
        ensures
            m.cache_dir@ == text_or(cache_dir, "~/.cache/pachyterm/models"@),
            models matches Some(v) ==> m.models == v,
            models is None ==> is_default_model_list(m.models@),
    {
        let mut m = ModelsConfig::default_models();
        if let Some(c) = cache_dir {
            m.cache_dir = c;
        }
        if let Some(v) = models {
            m.models = v;
        }
        m
    }

    /// Every model must be valid; the first one that is not is reported.
    pub fn validate(&self) -> (r: Result<(), ConfigError>)
        ensures
            r is Ok <==> forall|i: int| 0 <= i < self.models@.len() ==> (#[trigger] self.models@[i]).is_valid(),
            r is Err ==> r->Err_0 is Validation,
    {
        let mut i: usize = 0;
        while i < self.models.len()
            invariant
                i <= self.models@.len(),
                forall|k: int| 0 <= k < i ==> (#[trigger] self.models@[k]).is_valid(),
            decreases self.models@.len() - i,
        {
            let r = self.models[i].validate();
            if r.is_err() {
                return r;
            }
            i += 1;
        }
        Ok(())
    }
}

impl TelemetryConfig {
    /// Disabled, reporting to the project's endpoint in batches of 100 every
    /// minute.
    pub fn default_telemetry() -> (t: TelemetryConfig)
        ensures
            !t.enabled,
            t.endpoint@ == "https://telemetry.pachyterm.dev"@,
            t.batch_size == 100,
            t.flush_interval_ms == 60000,
    {
        TelemetryConfig {
            enabled: false,
            endpoint: "https://telemetry.pachyterm.dev".to_owned(),
            batch_size: 100,
            flush_interval_ms: 60000,
        }
    }
}

impl TelemetryConfig {
    /// The default telemetry settings with the settings found applied;
    /// integers are truncated to the field's width.
    pub fn with_settings(
        enabled: Option<bool>,
        endpoint: Option<String>,
        batch_size: Option<i64>,
        flush_interval_ms: Option<i64>,
    ) -> (t: TelemetryConfig)
        ensures
            t.enabled == or_else(enabled, false),
            t.endpoint@ == text_or(endpoint, "https://telemetry.pachyterm.dev"@),
            t.batch_size == (match batch_size {
                Some(b) => b as u32,
                None => 100,
            }),
            t.flush_interval_ms == (match flush_interval_ms {
                Some(f) => f as u64,
                None => 60000,
            }),
    {
        let mut t = TelemetryConfig::default_telemetry();
        if let Some(e) = enabled {
            t.enabled = e;
        }
        if let Some(e) = endpoint {
            t.endpoint = e;
        }
        if let Some(b) = batch_size {
            t.batch_size = b as u32;
        }
        if let Some(f) = flush_interval_ms {
            t.flush_interval_ms = f as u64;
        }
        t
    }
}

impl Default for KeymapConfig {
    fn default() -> (k: Self)
        ensures
            is_default_bindings(k.bindings@),
            keys_unique(k.bindings@),
            k.prefix@ == "p"@,
            k.escape_sequence@ == "\\p"@,
    {
        KeymapConfig::default_keymap()
    }
}

impl Default for ModelsConfig {
    fn default() -> (m: Self)
        ensures
            is_default_model_list(m.models@),
            m.cache_dir@ == "~/.cache/pachyterm/models"@,
    {
        ModelsConfig::default_models()
    }
}

impl Default for TelemetryConfig {
    fn default() -> (t: Self)
        ensures
            !t.enabled,
            t.endpoint@ == "https://telemetry.pachyterm.dev"@,
            t.batch_size == 100,
            t.flush_interval_ms == 60000,
    {
        TelemetryConfig::default_telemetry()
    }
}

} // verus!
