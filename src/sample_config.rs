use vstd::prelude::*;
use vstd::string::StringExecFns;

verus! {

/// Opening sections of the large sample configuration, up to its bindings table.
pub const SAMPLE_HEAD: &'static str = "
[ui]
font_size = 12
font_family = \"JetBrains Mono\"
theme = \"dark\"
cursor_style = \"block\"
line_height = 1.2
padding = 4

[keymap]
prefix = \"p\"
escape_sequence = \"\\\\p\"

[keymap.bindings]
";

/// Sections between the bindings and the models of the sample.
pub const SAMPLE_MIDDLE: &'static str = "
[agent]
default_model = \"mistral-7b-instruct\"
context_lines = 100
timeout_ms = 30000
max_tokens = 2048
temperature = 0.7

[models]
cache_dir = \"~/.cache/pachyterm/models\"

";

/// Closing section of the sample.
pub const SAMPLE_TAIL: &'static str = "
[telemetry]
enabled = false
endpoint = \"https://telemetry.pachyterm.dev\"
batch_size = 100
flush_interval_ms = 60000
";

/// Number of key bindings in the sample.
pub const SAMPLE_BINDINGS: u64 = 200;

/// Number of models in the sample.
pub const SAMPLE_MODELS: u64 = 100;

pub open spec fn digit_char(d: nat) -> char {
    seq!['0', '1', '2', '3', '4', '5', '6', '7', '8', '9'][d as int]
}

/// Decimal digits of `n`, most significant first, with no leading zeros.
pub open spec fn decimal(n: nat) -> Seq<char>
    decreases n,
{
    if n < 10 {
        seq![digit_char(n)]
    } else {
        decimal(n / 10) + seq![digit_char(n % 10)]
    }
}

pub open spec fn binding_line(i: nat) -> Seq<char> {
    "\"ctrl+alt+f"@ + decimal(i) + "\" = \"action"@ + decimal(i) + "\"\n"@
}

/// Binding lines for `0..n`.
pub open spec fn binding_lines(n: nat) -> Seq<char>
    decreases n,
{
    if n == 0 {
        Seq::empty()
    } else {
        binding_lines((n - 1) as nat) + binding_line((n - 1) as nat)
    }
}

pub open spec fn model_block(i: nat) -> Seq<char> {
    "\n[[models.models]]\nname = \"model"@ + decimal(i) + "\"\npath = \"~/.cache/pachyterm/models/model"@
        + decimal(i) + ".gguf\"\nquantization = \"q4_0\"\ncontext_window = 4096\n"@
}

/// Model blocks for `0..n`.
pub open spec fn model_blocks(n: nat) -> Seq<char>
    decreases n,
{
    if n == 0 {
        Seq::empty()
    } else {
        model_blocks((n - 1) as nat) + model_block((n - 1) as nat)
    }
}

pub open spec fn sample_text() -> Seq<char> {
    SAMPLE_HEAD@ + binding_lines(SAMPLE_BINDINGS as nat) + SAMPLE_MIDDLE@ + model_blocks(
        SAMPLE_MODELS as nat,
    ) + SAMPLE_TAIL@
}

fn digit_str(d: u64) -> (s: &'static str)
    requires
        d < 10,
    ensures
        s@ == seq![digit_char(d as nat)],
{
    proof {
        reveal_strlit("0");
        reveal_strlit("1");
        reveal_strlit("2");
        reveal_strlit("3");
        reveal_strlit("4");
        reveal_strlit("5");
        reveal_strlit("6");
        reveal_strlit("7");
        reveal_strlit("8");
        reveal_strlit("9");
    }
    if d == 0 {
        "0"
    } else if d == 1 {
        "1"
    } else if d == 2 {
        "2"
    } else if d == 3 {
        "3"
    } else if d == 4 {
        "4"
    } else if d == 5 {
        "5"
    } else if d == 6 {
        "6"
    } else if d == 7 {
        "7"
    } else if d == 8 {
        "8"
    } else {
        "9"
    }
}

/// Appends the decimal digits of `n`.
pub fn push_decimal(s: &mut String, n: u64)
    ensures
        final(s)@ == old(s)@ + decimal(n as nat),
    decreases n,
{
    if n >= 10 {
        push_decimal(s, n / 10);
    }
    s.append(digit_str(n % 10));
    proof {
        if n >= 10 {
            assert(final(s)@ =~= old(s)@ + decimal(n as nat));
        }
    }
}

/// A large configuration text, with `SAMPLE_BINDINGS` key bindings and
/// `SAMPLE_MODELS` models, for measuring how fast configurations load.
pub fn generate_large_config() -> (text: String)
    ensures
        text@ == sample_text(),
{
    let mut text = SAMPLE_HEAD.to_owned();
    let mut i: u64 = 0;
    while i < SAMPLE_BINDINGS
        invariant
            i <= SAMPLE_BINDINGS,
            text@ == SAMPLE_HEAD@ + binding_lines(i as nat),
        decreases SAMPLE_BINDINGS - i,
    {
        text.append("\"ctrl+alt+f");
        push_decimal(&mut text, i);
        text.append("\" = \"action");
        push_decimal(&mut text, i);
        text.append("\"\n");
        proof {
            assert(binding_lines((i + 1) as nat) == binding_lines(i as nat) + binding_line(i as nat));
            assert(text@ =~= SAMPLE_HEAD@ + binding_lines((i + 1) as nat));
        }
        i += 1;
    }
    text.append(SAMPLE_MIDDLE);
    let mut j: u64 = 0;
    while j < SAMPLE_MODELS
        invariant
            j <= SAMPLE_MODELS,
            text@ == SAMPLE_HEAD@ + binding_lines(SAMPLE_BINDINGS as nat) + SAMPLE_MIDDLE@ + model_blocks(
                j as nat,
            ),
        decreases SAMPLE_MODELS - j,
    {
        text.append("\n[[models.models]]\nname = \"model");
        push_decimal(&mut text, j);
        text.append("\"\npath = \"~/.cache/pachyterm/models/model");
        push_decimal(&mut text, j);
        text.append(".gguf\"\nquantization = \"q4_0\"\ncontext_window = 4096\n");
        proof {
            assert(model_blocks((j + 1) as nat) == model_blocks(j as nat) + model_block(j as nat));
            assert(text@ =~= SAMPLE_HEAD@ + binding_lines(SAMPLE_BINDINGS as nat) + SAMPLE_MIDDLE@
                + model_blocks((j + 1) as nat));
        }
        j += 1;
    }
    text.append(SAMPLE_TAIL);
    text
}

} // verus!
