//! The persistent settings and the choices of the interactive setup. The sampling temperature,
//! a float, is kept by the caller beside these.
use vstd::prelude::*;

use crate::agent::prompt::{copy_str, opt_view};
use crate::text::{chars_of, is_white, is_white_exec, push_str, slice, str_eq, string_of};

verus! {

/// The settings the tool runs with.
#[derive(Debug, Clone)]
pub struct Config {
    /// `off` or `heuristic`: the default compression of command output.
    pub compression: String,
    /// `normal` or `ultra-compact`: the verbosity of command output.
    pub rtk_verbosity: String,
    /// Whether the code map is kept fresh after code-changing runs.
    pub graph_auto: bool,
    /// The agent platform id (blank: detect it).
    pub agent: String,
    /// The active model id (blank: the default model).
    pub model: String,
}

impl Default for Config {
    /// Heuristic compression, normal verbosity, the code map kept fresh, no agent, no model.
    fn default() -> (r: Config)
        ensures
            r.compression@ == "heuristic"@,
            r.rtk_verbosity@ == "normal"@,
            r.graph_auto,
            r.agent@.len() == 0,
            r.model@.len() == 0,
    {
        Config {
            compression: copy_str("heuristic"),
            rtk_verbosity: copy_str("normal"),
            graph_auto: true,
            agent: String::new(),
            model: String::new(),
        }
    }
}

/// The environment's overrides of the settings, where set.
pub struct EnvOverrides {
    pub compression: Option<String>,
    pub rtk_verbosity: Option<String>,
    pub graph_auto: Option<String>,
    pub model: Option<String>,
}

/// A truthy environment value: `true`, `1` or `yes`.
pub open spec fn truthy(v: Seq<char>) -> bool {
    v == "true"@ || v == "1"@ || v == "yes"@
}

/// Apply the environment's overrides: each set value replaces its setting; the code-map switch
/// is on exactly for a truthy value.
pub fn apply_env(cfg: Config, env: EnvOverrides) -> (r: Config)
    ensures
        r.compression@ == match env.compression {
            Some(v) => v@,
            None => cfg.compression@,
        },
        r.rtk_verbosity@ == match env.rtk_verbosity {
            Some(v) => v@,
            None => cfg.rtk_verbosity@,
        },
        r.graph_auto == match env.graph_auto {
            Some(v) => truthy(v@),
            None => cfg.graph_auto,
        },
        r.model@ == match env.model {
            Some(v) => v@,
            None => cfg.model@,
        },
        r.agent@ == cfg.agent@,
{
    let mut c = cfg;
    match env.compression {
        Some(v) => c.compression = v,
        None => {},
    }
    match env.rtk_verbosity {
        Some(v) => c.rtk_verbosity = v,
        None => {},
    }
    match env.graph_auto {
        Some(v) => c.graph_auto = str_eq(v.as_str(), "true") || str_eq(v.as_str(), "1") || str_eq(
            v.as_str(),
            "yes",
        ),
        None => {},
    }
    match env.model {
        Some(v) => c.model = v,
        None => {},
    }
    c
}

/// The active model: the configured one, or `qwen3-8b` when none is set.
pub fn active_model(cfg: &Config) -> (r: String)
    ensures
        cfg.model@.len() == 0 ==> r@ == "qwen3-8b"@,
        cfg.model@.len() > 0 ==> r@ == cfg.model@,
{
    if cfg.model.as_str().is_empty() {
        copy_str("qwen3-8b")
    } else {
        copy_str(cfg.model.as_str())
    }
}

/// The first word of a text (its first run of non-white-space characters), if any.
pub open spec fn first_word(s: Seq<char>) -> Option<Seq<char>> {
    if exists|i: int| 0 <= i < s.len() && !is_white(s[i]) {
        let a = choose|i: int|
            0 <= i < s.len() && !is_white(s[i]) && forall|k: int| 0 <= k < i ==> is_white(s[k]);
        let b = choose|j: int|
            a < j <= s.len() && (j == s.len() || is_white(s[j])) && forall|k: int|
                a <= k < j ==> !is_white(s[k]);
        Some(s.subrange(a, b))
    } else {
        None
    }
}

/// The first word of a text.
pub fn first_word_exec(s: &str) -> (r: Option<String>)
    ensures
        opt_view(r) == first_word(s@),
{
    let c = chars_of(s);
    let mut a: usize = 0;
    while a < c.len() && is_white_exec(c[a])
        invariant
            a <= c.len(),
            forall|k: int| 0 <= k < a ==> is_white(c@[k]),
        decreases c.len() - a,
    {
        a = a + 1;
    }
    if a == c.len() {
        assert(forall|i: int| 0 <= i < c@.len() ==> is_white(c@[i]));
        return None;
    }
    let mut b: usize = a + 1;
    while b < c.len() && !is_white_exec(c[b])
        invariant
            a < b <= c.len(),
            forall|k: int| a <= k < b ==> !is_white(c@[k]),
        decreases c.len() - b,
    {
        b = b + 1;
    }
    proof {
        let s2 = c@;
        assert(exists|i: int| 0 <= i < s2.len() && !is_white(s2[i])) by {
            assert(!is_white(s2[a as int]));
        }
        let a2 = choose|i: int|
            0 <= i < s2.len() && !is_white(s2[i]) && forall|k: int| 0 <= k < i ==> is_white(s2[k]);
        assert(a2 == a) by {
            if a2 < a {
            } else if a2 > a {
                assert(is_white(s2[a as int]));
            }
        }
        let b2 = choose|j: int|
            a < j <= s2.len() && (j == s2.len() || is_white(s2[j])) && forall|k: int|
                a <= k < j ==> !is_white(s2[k]);
        assert(b2 == b) by {
            if b2 < b {
                assert(!is_white(s2[b2]));
            } else if b2 > b {
                assert(!is_white(s2[b as int]));
            }
        }
    }
    Some(string_of(&slice(&c, a, b)))
}

/// The compression chosen in setup: the first word of the chosen option.
pub fn compression_choice(choice: &str) -> (r: Option<String>)
    ensures
        opt_view(r) == first_word(choice@),
{
    first_word_exec(choice)
}

/// The agent chosen in setup: a typed name (trimmed) for the custom option, none for
/// auto-detection, the option itself otherwise.
pub fn agent_choice(choice: &str, typed: Option<&str>) -> (r: String)
    ensures
        choice@ == "custom (type your own)"@ ==> r@ == match typed {
            Some(t) => crate::text::trim_seq(t@),
            None => seq![],
        },
        choice@ == "auto-detect"@ ==> r@.len() == 0,
        choice@ != "custom (type your own)"@ && choice@ != "auto-detect"@ ==> r@ == choice@,
{
    proof {
        reveal_strlit("custom (type your own)");
        reveal_strlit("auto-detect");
        assert("custom (type your own)"@[0] != "auto-detect"@[0]);
    }
    if str_eq(choice, "custom (type your own)") {
        match typed {
            Some(t) => string_of(&crate::text::trim(&chars_of(t))),
            None => String::new(),
        }
    } else if str_eq(choice, "auto-detect") {
        String::new()
    } else {
        copy_str(choice)
    }
}

/// One option of the model choice: the model's id and its size.
pub fn model_option(id: &str, size: u64) -> (r: String)
    ensures
        r@ == id@ + " ("@ + crate::commands::model::format_size_spec(size as nat) + ")"@,
{
    let mut s = copy_str(id);
    push_str(&mut s, " (");
    push_str(&mut s, crate::commands::model::format_size(size).as_str());
    push_str(&mut s, ")");
    s
}

/// The model chosen in setup: the current one when kept, otherwise the option's first word
/// (`qwen3-8b` for an option without one).
pub fn model_choice(choice: &str, current: &str) -> (r: String)
    ensures
        choice@ == "(keep current)"@ ==> r@ == current@,
        choice@ != "(keep current)"@ ==> r@ == match first_word(choice@) {
            Some(w) => w,
            None => "qwen3-8b"@,
        },
{
    if str_eq(choice, "(keep current)") {
        copy_str(current)
    } else {
        match first_word_exec(choice) {
            Some(w) => w,
            None => copy_str("qwen3-8b"),
        }
    }
}

/// Whether command output bypasses RTK's filters: compression is `off`.
pub fn raw_output(cfg: &Config) -> (r: bool)
    ensures
        r == (cfg.compression@ == "off"@),
{
    str_eq(cfg.compression.as_str(), "off")
}

/// Whether RTK prints its ultra-compact output: verbosity is `ultra-compact`.
pub fn ultra_compact(cfg: &Config) -> (r: bool)
    ensures
        r == (cfg.rtk_verbosity@ == "ultra-compact"@),
{
    str_eq(cfg.rtk_verbosity.as_str(), "ultra-compact")
}

} // verus!

