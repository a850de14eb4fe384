//! Resolution of the effective global severity filter: an explicitly
//! configured severity always wins; otherwise an expression supplied by the
//! process environment is used when it is a valid directive expression; the
//! fixed fallback is the `Info` severity.

use vstd::prelude::*;
use vstd::utf8::is_ascii_chars;

use crate::config::LevelInner;

verus! {

/// The rendering of an ASCII severity-filter directive expression after
/// parsing, or `None` when the expression is invalid. The directive
/// expression language itself is an outside collaborator; only its
/// interface is named here, and it is consulted on ASCII expressions only.
pub uninterp spec fn rendered_filter(s: Seq<char>) -> Option<Seq<char>>;

/// Relies on `tracing_subscriber::EnvFilter::try_new`, which accepts or
/// rejects a directive expression, and on the `Display` rendering of the
/// parsed filter; both depend on the expression alone. Only ASCII
/// expressions may be handed to it: the directive parser indexes the
/// untrimmed directive text with character indices of its trimmed form, so
/// a directive with leading whitespace and a multibyte character makes the
/// slicing panic, while on ASCII every byte index is a character boundary
/// and the call returns without panicking.
#[verifier::external_body]
fn parse_filter_expr(s: &str) -> (r: Option<String>)
    requires
        is_ascii_chars(s@),
    ensures
        r is Some <==> rendered_filter(s@) is Some,
        r matches Some(t) ==> rendered_filter(s@) == Some(t@),
{
    match tracing_subscriber::EnvFilter::try_new(s) {
        Ok(f) => Some(f.to_string()),
        Err(_) => None,
    }
}

/// ASCII lower-casing of one character; everything but `'A'..='Z'` is kept.
pub open spec fn spec_char_lower(c: char) -> char {
    if 'A' <= c && c <= 'Z' {
        ((c as u32) + 32) as char
    } else {
        c
    }
}

/// ASCII lower-casing of a character sequence.
pub open spec fn lower_seq(s: Seq<char>) -> Seq<char> {
    s.map_values(|c: char| spec_char_lower(c))
}

/// Executable ASCII lower-casing of one character.
fn char_lower(c: char) -> (r: char)
    ensures
        r == spec_char_lower(c),
{
    if 'A' <= c && c <= 'Z' {
        (((c as u32) + 32) as u8) as char
    } else {
        c
    }
}

/// Compares two strings ignoring ASCII case.
fn eq_ignore_case(s: &str, t: &str) -> (r: bool)
    ensures
        r == (lower_seq(s@) == lower_seq(t@)),
{
    let n = s.unicode_len();
    let m = t.unicode_len();
    if n != m {
        proof {
            assert(lower_seq(s@).len() != lower_seq(t@).len());
        }
        return false;
    }
    let mut i: usize = 0;
    while i < n
        invariant
            i <= n,
            n == s@.len(),
            n == t@.len(),
            forall|j: int| 0 <= j < i ==> spec_char_lower(s@[j]) == spec_char_lower(t@[j]),
        decreases n - i,
    {
        let a = char_lower(s.get_char(i));
        let b = char_lower(t.get_char(i));
        if a != b {
            proof {
                assert(lower_seq(s@)[i as int] != lower_seq(t@)[i as int]);
            }
            return false;
        }
        i = i + 1;
    }
    proof {
        assert(lower_seq(s@) =~= lower_seq(t@));
    }
    true
}

/// The severity named by `s`, compared ignoring ASCII case.
pub open spec fn spec_severity_from_name(s: Seq<char>) -> Option<LevelInner> {
    if lower_seq(s) == "trace"@ {
        Some(LevelInner::Trace)
    } else if lower_seq(s) == "debug"@ {
        Some(LevelInner::Debug)
    } else if lower_seq(s) == "info"@ {
        Some(LevelInner::Info)
    } else if lower_seq(s) == "warn"@ {
        Some(LevelInner::Warn)
    } else if lower_seq(s) == "error"@ {
        Some(LevelInner::Error)
    } else {
        None
    }
}

/// The five severity names are ASCII.
proof fn lemma_level_names_ascii()
    ensures
        is_ascii_chars("trace"@),
        is_ascii_chars("debug"@),
        is_ascii_chars("info"@),
        is_ascii_chars("warn"@),
        is_ascii_chars("error"@),
{
    reveal_strlit("trace");
    reveal_strlit("debug");
    reveal_strlit("info");
    reveal_strlit("warn");
    reveal_strlit("error");
}

/// The five severity names are already lower case.
proof fn lemma_level_names_lowercase()
    ensures
        lower_seq("trace"@) == "trace"@,
        lower_seq("debug"@) == "debug"@,
        lower_seq("info"@) == "info"@,
        lower_seq("warn"@) == "warn"@,
        lower_seq("error"@) == "error"@,
{
    reveal_strlit("trace");
    reveal_strlit("debug");
    reveal_strlit("info");
    reveal_strlit("warn");
    reveal_strlit("error");
    assert(lower_seq("trace"@) =~= "trace"@);
    assert(lower_seq("debug"@) =~= "debug"@);
    assert(lower_seq("info"@) =~= "info"@);
    assert(lower_seq("warn"@) =~= "warn"@);
    assert(lower_seq("error"@) =~= "error"@);
}

/// Parses a severity name, ignoring ASCII case.
pub fn severity_from_name(s: &str) -> (r: Option<LevelInner>)
    ensures
        r == spec_severity_from_name(s@),
{
    proof {
        lemma_level_names_lowercase();
    }
    if eq_ignore_case(s, "trace") {
        Some(LevelInner::Trace)
    } else if eq_ignore_case(s, "debug") {
        Some(LevelInner::Debug)
    } else if eq_ignore_case(s, "info") {
        Some(LevelInner::Info)
    } else if eq_ignore_case(s, "warn") {
        Some(LevelInner::Warn)
    } else if eq_ignore_case(s, "error") {
        Some(LevelInner::Error)
    } else {
        None
    }
}

/// The effective global severity filter: either one severity, or a directive
/// expression taken from the environment (kept in its rendered form).
#[derive(Clone, Debug, PartialEq, Eq)]
pub enum EffectiveFilter {
    /// A filter built from a single severity.
    Level(LevelInner),
    /// A rendered directive expression from the environment.
    Expr(String),
}

/// The view of an optional string argument.
pub open spec fn opt_str_view(o: Option<&String>) -> Option<Seq<char>> {
    match o {
        Some(s) => Some(s@),
        None => None,
    }
}

/// What the resolved filter must be, given the configured severity and the
/// environment-supplied expression: the configured severity always takes
/// precedence; an invalid severity name or expression, a non-ASCII
/// expression (never handed to the directive parser), or an absent one,
/// falls back to the fixed `Info` default.
pub open spec fn filter_resolution_ok(
    level: Option<LevelInner>,
    env: Option<Seq<char>>,
    r: EffectiveFilter,
) -> bool {
    match level {
        Some(l) => r == EffectiveFilter::Level(
            if rendered_filter(l.spec_name()) is Some {
                l
            } else {
                LevelInner::Info
            },
        ),
        None => match env {
            Some(e) => if !is_ascii_chars(e) {
                r == EffectiveFilter::Level(LevelInner::Info)
            } else {
                match rendered_filter(e) {
                    Some(t) => r matches EffectiveFilter::Expr(s) && s@ == t,
                    None => r == EffectiveFilter::Level(LevelInner::Info),
                }
            },
            None => r == EffectiveFilter::Level(LevelInner::Info),
        },
    }
}

/// Resolves the effective global severity filter.
pub fn resolve_filter(level: Option<LevelInner>, env_expr: Option<&String>) -> (r: EffectiveFilter)
    ensures
        filter_resolution_ok(level, opt_str_view(env_expr), r),
{
    match level {
        Some(l) => {
            proof {
                lemma_level_names_ascii();
            }
            match parse_filter_expr(l.name()) {
                Some(_) => EffectiveFilter::Level(l),
                None => EffectiveFilter::Level(LevelInner::Info),
            }
        },
        None => match env_expr {
            Some(e) => {
                if e.as_str().is_ascii() {
                    match parse_filter_expr(e.as_str()) {
                        Some(t) => EffectiveFilter::Expr(t),
                        None => EffectiveFilter::Level(LevelInner::Info),
                    }
                } else {
                    EffectiveFilter::Level(LevelInner::Info)
                }
            },
            None => EffectiveFilter::Level(LevelInner::Info),
        },
    }
}

impl EffectiveFilter {
    /// The single severity that the filter pins down: the severity itself,
    /// or the severity named by the rendered expression, if any.
    pub open spec fn spec_ceiling(self) -> Option<LevelInner> {
        match self {
            EffectiveFilter::Level(l) => Some(l),
            EffectiveFilter::Expr(s) => spec_severity_from_name(s@),
        }
    }

    /// Extracts the single severity that the filter pins down, if any.
    pub fn ceiling(&self) -> (r: Option<LevelInner>)
        ensures
            r == self.spec_ceiling(),
    {
        match self {
            EffectiveFilter::Level(l) => Some(*l),
            EffectiveFilter::Expr(s) => severity_from_name(s.as_str()),
        }
    }
}

} // verus!
