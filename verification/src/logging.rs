//! The log level that the environment asks for.
use vstd::prelude::*;
use crate::env::Env;
use crate::text::{str_eq, trim_string};

verus! {

/// The levels a logger can filter at, most quiet first.
#[derive(Clone, Copy, Debug, PartialEq, Eq, Structural)]
pub enum LogLevel {
    Off,
    Error,
    Warn,
    Info,
    Debug,
    Trace,
}

/// The level that a trimmed, lowercased `$OPENCLAW_LOG_LEVEL` names.
pub open spec fn level_named(name: Seq<char>) -> LogLevel {
    if name == "trace"@ {
        LogLevel::Trace
    } else if name == "debug"@ {
        LogLevel::Debug
    } else if name == "info"@ {
        LogLevel::Info
    } else if name == "warn"@ || name == "warning"@ {
        LogLevel::Warn
    } else if name == "error"@ {
        LogLevel::Error
    } else if name == "off"@ {
        LogLevel::Off
    } else {
        LogLevel::Info
    }
}

/// What `to_ascii_lowercase` makes of a character.
pub open spec fn ascii_lower(c: char) -> char {
    if 'A' <= c && c <= 'Z' {
        ((c as int) + 32) as char
    } else {
        c
    }
}

pub open spec fn ascii_lowercase(s: Seq<char>) -> Seq<char> {
    s.map_values(|c: char| ascii_lower(c))
}

/// `resolve_level`: the level `$OPENCLAW_LOG_LEVEL` names (trimmed, ASCII
/// case ignored), `info` where it is unset or names none.
pub open spec fn resolved_level(env: &Env) -> LogLevel {
    match env.get("OPENCLAW_LOG_LEVEL"@) {
        Some(v) => level_named(ascii_lowercase(crate::text::trim(v))),
        None => LogLevel::Info,
    }
}

fn to_ascii_lowercase(s: &str) -> (r: String)
    ensures
        r@ == ascii_lowercase(s@),
{
    let n = s.unicode_len();
    let mut out = String::new();
    let mut i: usize = 0;
    while i < n
        invariant
            n == s@.len(),
            i <= n,
            out@ =~= ascii_lowercase(s@.take(i as int)),
        decreases n - i,
    {
        let c = s.get_char(i);
        let ghost before = out@;
        if 'A' <= c && c <= 'Z' {
            let l = lower_letter(c);
            out.append(l);
        } else {
            out.append(s.substring_char(i, i + 1));
            assert(s@.subrange(i as int, i + 1) =~= seq![c]);
        }
        proof {
            assert(s@.take(i + 1) =~= s@.take(i as int).push(c));
            assert(ascii_lowercase(s@.take(i + 1)) =~= ascii_lowercase(s@.take(i as int)).push(ascii_lower(c)));
        }
        i = i + 1;
    }
    assert(s@.take(n as int) =~= s@);
    out
}

fn lower_letter(c: char) -> (r: &'static str)
    requires
        'A' <= c && c <= 'Z',
    ensures
        r@ == seq![ascii_lower(c)],
{
    let alphabet = "abcdefghijklmnopqrstuvwxyz";
    proof {
        reveal_strlit("abcdefghijklmnopqrstuvwxyz");
    }
    let k = (c as u32 - 'A' as u32) as usize;
    let r = alphabet.substring_char(k, k + 1);
    assert(r@ =~= seq![alphabet@[k as int]]);
    r
}

pub fn resolve_level(env: &Env) -> (r: LogLevel)
    ensures
        r == resolved_level(env),
{
    proof {
        reveal_strlit("OPENCLAW_LOG_LEVEL");
        reveal_strlit("trace");
        reveal_strlit("debug");
        reveal_strlit("info");
        reveal_strlit("warn");
        reveal_strlit("warning");
        reveal_strlit("error");
        reveal_strlit("off");
    }
    let raw = match env.var("OPENCLAW_LOG_LEVEL") {
        Some(v) => v,
        None => return LogLevel::Info,
    };
    let t = trim_string(raw.as_str());
    let name = to_ascii_lowercase(t.as_str());
    let n = name.as_str();
    if str_eq(n, "trace") {
        LogLevel::Trace
    } else if str_eq(n, "debug") {
        LogLevel::Debug
    } else if str_eq(n, "info") {
        LogLevel::Info
    } else if str_eq(n, "warn") || str_eq(n, "warning") {
        LogLevel::Warn
    } else if str_eq(n, "error") {
        LogLevel::Error
    } else if str_eq(n, "off") {
        LogLevel::Off
    } else {
        LogLevel::Info
    }
}

} // verus!
