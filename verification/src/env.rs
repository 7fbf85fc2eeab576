//! The process environment and file paths, as the configuration logic reads them.
use vstd::prelude::*;
use crate::text::{starts_with, trimmed_nonempty, trimmed_or_none};

verus! {

/// A snapshot of the environment variables whose names and values are
/// Unicode, in the order the process lists them.
pub struct Env {
    pub vars: Vec<(String, String)>,
}

/// The value of the first variable named `key`.
pub open spec fn env_lookup(vars: Seq<(String, String)>, key: Seq<char>) -> Option<Seq<char>>
    decreases vars.len(),
{
    if vars.len() == 0 {
        None
    } else if vars[0].0@ == key {
        Some(vars[0].1@)
    } else {
        env_lookup(vars.drop_first(), key)
    }
}

/// The optional string's characters.
pub open spec fn opt_str(o: Option<String>) -> Option<Seq<char>> {
    match o {
        Some(s) => Some(s@),
        None => None,
    }
}

impl Env {
    /// `std::env::var(key).ok()`.
    pub open spec fn get(&self, key: Seq<char>) -> Option<Seq<char>> {
        env_lookup(self.vars@, key)
    }

    /// The variable's value, trimmed, where that is not empty.
    pub open spec fn trimmed(&self, key: Seq<char>) -> Option<Seq<char>> {
        match self.get(key) {
            Some(v) => trimmed_nonempty(v),
            None => None,
        }
    }

    /// An environment with no variables.
    pub fn empty() -> (r: Env)
        ensures
            r.vars@.len() == 0,
    {
        Env { vars: Vec::new() }
    }

    /// Adds a variable at the end of the list.
    pub fn push(&mut self, key: String, value: String)
        ensures
            final(self).vars@ == old(self).vars@.push((key, value)),
    {
        self.vars.push((key, value));
    }

    /// `std::env::var(key).ok()`.
    pub fn var(&self, key: &str) -> (r: Option<String>)
        ensures
            opt_str(r) == self.get(key@),
    {
        let k = String::from_str(key);
        let mut i: usize = 0;
        assert(self.vars@.skip(0) =~= self.vars@);
        while i < self.vars.len()
            invariant
                k@ == key@,
                i <= self.vars@.len(),
                env_lookup(self.vars@, key@) == env_lookup(self.vars@.skip(i as int), key@),
            decreases self.vars@.len() - i,
        {
            proof {
                assert(self.vars@.skip(i as int).drop_first() =~= self.vars@.skip(i + 1));
            }
            if self.vars[i].0 == k {
                return Some(self.vars[i].1.clone());
            }
            i = i + 1;
        }
        None
    }

    /// The variable's value, trimmed, where that is not empty.
    pub fn var_trimmed(&self, key: &str) -> (r: Option<String>)
        ensures
            opt_str(r) == self.trimmed(key@),
    {
        match self.var(key) {
            Some(v) => trimmed_or_none(v.as_str()),
            None => None,
        }
    }
}

/// `PathBuf::join` on Unix: an absolute `name` replaces `dir`; otherwise a
/// `/` goes between them unless `dir` is empty or already ends with one.
pub open spec fn path_join(dir: Seq<char>, name: Seq<char>) -> Seq<char> {
    if name.len() > 0 && name[0] == '/' {
        name
    } else if dir.len() == 0 {
        name
    } else if dir.last() == '/' {
        dir + name
    } else {
        dir + seq!['/'] + name
    }
}

pub fn join_path(dir: &str, name: &str) -> (r: String)
    ensures
        r@ == path_join(dir@, name@),
{
    proof {
        reveal_strlit("/");
        assert("/"@ =~= seq!['/']);
    }
    if name.unicode_len() > 0 && name.get_char(0) == '/' {
        return String::from_str(name);
    }
    let n = dir.unicode_len();
    if n == 0 {
        return String::from_str(name);
    }
    if dir.get_char(n - 1) == '/' {
        String::from_str(dir).concat(name)
    } else {
        String::from_str(dir).concat("/").concat(name)
    }
}

/// `expand_user_path`: a leading `~/` stands for `$HOME`, where that is set.
pub open spec fn expand_user(env: &Env, input: Seq<char>) -> Seq<char> {
    if input.len() >= 2 && input[0] == '~' && input[1] == '/' && env.get("HOME"@) is Some {
        path_join(env.get("HOME"@)->0, input.skip(2))
    } else {
        input
    }
}

pub fn expand_user_path(env: &Env, input: &str) -> (r: String)
    ensures
        r@ == expand_user(env, input@),
{
    proof {
        reveal_strlit("~/");
        reveal_strlit("HOME");
        assert("~/"@ =~= seq!['~', '/']);
    }
    let is_tilde = starts_with(input, "~/");
    assert(is_tilde == (input@.len() >= 2 && input@[0] == '~' && input@[1] == '/')) by {
        if input@.len() >= 2 {
            assert(input@.subrange(0, 2) =~= seq![input@[0], input@[1]]);
        }
        if is_tilde {
            assert(input@.subrange(0, 2)[0] == '~');
            assert(input@.subrange(0, 2)[1] == '/');
        }
    }
    if is_tilde {
        match env.var("HOME") {
            Some(home) => {
                let n = input.unicode_len();
                let rest = input.substring_char(2, n);
                return join_path(home.as_str(), rest);
            },
            None => {},
        }
    }
    String::from_str(input)
}

/// `default_state_dirs`: the four state directories under `$HOME`, or none.
pub open spec fn default_state_dirs(env: &Env) -> Seq<Seq<char>> {
    match env.get("HOME"@) {
        Some(h) => seq![
            path_join(h, ".openclaw"@),
            path_join(h, ".clawdbot"@),
            path_join(h, ".moldbot"@),
            path_join(h, ".moltbot"@),
        ],
        None => Seq::empty(),
    }
}

pub open spec fn str_views(v: Seq<String>) -> Seq<Seq<char>> {
    v.map_values(|s: String| s@)
}

pub fn default_state_dir_list(env: &Env) -> (r: Vec<String>)
    ensures
        str_views(r@) == default_state_dirs(env),
{
    proof {
        reveal_strlit("HOME");
    }
    let mut r: Vec<String> = Vec::new();
    match env.var("HOME") {
        Some(h) => {
            r.push(join_path(h.as_str(), ".openclaw"));
            r.push(join_path(h.as_str(), ".clawdbot"));
            r.push(join_path(h.as_str(), ".moldbot"));
            r.push(join_path(h.as_str(), ".moltbot"));
        },
        None => {},
    }
    assert(str_views(r@) =~= default_state_dirs(env));
    r
}

/// The state directory that the environment names, expanded.
pub open spec fn env_state_dir(env: &Env) -> Option<Seq<char>> {
    match env.trimmed("OPENCLAW_STATE_DIR"@) {
        Some(p) => Some(expand_user(env, p)),
        None => match env.trimmed("CLAWDBOT_STATE_DIR"@) {
            Some(p) => Some(expand_user(env, p)),
            None => None,
        },
    }
}

fn env_state_dir_exec(env: &Env) -> (r: Option<String>)
    ensures
        opt_str(r) == env_state_dir(env),
{
    let named = match env.var_trimmed("OPENCLAW_STATE_DIR") {
        Some(p) => Some(p),
        None => env.var_trimmed("CLAWDBOT_STATE_DIR"),
    };
    match named {
        Some(p) => Some(expand_user_path(env, p.as_str())),
        None => None,
    }
}

/// `resolve_state_dir`.
pub open spec fn state_dir(env: &Env) -> Seq<char> {
    match env_state_dir(env) {
        Some(d) => d,
        None => if default_state_dirs(env).len() > 0 {
            default_state_dirs(env)[0]
        } else {
            "."@
        },
    }
}

/// The directory that holds the app's state: `$OPENCLAW_STATE_DIR`, else
/// `$CLAWDBOT_STATE_DIR` (a leading `~/` expanded), else `$HOME/.openclaw`,
/// else `.`.
pub fn resolve_state_dir(env: &Env) -> (r: String)
    ensures
        r@ == state_dir(env),
{
    proof {
        reveal_strlit(".");
    }
    match env_state_dir_exec(env) {
        Some(d) => d,
        None => {
            let mut dirs = default_state_dir_list(env);
            if dirs.len() > 0 {
                dirs.remove(0)
            } else {
                String::from_str(".")
            }
        },
    }
}

} // verus!
