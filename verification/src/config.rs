//! The gateway configuration: where it lives, what it says, and how the
//! connection choice and the local auth token are written into it.
use vstd::prelude::*;
use crate::env::{
    Env, default_state_dir_list, default_state_dirs, env_state_dir, expand_user, expand_user_path,
    join_path, opt_str, path_join, resolve_state_dir, state_dir, str_views,
};
use crate::json::{
    JsonValue, JsonView, child_object, empty_object, json5_parse, merge, merge_into,
    object_insert, object_remove, opt_view, parse_json5_text,
};
use crate::json::{distinct_keys, law_get_after_insert, law_get_after_remove, law_merge_get, lemma_edit_keeps_distinct};
use crate::encoding::{base64_url, lemma_base64_url_plain};
use crate::text::{
    is_ws, lemma_trim_fixed, lemma_trim_idempotent, decimal, parse_u16, parse_u16_spec, starts_with, str_eq, trim, trim_string, trimmed_nonempty,
    trimmed_or_none, u64_to_decimal,
};

verus! {

/// How the app reaches its gateway.
#[derive(Clone, Copy, Debug, Default, PartialEq, Eq, Structural)]
pub enum GatewayMode {
    Local,
    Remote,
    #[default]
    Unconfigured,
}

/// The resolved gateway settings.
#[derive(Clone, Debug, Default)]
pub struct GatewayConfig {
    pub mode: GatewayMode,
    pub port: u16,
    pub url: Option<String>,
    pub token: Option<String>,
    pub password: Option<String>,
    pub remote_url: Option<String>,
    pub remote_target: Option<String>,
    pub remote_identity: Option<String>,
}

/// The connection choice that onboarding writes back.
#[derive(Clone, Debug, Default)]
pub struct GatewayConnectionUpdate {
    pub mode: GatewayMode,
    pub remote_url: Option<String>,
    pub remote_target: Option<String>,
    pub remote_identity: Option<String>,
}

/// `value_as_trimmed_str`: a string value, trimmed, where that is not empty.
pub open spec fn trimmed_str(v: Option<JsonView>) -> Option<Seq<char>> {
    match v {
        Some(x) => match x.as_str() {
            Some(s) => trimmed_nonempty(s),
            None => None,
        },
        None => None,
    }
}

/// The value at `root.gateway.<key>`.
pub open spec fn gateway_get(root: JsonView, key: Seq<char>) -> Option<JsonView> {
    match root.get("gateway"@) {
        Some(g) => g.get(key),
        None => None,
    }
}

/// The value at `root.gateway.<section>.<key>`.
pub open spec fn gateway_section_get(root: JsonView, section: Seq<char>, key: Seq<char>) -> Option<JsonView> {
    match gateway_get(root, section) {
        Some(s) => s.get(key),
        None => None,
    }
}

/// `resolve_remote_field`.
pub open spec fn remote_field(root: JsonView, key: Seq<char>) -> Option<Seq<char>> {
    trimmed_str(gateway_section_get(root, "remote"@, key))
}

/// `parse_gateway_mode`: `gateway.mode` where it names a mode; otherwise
/// remote where a remote URL is set, else unconfigured.
pub open spec fn gateway_mode(root: JsonView) -> GatewayMode {
    let m = trimmed_str(gateway_get(root, "mode"@));
    if m == Some("local"@) {
        GatewayMode::Local
    } else if m == Some("remote"@) {
        GatewayMode::Remote
    } else if m == Some("unconfigured"@) {
        GatewayMode::Unconfigured
    } else if remote_field(root, "url"@) is Some {
        GatewayMode::Remote
    } else {
        GatewayMode::Unconfigured
    }
}

/// `resolve_local_port`: `$OPENCLAW_GATEWAY_PORT` where it parses, else
/// `gateway.port` where it is an integer that fits, else 18789.
pub open spec fn local_port(env: &Env, root: JsonView) -> u16 {
    let from_env = match env.trimmed("OPENCLAW_GATEWAY_PORT"@) {
        Some(raw) => parse_u16_spec(raw),
        None => None,
    };
    match from_env {
        Some(p) => p,
        None => match gateway_get(root, "port"@) {
            Some(v) => match v.as_u64() {
                Some(n) => if n <= 65535 {
                    n as u16
                } else {
                    18789
                },
                None => 18789,
            },
            None => 18789,
        },
    }
}

/// `resolve_gateway_url`.
pub open spec fn gateway_url(root: JsonView, mode: GatewayMode, port: u16, remote_url: Option<Seq<char>>) -> Option<Seq<char>> {
    match mode {
        GatewayMode::Remote => remote_url,
        GatewayMode::Local => {
            let custom = if trimmed_str(gateway_get(root, "bind"@)) == Some("custom"@) {
                trimmed_str(gateway_get(root, "customBindHost"@))
            } else {
                None
            };
            let host = match custom {
                Some(h) => h,
                None => "127.0.0.1"@,
            };
            Some("ws://"@ + host + ":"@ + decimal(port as nat))
        },
        GatewayMode::Unconfigured => None,
    }
}

/// `s` with every leading copy of `p` removed (`trim_start_matches`).
pub open spec fn strip_all_prefix(s: Seq<char>, p: Seq<char>) -> Seq<char>
    decreases s.len(),
{
    if p.len() > 0 && p.len() <= s.len() && s.subrange(0, p.len() as int) == p {
        strip_all_prefix(s.skip(p.len() as int), p)
    } else {
        s
    }
}

/// `s` with every trailing `c` removed (`trim_end_matches`).
pub open spec fn strip_all_suffix(s: Seq<char>, c: char) -> Seq<char>
    decreases s.len(),
{
    if s.len() > 0 && s.last() == c {
        strip_all_suffix(s.drop_last(), c)
    } else {
        s
    }
}

/// `expand_env_value`: a value written `${NAME}` stands for the trimmed
/// environment variable `NAME`.
pub open spec fn expand_env(env: &Env, value: Option<Seq<char>>) -> Option<Seq<char>> {
    match value {
        Some(raw) => {
            let t = trim(raw);
            if t.len() >= 2 && t[0] == '$' && t[1] == '{' && t.last() == '}' {
                env.trimmed(strip_all_suffix(strip_all_prefix(t, "${"@), '}'))
            } else {
                Some(raw)
            }
        },
        None => None,
    }
}

/// The gateway's token (`field` "token") or password (`field` "password"):
/// from `gateway.remote` in remote mode, else from `gateway.auth`.
pub open spec fn gateway_secret(env: &Env, root: JsonView, mode: GatewayMode, field: Seq<char>) -> Option<Seq<char>> {
    let section = if mode == GatewayMode::Remote {
        "remote"@
    } else {
        "auth"@
    };
    expand_env(env, trimmed_str(gateway_section_get(root, section, field)))
}

/// The environment variable where it is set, else the configured value.
pub open spec fn env_or(env: &Env, key: Seq<char>, fallback: Option<Seq<char>>) -> Option<Seq<char>> {
    match env.trimmed(key) {
        Some(v) => Some(v),
        None => fallback,
    }
}

/// What `load_gateway_config` resolves from the environment and the
/// configuration document `root`.
pub open spec fn config_matches(c: GatewayConfig, env: &Env, root: JsonView) -> bool {
    let mode = gateway_mode(root);
    let port = local_port(env, root);
    let remote_url = remote_field(root, "url"@);
    &&& c.mode == mode
    &&& c.port == port
    &&& opt_str(c.remote_url) == remote_url
    &&& opt_str(c.remote_target) == remote_field(root, "sshTarget"@)
    &&& opt_str(c.remote_identity) == remote_field(root, "sshIdentity"@)
    &&& opt_str(c.url) == env_or(env, "OPENCLAW_GATEWAY_URL"@, gateway_url(root, mode, port, remote_url))
    &&& opt_str(c.token) == env_or(env, "OPENCLAW_GATEWAY_TOKEN"@, gateway_secret(env, root, mode, "token"@))
    &&& opt_str(c.password) == env_or(env, "OPENCLAW_GATEWAY_PASSWORD"@, gateway_secret(env, root, mode, "password"@))
}

/// The token and the password come from the same section of `gateway`:
/// `gateway.remote` in remote mode, `gateway.auth` in every other mode
/// (trimmed, `${VAR}` expanded), unless `$OPENCLAW_GATEWAY_TOKEN` or
/// `$OPENCLAW_GATEWAY_PASSWORD` is set, which then wins.
pub proof fn law_secrets_share_section(c: GatewayConfig, env: &Env, root: JsonView)
    requires
        config_matches(c, env, root),
    ensures
        env.trimmed("OPENCLAW_GATEWAY_PASSWORD"@) matches Some(v) ==> opt_str(c.password) == Some(v),
        env.trimmed("OPENCLAW_GATEWAY_TOKEN"@) matches Some(v) ==> opt_str(c.token) == Some(v),
        env.trimmed("OPENCLAW_GATEWAY_PASSWORD"@) is None && c.mode == GatewayMode::Remote ==> opt_str(c.password)
            == expand_env(env, trimmed_str(gateway_section_get(root, "remote"@, "password"@))),
        env.trimmed("OPENCLAW_GATEWAY_TOKEN"@) is None && c.mode == GatewayMode::Remote ==> opt_str(c.token)
            == expand_env(env, trimmed_str(gateway_section_get(root, "remote"@, "token"@))),
        env.trimmed("OPENCLAW_GATEWAY_PASSWORD"@) is None && c.mode != GatewayMode::Remote ==> opt_str(c.password)
            == expand_env(env, trimmed_str(gateway_section_get(root, "auth"@, "password"@))),
        env.trimmed("OPENCLAW_GATEWAY_TOKEN"@) is None && c.mode != GatewayMode::Remote ==> opt_str(c.token)
            == expand_env(env, trimmed_str(gateway_section_get(root, "auth"@, "token"@))),
{
}

pub fn value_as_trimmed_str(v: Option<&JsonValue>) -> (r: Option<String>)
    ensures
        opt_str(r) == trimmed_str(opt_view(v)),
{
    match v {
        Some(x) => match x.as_str() {
            Some(s) => trimmed_or_none(s.as_str()),
            None => None,
        },
        None => None,
    }
}

fn gateway_value<'a>(root: &'a JsonValue, key: &str) -> (r: Option<&'a JsonValue>)
    ensures
        opt_view(r) == gateway_get(root@, key@),
{
    proof {
        reveal_strlit("gateway");
    }
    match root.get("gateway") {
        Some(g) => g.get(key),
        None => None,
    }
}

fn gateway_section_value<'a>(root: &'a JsonValue, section: &str, key: &str) -> (r: Option<&'a JsonValue>)
    ensures
        opt_view(r) == gateway_section_get(root@, section@, key@),
{
    match gateway_value(root, section) {
        Some(s) => s.get(key),
        None => None,
    }
}

pub fn resolve_remote_field(root: &JsonValue, key: &str) -> (r: Option<String>)
    ensures
        opt_str(r) == remote_field(root@, key@),
{
    proof {
        reveal_strlit("remote");
    }
    value_as_trimmed_str(gateway_section_value(root, "remote", key))
}

fn is_literal(s: &Option<String>, lit: &str) -> (r: bool)
    ensures
        r == (opt_str(*s) == Some(lit@)),
{
    match s {
        Some(v) => str_eq(v.as_str(), lit),
        None => false,
    }
}

pub fn parse_gateway_mode(root: &JsonValue) -> (r: GatewayMode)
    ensures
        r == gateway_mode(root@),
{
    proof {
        reveal_strlit("mode");
        reveal_strlit("url");
    }
    let m = value_as_trimmed_str(gateway_value(root, "mode"));
    if is_literal(&m, "local") {
        GatewayMode::Local
    } else if is_literal(&m, "remote") {
        GatewayMode::Remote
    } else if is_literal(&m, "unconfigured") {
        GatewayMode::Unconfigured
    } else if resolve_remote_field(root, "url").is_some() {
        GatewayMode::Remote
    } else {
        GatewayMode::Unconfigured
    }
}

pub fn resolve_local_port(env: &Env, root: &JsonValue) -> (r: u16)
    ensures
        r == local_port(env, root@),
{
    proof {
        reveal_strlit("OPENCLAW_GATEWAY_PORT");
        reveal_strlit("port");
    }
    let from_env = match env.var_trimmed("OPENCLAW_GATEWAY_PORT") {
        Some(raw) => parse_u16(raw.as_str()),
        None => None,
    };
    match from_env {
        Some(p) => p,
        None => match gateway_value(root, "port") {
            Some(v) => match v.as_u64() {
                Some(n) => if n <= 65535 {
                    n as u16
                } else {
                    18789
                },
                None => 18789,
            },
            None => 18789,
        },
    }
}

pub fn resolve_gateway_url(root: &JsonValue, mode: GatewayMode, port: u16, remote_url: Option<String>) -> (r: Option<String>)
    ensures
        opt_str(r) == gateway_url(root@, mode, port, opt_str(remote_url)),
{
    proof {
        reveal_strlit("bind");
        reveal_strlit("customBindHost");
        reveal_strlit("ws://");
        reveal_strlit(":");
    }
    match mode {
        GatewayMode::Remote => remote_url,
        GatewayMode::Local => {
            let bind = value_as_trimmed_str(gateway_value(root, "bind"));
            let custom = if is_literal(&bind, "custom") {
                value_as_trimmed_str(gateway_value(root, "customBindHost"))
            } else {
                None
            };
            let host = match custom {
                Some(h) => h,
                None => String::from_str("127.0.0.1"),
            };
            let port_text = u64_to_decimal(port as u64);
            Some(String::from_str("ws://").concat(host.as_str()).concat(":").concat(port_text.as_str()))
        },
        GatewayMode::Unconfigured => None,
    }
}

fn strip_prefixes(s: &str, p: &str) -> (r: String)
    ensures
        r@ == strip_all_prefix(s@, p@),
    decreases s@.len(),
{
    let n = s.unicode_len();
    let m = p.unicode_len();
    if m > 0 && starts_with(s, p) {
        let rest = s.substring_char(m, n);
        assert(rest@ =~= s@.skip(m as int));
        strip_prefixes(rest, p)
    } else {
        String::from_str(s)
    }
}

fn strip_suffixes(s: &str, c: char) -> (r: String)
    ensures
        r@ == strip_all_suffix(s@, c),
    decreases s@.len(),
{
    let n = s.unicode_len();
    if n > 0 && s.get_char(n - 1) == c {
        let rest = s.substring_char(0, n - 1);
        assert(rest@ =~= s@.drop_last());
        strip_suffixes(rest, c)
    } else {
        String::from_str(s)
    }
}

pub fn expand_env_value(env: &Env, value: Option<String>) -> (r: Option<String>)
    ensures
        opt_str(r) == expand_env(env, opt_str(value)),
{
    proof {
        reveal_strlit("${");
        assert("${"@ =~= seq!['$', '{']);
    }
    match value {
        Some(raw) => {
            let t = trim_string(raw.as_str());
            let n = t.unicode_len();
            if n >= 2 && t.get_char(0) == '$' && t.get_char(1) == '{' && t.get_char(n - 1) == '}' {
                let a = strip_prefixes(t.as_str(), "${");
                let key = strip_suffixes(a.as_str(), '}');
                env.var_trimmed(key.as_str())
            } else {
                Some(raw)
            }
        },
        None => None,
    }
}

fn resolve_gateway_secret(env: &Env, root: &JsonValue, mode: GatewayMode, field: &str) -> (r: Option<String>)
    ensures
        opt_str(r) == gateway_secret(env, root@, mode, field@),
{
    proof {
        reveal_strlit("remote");
        reveal_strlit("auth");
    }
    let section = if mode == GatewayMode::Remote {
        "remote"
    } else {
        "auth"
    };
    expand_env_value(env, value_as_trimmed_str(gateway_section_value(root, section, field)))
}

fn env_or_else(env: &Env, key: &str, fallback: Option<String>) -> (r: Option<String>)
    ensures
        opt_str(r) == env_or(env, key@, opt_str(fallback)),
{
    match env.var_trimmed(key) {
        Some(v) => Some(v),
        None => fallback,
    }
}

/// Resolves the gateway settings from the environment and the configuration
/// document: the mode, port and remote fields come from the document (the
/// port may come from `$OPENCLAW_GATEWAY_PORT`); the URL, token and password
/// come from `$OPENCLAW_GATEWAY_URL`, `$OPENCLAW_GATEWAY_TOKEN` and
/// `$OPENCLAW_GATEWAY_PASSWORD` where those are set.
pub fn load_gateway_config(env: &Env, root: &JsonValue) -> (c: GatewayConfig)
    ensures
        config_matches(c, env, root@),
{
    proof {
        reveal_strlit("url");
        reveal_strlit("sshTarget");
        reveal_strlit("sshIdentity");
        reveal_strlit("token");
        reveal_strlit("password");
        reveal_strlit("OPENCLAW_GATEWAY_URL");
        reveal_strlit("OPENCLAW_GATEWAY_TOKEN");
        reveal_strlit("OPENCLAW_GATEWAY_PASSWORD");
    }
    let mode = parse_gateway_mode(root);
    let remote_url = resolve_remote_field(root, "url");
    let remote_target = resolve_remote_field(root, "sshTarget");
    let remote_identity = resolve_remote_field(root, "sshIdentity");
    let port = resolve_local_port(env, root);
    let remote_copy = match &remote_url {
        Some(u) => Some(u.clone()),
        None => None,
    };
    let url = env_or_else(env, "OPENCLAW_GATEWAY_URL", resolve_gateway_url(root, mode, port, remote_copy));
    let token = env_or_else(env, "OPENCLAW_GATEWAY_TOKEN", resolve_gateway_secret(env, root, mode, "token"));
    let password = env_or_else(
        env,
        "OPENCLAW_GATEWAY_PASSWORD",
        resolve_gateway_secret(env, root, mode, "password"),
    );
    GatewayConfig { mode, port, url, token, password, remote_url, remote_target, remote_identity }
}


/// The config path that the environment names, expanded.
pub open spec fn env_config_path(env: &Env) -> Option<Seq<char>> {
    match env.trimmed("OPENCLAW_CONFIG_PATH"@) {
        Some(p) => Some(expand_user(env, p)),
        None => match env.trimmed("CLAWDBOT_CONFIG_PATH"@) {
            Some(p) => Some(expand_user(env, p)),
            None => None,
        },
    }
}

/// The state directories searched for a config file.
pub open spec fn state_candidates(env: &Env) -> Seq<Seq<char>> {
    match env_state_dir(env) {
        Some(d) => seq![d],
        None => default_state_dirs(env),
    }
}

/// The config file names, in the order they are tried.
pub open spec fn config_names() -> Seq<Seq<char>> {
    seq!["openclaw.json"@, "clawdbot.json"@, "moldbot.json"@, "moltbot.json"@]
}

/// Every config file name under every directory, directory by directory.
pub open spec fn dir_candidates(dirs: Seq<Seq<char>>) -> Seq<Seq<char>>
    decreases dirs.len(),
{
    if dirs.len() == 0 {
        Seq::empty()
    } else {
        dir_candidates(dirs.drop_last()) + config_names().map_values(
            |n: Seq<char>| path_join(dirs.last(), n),
        )
    }
}

/// The files whose existence decides the config path, in order; none where
/// the environment names the path.
pub open spec fn config_candidates(env: &Env) -> Seq<Seq<char>> {
    if env_config_path(env) is Some {
        Seq::empty()
    } else {
        dir_candidates(state_candidates(env))
    }
}

/// The index of the first `true`, or -1.
pub open spec fn first_true(b: Seq<bool>) -> int
    decreases b.len(),
{
    if b.len() == 0 {
        -1
    } else if b[0] {
        0
    } else {
        let r = first_true(b.drop_first());
        if r < 0 {
            -1
        } else {
            r + 1
        }
    }
}

/// `resolve_config_path`, where `exists[i]` tells whether
/// `config_candidates(env)[i]` exists.
pub open spec fn config_path(env: &Env, exists: Seq<bool>) -> Option<Seq<char>> {
    match env_config_path(env) {
        Some(p) => Some(p),
        None => {
            let c = config_candidates(env);
            let i = first_true(exists);
            if 0 <= i < c.len() {
                Some(c[i])
            } else if state_candidates(env).len() > 0 {
                Some(path_join(state_candidates(env)[0], "openclaw.json"@))
            } else {
                None
            }
        },
    }
}

fn env_config_path_exec(env: &Env) -> (r: Option<String>)
    ensures
        opt_str(r) == env_config_path(env),
{
    let named = match env.var_trimmed("OPENCLAW_CONFIG_PATH") {
        Some(p) => Some(p),
        None => env.var_trimmed("CLAWDBOT_CONFIG_PATH"),
    };
    match named {
        Some(p) => Some(expand_user_path(env, p.as_str())),
        None => None,
    }
}

fn state_candidate_list(env: &Env) -> (r: Vec<String>)
    ensures
        str_views(r@) == state_candidates(env),
{
    proof {
        reveal_strlit("OPENCLAW_STATE_DIR");
        reveal_strlit("CLAWDBOT_STATE_DIR");
    }
    let named = match env.var_trimmed("OPENCLAW_STATE_DIR") {
        Some(p) => Some(p),
        None => env.var_trimmed("CLAWDBOT_STATE_DIR"),
    };
    match named {
        Some(p) => {
            let mut v: Vec<String> = Vec::new();
            v.push(expand_user_path(env, p.as_str()));
            assert(str_views(v@) =~= state_candidates(env));
            v
        },
        None => default_state_dir_list(env),
    }
}

/// The files whose existence decides where the config lives, in the order
/// they are tried; empty where `$OPENCLAW_CONFIG_PATH` or
/// `$CLAWDBOT_CONFIG_PATH` names the file.
pub fn config_file_candidates(env: &Env) -> (r: Vec<String>)
    ensures
        str_views(r@) == config_candidates(env),
{
    proof {
        reveal_strlit("openclaw.json");
        reveal_strlit("clawdbot.json");
        reveal_strlit("moldbot.json");
        reveal_strlit("moltbot.json");
    }
    let mut out: Vec<String> = Vec::new();
    if env_config_path_exec(env).is_some() {
        assert(str_views(out@) =~= Seq::empty());
        return out;
    }
    let dirs = state_candidate_list(env);
    let ghost dv = str_views(dirs@);
    let mut d: usize = 0;
    while d < dirs.len()
        invariant
            d <= dirs@.len(),
            dv == str_views(dirs@),
            str_views(out@) == dir_candidates(dv.take(d as int)),
        decreases dirs@.len() - d,
    {
        let dir = dirs[d].as_str();
        let ghost before = out@;
        out.push(join_path(dir, "openclaw.json"));
        out.push(join_path(dir, "clawdbot.json"));
        out.push(join_path(dir, "moldbot.json"));
        out.push(join_path(dir, "moltbot.json"));
        proof {
            assert(dv.take(d + 1).drop_last() =~= dv.take(d as int));
            assert(dv.take(d + 1).last() == dir@);
            assert(str_views(out@) =~= str_views(before) + config_names().map_values(
                |n: Seq<char>| path_join(dir@, n),
            ));
        }
        d = d + 1;
    }
    assert(dv.take(dirs@.len() as int) =~= dv);
    out
}

fn first_true_exec(b: &Vec<bool>) -> (r: Option<usize>)
    ensures
        match r {
            Some(i) => first_true(b@) == i,
            None => first_true(b@) < 0,
        },
{
    let mut i: usize = 0;
    assert(b@.skip(0) =~= b@);
    while i < b.len()
        invariant
            i <= b@.len(),
            first_true(b@) == (if first_true(b@.skip(i as int)) < 0 {
                -1
            } else {
                first_true(b@.skip(i as int)) + i
            }),
        decreases b@.len() - i,
    {
        assert(b@.skip(i as int).drop_first() =~= b@.skip(i + 1));
        if b[i] {
            return Some(i);
        }
        i = i + 1;
    }
    assert(b@.skip(i as int).len() == 0);
    None
}

/// `resolve_config_path`: the file that the environment names; else the
/// first candidate that exists (`exists[i]` for `config_file_candidates(env)[i]`);
/// else `openclaw.json` in the first state directory.
pub fn resolve_config_path(env: &Env, exists: &Vec<bool>) -> (r: Option<String>)
    ensures
        opt_str(r) == config_path(env, exists@),
{
    proof {
        reveal_strlit("openclaw.json");
    }
    match env_config_path_exec(env) {
        Some(p) => Some(p),
        None => {
            let mut cands = config_file_candidates(env);
            match first_true_exec(exists) {
                Some(i) => {
                    if i < cands.len() {
                        return Some(cands.remove(i));
                    }
                },
                None => {},
            }
            let dirs = state_candidate_list(env);
            if dirs.len() > 0 {
                Some(join_path(dirs[0].as_str(), "openclaw.json"))
            } else {
                None
            }
        },
    }
}

/// `override_config_path`: `openclaw.linux-app.json` in the state directory.
pub fn override_config_path(env: &Env) -> (r: String)
    ensures
        r@ == path_join(state_dir(env), "openclaw.linux-app.json"@),
{
    let dir = resolve_state_dir(env);
    join_path(dir.as_str(), "openclaw.linux-app.json")
}

/// Where the configuration is written first: the config path, else
/// `openclaw.json` in the state directory.
pub fn config_save_path(env: &Env, exists: &Vec<bool>) -> (r: String)
    ensures
        r@ == (match config_path(env, exists@) {
            Some(p) => p,
            None => path_join(state_dir(env), "openclaw.json"@),
        }),
{
    match resolve_config_path(env, exists) {
        Some(p) => p,
        None => {
            let dir = resolve_state_dir(env);
            join_path(dir.as_str(), "openclaw.json")
        },
    }
}

/// The configuration document: the primary file's
/// JSON5 (an empty object where it is missing or does not parse), with the
/// override file's JSON5 merged over it where that parses.
pub open spec fn config_root(primary: Option<Seq<char>>, overlay: Option<Seq<char>>) -> JsonView {
    let base = match primary {
        Some(t) => match json5_parse(t) {
            Some(v) => v,
            None => JsonView::Object(Seq::empty()),
        },
        None => JsonView::Object(Seq::empty()),
    };
    match overlay {
        Some(t) => match json5_parse(t) {
            Some(o) => merge(base, o),
            None => base,
        },
        None => base,
    }
}

/// The configuration document read from the texts of the primary and
/// override files (`None` where a file could not be read).
pub fn load_config_root(primary: Option<&str>, overlay: Option<&str>) -> (r: JsonValue)
    ensures
        r@ == config_root(
            match primary {
                Some(t) => Some(t@),
                None => None,
            },
            match overlay {
                Some(t) => Some(t@),
                None => None,
            },
        ),
{
    let mut root = match primary {
        Some(t) => match parse_json5_text(t) {
            Some(v) => v,
            None => empty_object(),
        },
        None => empty_object(),
    };
    match overlay {
        Some(t) => match parse_json5_text(t) {
            Some(o) => merge_into(&mut root, o),
            None => {},
        },
        None => {},
    }
    root
}


/// The name that the config file gives a mode.
pub open spec fn mode_name(m: GatewayMode) -> Seq<char> {
    match m {
        GatewayMode::Local => "local"@,
        GatewayMode::Remote => "remote"@,
        GatewayMode::Unconfigured => "unconfigured"@,
    }
}

fn mode_name_string(m: GatewayMode) -> (r: String)
    ensures
        r@ == mode_name(m),
{
    match m {
        GatewayMode::Local => String::from_str("local"),
        GatewayMode::Remote => String::from_str("remote"),
        GatewayMode::Unconfigured => String::from_str("unconfigured"),
    }
}

/// `upsert_trimmed`: the trimmed value where it is not empty, else the key
/// removed.
pub open spec fn upsert(obj: JsonView, key: Seq<char>, value: Option<Seq<char>>) -> JsonView {
    let t = match value {
        Some(v) => trimmed_nonempty(v),
        None => None,
    };
    match t {
        Some(v) => obj.insert(key, JsonView::Str(v)),
        None => obj.remove(key),
    }
}

fn upsert_trimmed(obj: &mut JsonValue, key: &str, value: &Option<String>)
    ensures
        final(obj)@ == upsert(old(obj)@, key@, opt_str(*value)),
{
    let t = match value {
        Some(v) => trimmed_or_none(v.as_str()),
        None => None,
    };
    match t {
        Some(v) => object_insert(obj, key, JsonValue::Str(v)),
        None => object_remove(obj, key),
    }
}

/// The document with a connection choice written in: `gateway.mode` set to the mode's
/// name, and in remote mode `gateway.remote.url`, `.sshTarget` and
/// `.sshIdentity` set to the trimmed values (or removed where a value is
/// missing or blank). A document that is not an object counts as empty.
pub open spec fn connection_updated(root: JsonView, u: GatewayConnectionUpdate) -> JsonView {
    let g = root.child_object("gateway"@).insert("mode"@, JsonView::Str(mode_name(u.mode)));
    let g2 = if u.mode == GatewayMode::Remote {
        let r = g.child_object("remote"@);
        let r2 = upsert(
            upsert(upsert(r, "url"@, opt_str(u.remote_url)), "sshTarget"@, opt_str(u.remote_target)),
            "sshIdentity"@,
            opt_str(u.remote_identity),
        );
        g.insert("remote"@, r2)
    } else {
        g
    };
    root.insert("gateway"@, g2)
}

/// The document with the connection choice `update` written in.
pub fn apply_connection_update(root: JsonValue, update: &GatewayConnectionUpdate) -> (r: JsonValue)
    ensures
        r@ == connection_updated(root@, *update),
{
    proof {
        reveal_strlit("gateway");
        reveal_strlit("mode");
        reveal_strlit("remote");
        reveal_strlit("url");
        reveal_strlit("sshTarget");
        reveal_strlit("sshIdentity");
    }
    let mut root = root;
    let mut gateway = child_object(&root, "gateway");
    object_insert(&mut gateway, "mode", JsonValue::Str(mode_name_string(update.mode)));
    if update.mode == GatewayMode::Remote {
        let mut remote = child_object(&gateway, "remote");
        upsert_trimmed(&mut remote, "url", &update.remote_url);
        upsert_trimmed(&mut remote, "sshTarget", &update.remote_target);
        upsert_trimmed(&mut remote, "sshIdentity", &update.remote_identity);
        object_insert(&mut gateway, "remote", remote);
    }
    object_insert(&mut root, "gateway", gateway);
    root
}

/// What the local gateway's auth settings (`gateway.auth`) hold.
pub enum LocalAuth {
    /// A token is set; it is used as it is.
    Token(String),
    /// No token, but a password is set: nothing is generated.
    Password,
    /// Neither is set: a token has to be generated and written.
    Missing,
}

/// The value at `root.gateway.auth.<key>`, trimmed, where it is a string
/// that is not blank.
pub open spec fn auth_field(root: JsonView, key: Seq<char>) -> Option<Seq<char>> {
    trimmed_str(root.child_object("gateway"@).child_object("auth"@).get(key))
}

/// Reads `gateway.auth`: a token where one is set, else whether a password
/// is set.
pub fn local_auth_state(root: &JsonValue) -> (r: LocalAuth)
    ensures
        match r {
            LocalAuth::Token(t) => auth_field(root@, "token"@) == Some(t@),
            LocalAuth::Password => auth_field(root@, "token"@) is None && auth_field(
                root@,
                "password"@,
            ) is Some,
            LocalAuth::Missing => auth_field(root@, "token"@) is None && auth_field(
                root@,
                "password"@,
            ) is None,
        },
{
    proof {
        reveal_strlit("gateway");
        reveal_strlit("auth");
        reveal_strlit("token");
        reveal_strlit("password");
    }
    let gateway = child_object(root, "gateway");
    let auth = child_object(&gateway, "auth");
    match value_as_trimmed_str(auth.get("token")) {
        Some(t) => LocalAuth::Token(t),
        None => if value_as_trimmed_str(auth.get("password")).is_some() {
            LocalAuth::Password
        } else {
            LocalAuth::Missing
        },
    }
}

/// The document with `gateway.auth.mode` set to `"token"` and
/// `gateway.auth.token` set to `token`.
pub open spec fn with_auth_token(root: JsonView, token: Seq<char>) -> JsonView {
    let g = root.child_object("gateway"@);
    let a = g.child_object("auth"@).insert("mode"@, JsonView::Str("token"@)).insert(
        "token"@,
        JsonView::Str(token),
    );
    root.insert("gateway"@, g.insert("auth"@, a))
}

/// The document with a generated `token` installed as the local gateway's
/// auth token.
pub fn install_local_auth_token(root: JsonValue, token: &str) -> (r: JsonValue)
    ensures
        r@ == with_auth_token(root@, token@),
{
    proof {
        reveal_strlit("gateway");
        reveal_strlit("auth");
        reveal_strlit("token");
        reveal_strlit("mode");
    }
    let mut root = root;
    let mut gateway = child_object(&root, "gateway");
    let mut auth = child_object(&gateway, "auth");
    object_insert(&mut auth, "mode", JsonValue::Str(String::from_str("token")));
    object_insert(&mut auth, "token", JsonValue::Str(String::from_str(token)));
    object_insert(&mut gateway, "auth", auth);
    object_insert(&mut root, "gateway", gateway);
    root
}


/// An optional value trimmed, none where it is missing or blank.
pub open spec fn opt_trimmed(v: Option<Seq<char>>) -> Option<Seq<char>> {
    match v {
        Some(x) => trimmed_nonempty(x),
        None => None,
    }
}

proof fn lemma_upsert(obj: JsonView, key: Seq<char>, value: Option<Seq<char>>, other: Seq<char>)
    ensures
        trimmed_str(upsert(obj, key, value).get(key)) == opt_trimmed(value),
        other != key ==> upsert(obj, key, value).get(other) == obj.get(other),
{
    match opt_trimmed(value) {
        Some(t) => {
            law_get_after_insert(obj, key, JsonView::Str(t), other);
            lemma_trim_idempotent(value->0);
        },
        None => {
            law_get_after_remove(obj, key, other);
        },
    }
}

proof fn lemma_mode_names()
    ensures
        forall|m: GatewayMode| trimmed_nonempty(#[trigger] mode_name(m)) == Some(mode_name(m)),
        "local"@ != "remote"@,
        "local"@ != "unconfigured"@,
        "remote"@ != "unconfigured"@,
{
    reveal_strlit("local");
    reveal_strlit("remote");
    reveal_strlit("unconfigured");
    assert(trim("local"@) == "local"@);
    assert(trim("remote"@) == "remote"@);
    assert(trim("unconfigured"@) == "unconfigured"@);
}

/// A saved connection reads back. The mode written by `apply_connection_update`
/// is the mode that `load_gateway_config` reads from the document;
/// in remote mode each remote field reads back trimmed, and as missing where
/// it was missing or blank.
pub proof fn law_connection_reads_back(root: JsonView, u: GatewayConnectionUpdate)
    ensures
        gateway_mode(connection_updated(root, u)) == u.mode,
        u.mode == GatewayMode::Remote ==> {
            &&& remote_field(connection_updated(root, u), "url"@) == opt_trimmed(opt_str(u.remote_url))
            &&& remote_field(connection_updated(root, u), "sshTarget"@) == opt_trimmed(opt_str(u.remote_target))
            &&& remote_field(connection_updated(root, u), "sshIdentity"@) == opt_trimmed(
                opt_str(u.remote_identity),
            )
        },
{
    reveal_strlit("gateway");
    reveal_strlit("mode");
    reveal_strlit("remote");
    reveal_strlit("url");
    reveal_strlit("sshTarget");
    reveal_strlit("sshIdentity");
    lemma_mode_names();
    assert("url"@.len() == 3 && "sshTarget"@.len() == 9 && "sshIdentity"@.len() == 11);
    assert("mode"@.len() == 4 && "remote"@.len() == 6);
    let name = JsonView::Str(mode_name(u.mode));
    let g = root.child_object("gateway"@).insert("mode"@, name);
    law_get_after_insert(root.child_object("gateway"@), "mode"@, name, "mode"@);
    if u.mode == GatewayMode::Remote {
        let r = g.child_object("remote"@);
        let r1 = upsert(r, "url"@, opt_str(u.remote_url));
        let r2 = upsert(r1, "sshTarget"@, opt_str(u.remote_target));
        let r3 = upsert(r2, "sshIdentity"@, opt_str(u.remote_identity));
        let g2 = g.insert("remote"@, r3);
        law_get_after_insert(root, "gateway"@, g2, "gateway"@);
        law_get_after_insert(g, "remote"@, r3, "mode"@);
        lemma_upsert(r, "url"@, opt_str(u.remote_url), "url"@);
        lemma_upsert(r1, "sshTarget"@, opt_str(u.remote_target), "url"@);
        lemma_upsert(r2, "sshIdentity"@, opt_str(u.remote_identity), "url"@);
        lemma_upsert(r2, "sshIdentity"@, opt_str(u.remote_identity), "sshTarget"@);
        lemma_upsert(r1, "sshTarget"@, opt_str(u.remote_target), "sshTarget"@);
        lemma_upsert(r2, "sshIdentity"@, opt_str(u.remote_identity), "sshIdentity"@);
        assert(gateway_get(connection_updated(root, u), "mode"@) == Some(name));
        assert(gateway_get(connection_updated(root, u), "remote"@) == Some(r3));
        assert(gateway_section_get(connection_updated(root, u), "remote"@, "url"@) == r3.get("url"@));
        assert(gateway_section_get(connection_updated(root, u), "remote"@, "sshTarget"@) == r3.get("sshTarget"@));
        assert(gateway_section_get(connection_updated(root, u), "remote"@, "sshIdentity"@) == r3.get("sshIdentity"@));

    } else {
        law_get_after_insert(root, "gateway"@, g, "gateway"@);
        assert(gateway_get(connection_updated(root, u), "mode"@) == Some(name));
    }
}

/// Saving a connection touches nothing else: every top-level key but
/// `gateway` reads as before; under `gateway` every key but `mode` and
/// `remote` reads as it did in the gateway object; and in remote mode every
/// key of `gateway.remote` but `url`, `sshTarget` and `sshIdentity` reads as
/// before. (A `gateway` or `remote` member that was not an object counts as
/// an empty one.)
pub proof fn law_connection_keeps_other_keys(root: JsonView, u: GatewayConnectionUpdate, k: Seq<char>)
    ensures
        k != "gateway"@ ==> connection_updated(root, u).get(k) == root.get(k),
        k != "mode"@ && k != "remote"@ ==> gateway_get(connection_updated(root, u), k)
            == root.child_object("gateway"@).get(k),
        u.mode == GatewayMode::Remote && k != "url"@ && k != "sshTarget"@ && k != "sshIdentity"@
            ==> gateway_section_get(connection_updated(root, u), "remote"@, k)
            == root.child_object("gateway"@).child_object("remote"@).get(k),
{
    reveal_strlit("gateway");
    reveal_strlit("mode");
    reveal_strlit("remote");
    reveal_strlit("url");
    reveal_strlit("sshTarget");
    reveal_strlit("sshIdentity");
    assert("mode"@.len() == 4 && "remote"@.len() == 6);
    let gw = root.child_object("gateway"@);
    let name = JsonView::Str(mode_name(u.mode));
    let g = gw.insert("mode"@, name);
    law_get_after_insert(gw, "mode"@, name, k);
    law_get_after_insert(gw, "mode"@, name, "remote"@);
    if u.mode == GatewayMode::Remote {
        let r = g.child_object("remote"@);
        assert(r == gw.child_object("remote"@));
        let r1 = upsert(r, "url"@, opt_str(u.remote_url));
        let r2 = upsert(r1, "sshTarget"@, opt_str(u.remote_target));
        let r3 = upsert(r2, "sshIdentity"@, opt_str(u.remote_identity));
        let g2 = g.insert("remote"@, r3);
        law_get_after_insert(root, "gateway"@, g2, k);
        law_get_after_insert(root, "gateway"@, g2, "gateway"@);
        law_get_after_insert(g, "remote"@, r3, k);
        law_get_after_insert(g, "remote"@, r3, "remote"@);
        lemma_upsert(r, "url"@, opt_str(u.remote_url), k);
        lemma_upsert(r1, "sshTarget"@, opt_str(u.remote_target), k);
        lemma_upsert(r2, "sshIdentity"@, opt_str(u.remote_identity), k);
        assert(connection_updated(root, u) == root.insert("gateway"@, g2));
        assert(gateway_get(connection_updated(root, u), k) == g2.get(k));
        assert(gateway_get(connection_updated(root, u), "remote"@) == Some(r3));
    } else {
        law_get_after_insert(root, "gateway"@, g, k);
        law_get_after_insert(root, "gateway"@, g, "gateway"@);
        assert(connection_updated(root, u) == root.insert("gateway"@, g));
        assert(gateway_get(connection_updated(root, u), k) == g.get(k));
    }
}

/// Installing a generated token makes `gateway.auth` read as that token,
/// trimmed, so that `local_auth_state` finds it.
pub proof fn law_auth_token_reads_back(root: JsonView, token: Seq<char>)
    ensures
        auth_field(with_auth_token(root, token), "token"@) == trimmed_nonempty(token),
{
    reveal_strlit("gateway");
    reveal_strlit("auth");
    reveal_strlit("mode");
    reveal_strlit("token");
    let g = root.child_object("gateway"@);
    let a0 = g.child_object("auth"@).insert("mode"@, JsonView::Str("token"@));
    let a = a0.insert("token"@, JsonView::Str(token));
    law_get_after_insert(root, "gateway"@, g.insert("auth"@, a), "gateway"@);
    law_get_after_insert(g, "auth"@, a, "auth"@);
    law_get_after_insert(a0, "token"@, JsonView::Str(token), "token"@);
    assert(with_auth_token(root, token).child_object("gateway"@) == g.insert("auth"@, a));
    assert(g.insert("auth"@, a).child_object("auth"@) == a);
}


/// An override document as a parser builds it: distinct keys at the top, in
/// `gateway` and in `gateway.remote`.
pub open spec fn overlay_ok(v: JsonView) -> bool {
    &&& distinct_keys(v.members())
    &&& distinct_keys(v.child_object("gateway"@).members())
    &&& distinct_keys(v.child_object("gateway"@).child_object("remote"@).members())
}

proof fn lemma_upsert_distinct(obj: JsonView, key: Seq<char>, value: Option<Seq<char>>)
    requires
        distinct_keys(obj.members()),
    ensures
        distinct_keys(upsert(obj, key, value).members()),
        upsert(obj, key, value) is Object,
{
    match opt_trimmed(value) {
        Some(t) => lemma_edit_keeps_distinct(obj, key, JsonView::Str(t)),
        None => lemma_edit_keeps_distinct(obj, key, JsonView::Null),
    }
}

/// A member read through an overlay that sets it to a string reads that
/// string, whatever the base holds.
proof fn lemma_merged_str(base: JsonView, overlay: JsonView, key: Seq<char>, t: Seq<char>)
    requires
        overlay is Object,
        distinct_keys(overlay.members()),
        overlay.get(key) == Some(JsonView::Str(t)),
    ensures
        merge(base, overlay).get(key) == Some(JsonView::Str(t)),
{
    law_merge_get(base, overlay, key);
}

/// A connection saved into the override file reads back through the merged
/// configuration, whatever the primary file holds: the mode is the saved
/// mode, and in remote mode each remote field that was given (not blank)
/// reads back trimmed. (A blank field is removed from the override, so the
/// primary file's value shows through.)
pub proof fn law_override_reads_back(base: JsonView, overlay: JsonView, u: GatewayConnectionUpdate)
    requires
        overlay_ok(overlay),
    ensures
        gateway_mode(merge(base, connection_updated(overlay, u))) == u.mode,
        u.mode == GatewayMode::Remote && opt_trimmed(opt_str(u.remote_url)) is Some ==> remote_field(
            merge(base, connection_updated(overlay, u)),
            "url"@,
        ) == opt_trimmed(opt_str(u.remote_url)),
        u.mode == GatewayMode::Remote && opt_trimmed(opt_str(u.remote_target)) is Some ==> remote_field(
            merge(base, connection_updated(overlay, u)),
            "sshTarget"@,
        ) == opt_trimmed(opt_str(u.remote_target)),
        u.mode == GatewayMode::Remote && opt_trimmed(opt_str(u.remote_identity)) is Some ==> remote_field(
            merge(base, connection_updated(overlay, u)),
            "sshIdentity"@,
        ) == opt_trimmed(opt_str(u.remote_identity)),
{
    reveal_strlit("gateway");
    reveal_strlit("mode");
    reveal_strlit("remote");
    reveal_strlit("url");
    reveal_strlit("sshTarget");
    reveal_strlit("sshIdentity");
    lemma_mode_names();
    assert("url"@.len() == 3 && "sshTarget"@.len() == 9 && "sshIdentity"@.len() == 11);
    assert("mode"@.len() == 4 && "remote"@.len() == 6);
    let name = JsonView::Str(mode_name(u.mode));
    let gw0 = overlay.child_object("gateway"@);
    let g = gw0.insert("mode"@, name);
    lemma_edit_keeps_distinct(gw0, "mode"@, name);
    law_get_after_insert(gw0, "mode"@, name, "remote"@);
    let r = g.child_object("remote"@);
    assert(r == gw0.child_object("remote"@));
    let r1 = upsert(r, "url"@, opt_str(u.remote_url));
    let r2 = upsert(r1, "sshTarget"@, opt_str(u.remote_target));
    let r3 = upsert(r2, "sshIdentity"@, opt_str(u.remote_identity));
    let g2 = if u.mode == GatewayMode::Remote {
        g.insert("remote"@, r3)
    } else {
        g
    };
    let x = overlay.insert("gateway"@, g2);
    assert(x == connection_updated(overlay, u));
    lemma_edit_keeps_distinct(overlay, "gateway"@, g2);
    law_get_after_insert(overlay, "gateway"@, g2, "gateway"@);
    law_merge_get(base, x, "gateway"@);
    let read = merge(base, x);
    let big = if base is Object {
        base.get("gateway"@)
    } else {
        None
    };
    let gr = match big {
        Some(b) => merge(b, g2),
        None => g2,
    };
    assert(read.get("gateway"@) == Some(gr));
    law_get_after_insert(gw0, "mode"@, name, "mode"@);
    if u.mode == GatewayMode::Remote {
        lemma_upsert_distinct(r, "url"@, opt_str(u.remote_url));
        lemma_upsert_distinct(r1, "sshTarget"@, opt_str(u.remote_target));
        lemma_upsert_distinct(r2, "sshIdentity"@, opt_str(u.remote_identity));
        lemma_edit_keeps_distinct(g, "remote"@, r3);
        law_get_after_insert(g, "remote"@, r3, "mode"@);
        law_get_after_insert(g, "remote"@, r3, "remote"@);
        match big {
            Some(b) => {
                lemma_merged_str(b, g2, "mode"@, mode_name(u.mode));
                law_merge_get(b, g2, "remote"@);
            },
            None => {},
        }
        assert(gateway_get(read, "mode"@) == Some(name));
        let bremote = match big {
            Some(b) => if b is Object {
                b.get("remote"@)
            } else {
                None
            },
            None => None,
        };
        let rr = match bremote {
            Some(br) => merge(br, r3),
            None => r3,
        };
        assert(gateway_get(read, "remote"@) == Some(rr));
        lemma_upsert(r, "url"@, opt_str(u.remote_url), "url"@);
        lemma_upsert(r1, "sshTarget"@, opt_str(u.remote_target), "url"@);
        lemma_upsert(r2, "sshIdentity"@, opt_str(u.remote_identity), "url"@);
        lemma_upsert(r2, "sshIdentity"@, opt_str(u.remote_identity), "sshTarget"@);
        lemma_upsert(r1, "sshTarget"@, opt_str(u.remote_target), "sshTarget"@);
        lemma_upsert(r2, "sshIdentity"@, opt_str(u.remote_identity), "sshIdentity"@);
        match opt_trimmed(opt_str(u.remote_url)) {
            Some(t) => {
                law_get_after_insert(r, "url"@, JsonView::Str(t), "url"@);
                lemma_trim_idempotent(opt_str(u.remote_url)->0);
                match bremote {
                    Some(br) => lemma_merged_str(br, r3, "url"@, t),
                    None => {},
                }
            },
            None => {},
        }
        match opt_trimmed(opt_str(u.remote_target)) {
            Some(t) => {
                law_get_after_insert(r1, "sshTarget"@, JsonView::Str(t), "sshTarget"@);
                lemma_trim_idempotent(opt_str(u.remote_target)->0);
                match bremote {
                    Some(br) => lemma_merged_str(br, r3, "sshTarget"@, t),
                    None => {},
                }
            },
            None => {},
        }
        match opt_trimmed(opt_str(u.remote_identity)) {
            Some(t) => {
                law_get_after_insert(r2, "sshIdentity"@, JsonView::Str(t), "sshIdentity"@);
                lemma_trim_idempotent(opt_str(u.remote_identity)->0);
                match bremote {
                    Some(br) => lemma_merged_str(br, r3, "sshIdentity"@, t),
                    None => {},
                }
            },
            None => {},
        }
    } else {
        match big {
            Some(b) => lemma_merged_str(b, g2, "mode"@, mode_name(u.mode)),
            None => {},
        }
        assert(gateway_get(read, "mode"@) == Some(name));
    }
}


/// A token generated from random bytes and installed reads back as itself:
/// `local_auth_state` then finds that token.
pub proof fn law_generated_token_reads_back(root: JsonView, bytes: Seq<u8>)
    requires
        bytes.len() > 0,
    ensures
        auth_field(with_auth_token(root, base64_url(bytes)), "token"@) == Some(base64_url(bytes)),
{
    let t = base64_url(bytes);
    lemma_base64_url_plain(bytes);
    assert(!is_ws(t[0]));
    assert(!is_ws(t[t.len() - 1]));
    lemma_trim_fixed(t);
    law_auth_token_reads_back(root, t);
}

} // verus!
