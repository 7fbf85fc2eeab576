//! The node's session with the gateway: its connect request, the device
//! identity that signs it, and what the session does with each frame.
use vstd::prelude::*;
use vstd::utf8::encode_utf8;
use vstd::string::StringSliceAdditionalSpecFns;
use std::collections::HashMap;
use crate::crypto::{
    ed25519_pkcs8_der, ed25519_public, ed25519_seed_of_pkcs8, ed25519_signature,
    ed25519_spki_der, pem_block, pem_contents, pem_encode, pem_parse, private_key_der,
    public_key_der, public_key_of, seed_from_private_key_der, sha256, sha256_digest, sign_with,
};
use crate::encoding::{base64_url, base64_url_encode, hex_encode, hex_lower};
use crate::env::{Env, opt_str, path_join, join_path};
use crate::frames::{
    jint, jnat, jopt_str, jstr, jstrs, json_int, json_nat, json_opt_string, json_string,
    json_strings, new_members, push_member, request_frame, build_request_frame, str_views,
};
use crate::json::{JsonValue, JsonView, get_str, lemma_get_at, view_members};
use crate::node_runtime::{BridgeInvokeRequest, BridgeInvokeResponse, NodeError, response_error};
use crate::sync::{Mutex, new_mutex};
use crate::text::{int_text, i64_to_decimal, join_strings, join_with, str_eq, trimmed_nonempty, trimmed_or_none};

verus! {

/// What the node tells the gateway about itself when it connects.
#[derive(Clone, Debug)]
pub struct ConnectOptions {
    pub role: String,
    pub caps: Vec<String>,
    pub commands: Vec<String>,
    pub permissions: HashMap<String, bool>,
    pub client_id: String,
    pub client_mode: String,
    pub client_display_name: String,
}

/// A session with the gateway; it holds the channel that ends the running
/// session's reader.
pub struct GatewayNodeSession {
    disconnect_tx: Mutex<Option<std::sync::mpsc::Sender<()>>>,
}

impl GatewayNodeSession {
    /// A session that is not connected.
    pub fn new() -> (r: Self) {
        GatewayNodeSession { disconnect_tx: new_mutex(None) }
    }

    /// The session's own lock on the channel that ends its reader.
    pub closed spec fn slot(&self) -> Mutex<Option<std::sync::mpsc::Sender<()>>> {
        self.disconnect_tx
    }

    /// The slot for the channel that ends the running session's reader: the
    /// session's own lock, the same one on every call.
    pub fn disconnect_slot(&self) -> (r: &Mutex<Option<std::sync::mpsc::Sender<()>>>)
        ensures
            *r == self.slot(),
    {
        &self.disconnect_tx
    }
}

/// The device identity kept in `linux-app-device.json`.
#[derive(Clone, Debug)]
pub struct DeviceIdentityFile {
    pub device_id: String,
    pub public_key_pem: String,
    pub private_key_pem: String,
}

/// A token the gateway issued to the device for a role.
#[derive(Clone, Debug)]
pub struct DeviceAuthToken {
    pub token: String,
    pub role: String,
}

/// The device tokens kept in `linux-app-device-auth.json`, by role.
#[derive(Clone, Debug)]
pub struct DeviceAuthFile {
    pub device_id: String,
    pub tokens: Vec<(String, DeviceAuthToken)>,
}

/// The payload of a `node.invoke.request` event.
#[derive(Clone, Debug)]
pub struct NodeInvokeRequestPayload {
    pub id: String,
    pub node_id: String,
    pub command: String,
    pub params_json: Option<String>,
    pub timeout_ms: Option<u64>,
}

/// The device's proof of identity in a connect request.
#[derive(Clone, Debug)]
pub struct DeviceSignaturePayload {
    pub public_key: String,
    pub signature: String,
}

/// `resolve_identity_path`: `$HOME/.openclaw/identity/<name>`.
pub open spec fn identity_path_for(env: &Env, name: Seq<char>) -> Option<Seq<char>> {
    match env.get("HOME"@) {
        Some(h) => Some(path_join(path_join(path_join(h, ".openclaw"@), "identity"@), name)),
        None => None,
    }
}

pub fn resolve_identity_path(env: &Env, name: &str) -> (r: Option<String>)
    ensures
        opt_str(r) == identity_path_for(env, name@),
{
    proof {
        reveal_strlit("HOME");
    }
    match env.var("HOME") {
        Some(h) => {
            let a = join_path(h.as_str(), ".openclaw");
            let b = join_path(a.as_str(), "identity");
            Some(join_path(b.as_str(), name))
        },
        None => None,
    }
}

/// What `generate_device_identity` makes of a 32-byte seed: the device id is
/// the lowercase hex SHA-256 of the public key; the keys are PEM blocks of
/// their PKCS#8 and SPKI documents. The error is the first encoding's error.
pub open spec fn identity_from_seed(seed: Seq<u8>) -> Result<(Seq<char>, Seq<char>, Seq<char>), Seq<char>> {
    match ed25519_pkcs8_der(seed) {
        Err(e) => Err(e),
        Ok(private_der) => match ed25519_spki_der(seed) {
            Err(e) => Err(e),
            Ok(public_der) => Ok(
                (
                    hex_lower(sha256_digest(ed25519_public(seed))),
                    pem_block("PUBLIC KEY"@, public_der),
                    pem_block("PRIVATE KEY"@, private_der),
                ),
            ),
        },
    }
}

/// A new device identity from 32 random bytes; every such seed gives one.
pub fn generate_device_identity(seed: &[u8]) -> (r: Result<DeviceIdentityFile, String>)
    requires
        seed@.len() == 32,
    ensures
        r is Ok,
        match r {
            Ok(id) => identity_from_seed(seed@) == Ok::<_, Seq<char>>(
                (id.device_id@, id.public_key_pem@, id.private_key_pem@),
            ),
            Err(e) => identity_from_seed(seed@) == Err::<(Seq<char>, Seq<char>, Seq<char>), _>(e@),
        },
{
    let public = public_key_of(seed);
    let digest = sha256(public.as_slice());
    let device_id = hex_encode(digest.as_slice());
    let private_der = match private_key_der(seed) {
        Ok(d) => d,
        Err(e) => return Err(e),
    };
    let private_key_pem = pem_encode("PRIVATE KEY", private_der.as_slice());
    let public_der = match public_key_der(seed) {
        Ok(d) => d,
        Err(e) => return Err(e),
    };
    let public_key_pem = pem_encode("PUBLIC KEY", public_der.as_slice());
    Ok(DeviceIdentityFile { device_id, public_key_pem, private_key_pem })
}

/// The fields that the device signs, in order: `v2` with a nonce (which
/// comes last) or `v1` without, the device id, client id, client mode, role,
/// scopes, signing time and auth token.
pub open spec fn signed_fields(
    device_id: Seq<char>,
    client_id: Seq<char>,
    client_mode: Seq<char>,
    role: Seq<char>,
    scopes: Seq<char>,
    signed_at_ms: int,
    auth_token: Seq<char>,
    nonce: Option<Seq<char>>,
) -> Seq<Seq<char>> {
    let head = seq![
        if nonce is Some { "v2"@ } else { "v1"@ },
        device_id,
        client_id,
        client_mode,
        role,
        scopes,
        int_text(signed_at_ms),
        auth_token,
    ];
    match nonce {
        Some(n) => head.push(n),
        None => head,
    }
}

/// What `build_device_payload` gives: the URL-safe base64 public key and
/// signature of the `|`-joined fields, under the key in the identity's
/// private PEM; or why that key could not be read.
pub open spec fn device_proof(
    private_pem: Seq<char>,
    fields: Seq<Seq<char>>,
) -> Result<(Seq<char>, Seq<char>), Seq<char>> {
    match pem_contents(private_pem) {
        Err(e) => Err("device key parse failed: "@ + e),
        Ok(der) => match ed25519_seed_of_pkcs8(der) {
            Err(e) => Err("device key parse failed: "@ + e),
            Ok(seed) => Ok(
                (
                    base64_url(ed25519_public(seed)),
                    base64_url(ed25519_signature(seed, encode_utf8(join_with(fields, "|"@)))),
                ),
            ),
        },
    }
}

pub fn build_device_payload(
    identity: &DeviceIdentityFile,
    client_id: &str,
    client_mode: &str,
    role: &str,
    scopes: &str,
    signed_at_ms: i64,
    auth_token: &str,
    nonce: Option<&str>,
) -> (r: Result<DeviceSignaturePayload, String>)
    ensures
        ({
            let fields = signed_fields(
                identity.device_id@,
                client_id@,
                client_mode@,
                role@,
                scopes@,
                signed_at_ms as int,
                auth_token@,
                match nonce {
                    Some(n) => Some(n@),
                    None => None,
                },
            );
            match r {
                Ok(p) => device_proof(identity.private_key_pem@, fields) == Ok::<_, Seq<char>>(
                    (p.public_key@, p.signature@),
                ),
                Err(e) => device_proof(identity.private_key_pem@, fields) == Err::<
                    (Seq<char>, Seq<char>),
                    _,
                >(e@),
            }
        }),
{
    proof {
        reveal_strlit("v1");
        reveal_strlit("v2");
        reveal_strlit("|");
        reveal_strlit("device key parse failed: ");
    }
    let der = match pem_parse(identity.private_key_pem.as_str()) {
        Ok(d) => d,
        Err(e) => return Err(String::from_str("device key parse failed: ").concat(e.as_str())),
    };
    let seed = match seed_from_private_key_der(der.as_slice()) {
        Ok(s) => s,
        Err(e) => return Err(String::from_str("device key parse failed: ").concat(e.as_str())),
    };
    let public = public_key_of(seed.as_slice());
    let public_key = base64_url_encode(public.as_slice());
    let mut parts: Vec<String> = Vec::new();
    parts.push(
        if nonce.is_some() {
            String::from_str("v2")
        } else {
            String::from_str("v1")
        },
    );
    parts.push(identity.device_id.clone());
    parts.push(String::from_str(client_id));
    parts.push(String::from_str(client_mode));
    parts.push(String::from_str(role));
    parts.push(String::from_str(scopes));
    parts.push(i64_to_decimal(signed_at_ms));
    parts.push(String::from_str(auth_token));
    match nonce {
        Some(n) => parts.push(String::from_str(n)),
        None => {},
    }
    let ghost fields = signed_fields(
        identity.device_id@,
        client_id@,
        client_mode@,
        role@,
        scopes@,
        signed_at_ms as int,
        auth_token@,
        match nonce {
            Some(n) => Some(n@),
            None => None,
        },
    );
    assert(parts@.map_values(|s: String| s@) =~= fields);
    let payload = join_strings(&parts, "|");
    let message = payload.as_str().as_bytes();
    assert(message@ == encode_utf8(payload@));
    let signature = sign_with(seed.as_slice(), message);
    let signature = base64_url_encode(signature.as_slice());
    Ok(DeviceSignaturePayload { public_key, signature })
}


/// The first token of `tokens` for `role`.
pub open spec fn role_token(tokens: Seq<(String, DeviceAuthToken)>, role: Seq<char>) -> Option<Seq<char>>
    decreases tokens.len(),
{
    if tokens.len() == 0 {
        None
    } else if tokens[0].0@ == role {
        Some(tokens[0].1.token@)
    } else {
        role_token(tokens.drop_first(), role)
    }
}

/// The device's `node` token, trimmed, where the auth
/// file belongs to this device and the token is not blank.
pub open spec fn device_token_for(identity: Option<DeviceIdentityFile>, auth: Option<DeviceAuthFile>) -> Option<Seq<char>> {
    match (identity, auth) {
        (Some(id), Some(a)) => if a.device_id@ != id.device_id@ {
            None
        } else {
            match role_token(a.tokens@, "node"@) {
                Some(t) => trimmed_nonempty(t),
                None => None,
            }
        },
        _ => None,
    }
}

pub fn device_token(identity: Option<&DeviceIdentityFile>, auth: Option<&DeviceAuthFile>) -> (r: Option<String>)
    ensures
        opt_str(r) == device_token_for(
            match identity {
                Some(i) => Some(*i),
                None => None,
            },
            match auth {
                Some(a) => Some(*a),
                None => None,
            },
        ),
{
    proof {
        reveal_strlit("node");
    }
    let (id, a) = match (identity, auth) {
        (Some(id), Some(a)) => (id, a),
        _ => return None,
    };
    if !str_eq(a.device_id.as_str(), id.device_id.as_str()) {
        return None;
    }
    let mut i: usize = 0;
    assert(a.tokens@.skip(0) =~= a.tokens@);
    while i < a.tokens.len()
        invariant
            i <= a.tokens@.len(),
            a.device_id@ == id.device_id@,
            identity == Some(id),
            auth == Some(a),
            role_token(a.tokens@, "node"@) == role_token(a.tokens@.skip(i as int), "node"@),
        decreases a.tokens@.len() - i,
    {
        assert(a.tokens@.skip(i as int).drop_first() =~= a.tokens@.skip(i + 1));
        assert(a.tokens@.skip(i as int)[0] == a.tokens@[i as int]);
        if str_eq(a.tokens[i].0.as_str(), "node") {
            return trimmed_or_none(a.tokens[i].1.token.as_str());
        }
        i = i + 1;
    }
    None
}

/// The token the connect request authenticates with: the device token where
/// there is one, else the shared token.
pub fn select_auth_token(device_token: Option<String>, token: Option<&str>) -> (r: Option<String>)
    ensures
        opt_str(r) == match opt_str(device_token) {
            Some(t) => Some(t),
            None => match token {
                Some(t) => Some(t@),
                None => None,
            },
        },
{
    match device_token {
        Some(t) => Some(t),
        None => match token {
            Some(t) => Some(String::from_str(t)),
            None => None,
        },
    }
}

/// The text before the first `.`.
pub open spec fn before_dot(s: Seq<char>) -> Seq<char>
    decreases s.len(),
{
    if s.len() == 0 {
        s
    } else if s[0] == '.' {
        Seq::empty()
    } else {
        seq![s[0]] + before_dot(s.drop_first())
    }
}

/// The locale the node reports: `$LANG` up to its first `.`, else `en-US`.
pub open spec fn locale_for(env: &Env) -> Seq<char> {
    match env.get("LANG"@) {
        Some(l) => before_dot(l),
        None => "en-US"@,
    }
}

pub fn node_locale(env: &Env) -> (r: String)
    ensures
        r@ == locale_for(env),
{
    proof {
        reveal_strlit("LANG");
        reveal_strlit("en-US");
    }
    match env.var("LANG") {
        Some(l) => {
            let n = l.unicode_len();
            let mut i: usize = 0;
            assert(l@.skip(0) =~= l@);
            assert(l@.take(0) =~= Seq::<char>::empty());
            while i < n && l.get_char(i) != '.'
                invariant
                    n == l@.len(),
                    i <= n,
                    before_dot(l@) == l@.take(i as int) + before_dot(l@.skip(i as int)),
                decreases n - i,
            {
                proof {
                    assert(l@.skip(i as int)[0] == l@[i as int]);
                    assert(l@.skip(i as int).drop_first() =~= l@.skip(i + 1));
                    assert(l@.take(i + 1) =~= l@.take(i as int) + seq![l@[i as int]]);
                }
                i = i + 1;
            }
            proof {
                if i < n {
                    assert(l@.skip(i as int)[0] == '.');
                } else {
                    assert(l@.skip(i as int).len() == 0);
                }
                assert(l@.skip(0) =~= l@);
            }
            String::from_str(l.as_str().substring_char(0, i))
        },
        None => String::from_str("en-US"),
    }
}

/// Whether `entries` lists the map's entries, each once, in some order.
pub open spec fn entries_of(entries: Seq<(String, bool)>, m: Map<String, bool>) -> bool {
    &&& entries.len() == m.len()
    &&& forall|i: int, j: int| 0 <= i < j < entries.len() ==> #[trigger] entries[i].0 != #[trigger] entries[j].0
    &&& forall|i: int|
        0 <= i < entries.len() ==> m.contains_key(#[trigger] entries[i].0) && m[entries[i].0]
            == entries[i].1
}

/// Lists the map's entries by `HashMap::iter`, which yields each entry once;
/// their order is the map's iteration order, which varies from process to
/// process and is not stated.
#[verifier::external_body]
fn permission_entries(m: &HashMap<String, bool>) -> (r: Vec<(String, bool)>)
    ensures
        entries_of(r@, m@),
{
    m.iter().map(|(k, v)| (k.clone(), *v)).collect()
}

pub open spec fn permission_members(entries: Seq<(String, bool)>) -> Seq<(Seq<char>, JsonView)> {
    entries.map_values(|e: (String, bool)| (e.0@, JsonView::Bool(e.1)))
}

pub open spec fn client_object(o: ConnectOptions) -> JsonView {
    JsonView::Object(
        seq![
            ("id"@, jstr(o.client_id@)),
            ("displayName"@, jstr(o.client_display_name@)),
            ("version"@, jstr("dev"@)),
            ("platform"@, jstr("linux"@)),
            ("mode"@, jstr(o.client_mode@)),
        ],
    )
}

/// The device part of a connect request: id, public key, signature, signing
/// time and nonce.
pub type DeviceProofView = (Seq<char>, Seq<char>, Seq<char>, int, Option<Seq<char>>);

/// The `connect` parameters of `build_connect_params`.
pub open spec fn connect_params(
    o: ConnectOptions,
    permissions: Seq<(String, bool)>,
    auth_token: Option<Seq<char>>,
    password: Option<Seq<char>>,
    locale: Seq<char>,
    device: Option<DeviceProofView>,
) -> JsonView {
    let base = seq![
        ("minProtocol"@, jnat(3)),
        ("maxProtocol"@, jnat(3)),
        ("client"@, client_object(o)),
        ("role"@, jstr(o.role@)),
        ("scopes"@, jstrs(Seq::empty())),
        ("caps"@, jstrs(str_views(o.caps@))),
        ("commands"@, jstrs(str_views(o.commands@))),
        ("permissions"@, JsonView::Object(permission_members(permissions))),
        ("locale"@, jstr(locale)),
        ("userAgent"@, jstr("openclaw-linux/dev"@)),
    ];
    let with_auth = match auth_token {
        Some(t) => base.push(("auth"@, JsonView::Object(seq![("token"@, jstr(t))]))),
        None => match password {
            Some(p) => base.push(("auth"@, JsonView::Object(seq![("password"@, jstr(p))]))),
            None => base,
        },
    };
    match device {
        Some(d) => JsonView::Object(
            with_auth.push(
                (
                    "device"@,
                    JsonView::Object(
                        seq![
                            ("id"@, jstr(d.0)),
                            ("publicKey"@, jstr(d.1)),
                            ("signature"@, jstr(d.2)),
                            ("signedAt"@, jint(d.3)),
                            ("nonce"@, jopt_str(d.4)),
                        ],
                    ),
                ),
            ),
        ),
        None => JsonView::Object(with_auth),
    }
}

/// The node advertises what it was given: in the `connect` parameters the
/// role is the options' role, it asks for no scopes, and `caps` and
/// `commands` are JSON arrays of the options' capabilities and commands,
/// each string in the same place, whatever the auth and device parts hold.
pub proof fn law_connect_params_advertise(
    o: ConnectOptions,
    permissions: Seq<(String, bool)>,
    auth_token: Option<Seq<char>>,
    password: Option<Seq<char>>,
    locale: Seq<char>,
    device: Option<DeviceProofView>,
)
    ensures
        connect_params(o, permissions, auth_token, password, locale, device).get("role"@)
            == Some(JsonView::Str(o.role@)),
        connect_params(o, permissions, auth_token, password, locale, device).get("scopes"@) == Some(
            JsonView::Array(Seq::empty()),
        ),
        connect_params(o, permissions, auth_token, password, locale, device).get("caps"@) matches Some(
            JsonView::Array(a),
        ) && a.len() == o.caps@.len() && forall|i: int| 0 <= i < a.len() ==> #[trigger] a[i] == JsonView::Str(o.caps@[i]@),
        connect_params(o, permissions, auth_token, password, locale, device).get("commands"@) matches Some(
            JsonView::Array(a),
        ) && a.len() == o.commands@.len() && forall|i: int| 0 <= i < a.len() ==> #[trigger] a[i] == JsonView::Str(
            o.commands@[i]@,
        ),
{
    reveal_strlit("minProtocol");
    reveal_strlit("maxProtocol");
    reveal_strlit("client");
    reveal_strlit("role");
    reveal_strlit("scopes");
    reveal_strlit("caps");
    reveal_strlit("commands");
    let p = connect_params(o, permissions, auth_token, password, locale, device);
    let ms = p.members();
    assert(p == JsonView::Object(ms));
    assert(ms.len() >= 10);
    assert(ms[0].0 == "minProtocol"@ && ms[1].0 == "maxProtocol"@ && ms[2].0 == "client"@);
    assert(ms[3] == ("role"@, jstr(o.role@)));
    assert(ms[4] == ("scopes"@, jstrs(Seq::empty())));
    assert(ms[5] == ("caps"@, jstrs(str_views(o.caps@))));
    assert(ms[6] == ("commands"@, jstrs(str_views(o.commands@))));
    assert("minProtocol"@.len() == 11 && "maxProtocol"@.len() == 11 && "client"@.len() == 6);
    assert("role"@.len() == 4 && "scopes"@.len() == 6 && "caps"@.len() == 4 && "commands"@.len() == 8);
    assert("role"@ != "caps"@) by {
        assert("role"@[0] != "caps"@[0]);
    }
    lemma_get_at(ms, 3, "role"@);
    assert("client"@[0] != "scopes"@[0]);
    lemma_get_at(ms, 4, "scopes"@);
    assert(Seq::<Seq<char>>::empty().map_values(|s: Seq<char>| JsonView::Str(s)) =~= Seq::<JsonView>::empty());
    lemma_get_at(ms, 5, "caps"@);
    lemma_get_at(ms, 6, "commands"@);
}

pub open spec fn opt_ref_str(o: Option<&str>) -> Option<Seq<char>> {
    match o {
        Some(s) => Some(s@),
        None => None,
    }
}

fn permissions_object(entries: &Vec<(String, bool)>) -> (r: JsonValue)
    ensures
        r@ == JsonView::Object(permission_members(entries@)),
{
    let mut ms = new_members();
    let mut i: usize = 0;
    while i < entries.len()
        invariant
            i <= entries@.len(),
            view_members(ms@) == permission_members(entries@.take(i as int)),
        decreases entries@.len() - i,
    {
        let ghost before = view_members(ms@);
        push_member(&mut ms, entries[i].0.as_str(), JsonValue::Bool(entries[i].1));
        proof {
            assert(permission_members(entries@.take(i + 1)) =~= before.push(
                (entries@[i as int].0@, JsonView::Bool(entries@[i as int].1)),
            ));
        }
        i = i + 1;
    }
    assert(entries@.take(entries@.len() as int) =~= entries@);
    JsonValue::Object(ms)
}

fn single_member(key: &str, value: &str) -> (r: JsonValue)
    ensures
        r@ == JsonView::Object(seq![(key@, jstr(value@))]),
{
    let mut ms = new_members();
    push_member(&mut ms, key, json_string(value));
    assert(view_members(ms@) =~= seq![(key@, jstr(value@))]);
    JsonValue::Object(ms)
}

/// The `connect` parameters for the node: protocol 3, the client, role,
/// capabilities, commands, permissions (in the map's iteration order) and
/// locale; the auth token or else the password; and, with a device
/// identity, the device's signed proof (which fails where its key cannot be
/// read).
pub fn build_connect_params(
    options: &ConnectOptions,
    auth_token: Option<&str>,
    password: Option<&str>,
    nonce: Option<&str>,
    identity: Option<&DeviceIdentityFile>,
    signed_at_ms: i64,
    locale: &str,
) -> (r: Result<JsonValue, String>)
    ensures
        exists|perms: Seq<(String, bool)>| {
            &&& #[trigger] entries_of(perms, options.permissions@)
            &&& match identity {
                None => r matches Ok(v) && v@ == connect_params(
                    *options,
                    perms,
                    opt_ref_str(auth_token),
                    opt_ref_str(password),
                    locale@,
                    None,
                ),
                Some(id) => {
                    let fields = signed_fields(
                        id.device_id@,
                        options.client_id@,
                        options.client_mode@,
                        options.role@,
                        Seq::empty(),
                        signed_at_ms as int,
                        match auth_token {
                            Some(t) => t@,
                            None => Seq::empty(),
                        },
                        opt_ref_str(nonce),
                    );
                    match device_proof(id.private_key_pem@, fields) {
                        Err(e) => r matches Err(m) && m@ == e,
                        Ok(p) => r matches Ok(v) && v@ == connect_params(
                            *options,
                            perms,
                            opt_ref_str(auth_token),
                            opt_ref_str(password),
                            locale@,
                            Some((id.device_id@, p.0, p.1, signed_at_ms as int, opt_ref_str(nonce))),
                        ),
                    }
                },
            }
        },
{
    proof {
        reveal_strlit("dev");
        reveal_strlit("linux");
        reveal_strlit("openclaw-linux/dev");
        reveal_strlit("");
    }
    let entries = permission_entries(&options.permissions);
    let mut client = new_members();
    push_member(&mut client, "id", json_string(options.client_id.as_str()));
    push_member(&mut client, "displayName", json_string(options.client_display_name.as_str()));
    push_member(&mut client, "version", json_string("dev"));
    push_member(&mut client, "platform", json_string("linux"));
    push_member(&mut client, "mode", json_string(options.client_mode.as_str()));
    assert(view_members(client@) =~= seq![
        ("id"@, jstr(options.client_id@)),
        ("displayName"@, jstr(options.client_display_name@)),
        ("version"@, jstr("dev"@)),
        ("platform"@, jstr("linux"@)),
        ("mode"@, jstr(options.client_mode@)),
    ]);
    let no_scopes: Vec<String> = Vec::new();
    assert(str_views(no_scopes@) =~= Seq::empty());
    let mut ms = new_members();
    push_member(&mut ms, "minProtocol", json_nat(3));
    push_member(&mut ms, "maxProtocol", json_nat(3));
    push_member(&mut ms, "client", JsonValue::Object(client));
    push_member(&mut ms, "role", json_string(options.role.as_str()));
    push_member(&mut ms, "scopes", json_strings(&no_scopes));
    push_member(&mut ms, "caps", json_strings(&options.caps));
    push_member(&mut ms, "commands", json_strings(&options.commands));
    push_member(&mut ms, "permissions", permissions_object(&entries));
    push_member(&mut ms, "locale", json_string(locale));
    push_member(&mut ms, "userAgent", json_string("openclaw-linux/dev"));
    let ghost base = seq![
        ("minProtocol"@, jnat(3)),
        ("maxProtocol"@, jnat(3)),
        ("client"@, client_object(*options)),
        ("role"@, jstr(options.role@)),
        ("scopes"@, jstrs(Seq::empty())),
        ("caps"@, jstrs(str_views(options.caps@))),
        ("commands"@, jstrs(str_views(options.commands@))),
        ("permissions"@, JsonView::Object(permission_members(entries@))),
        ("locale"@, jstr(locale@)),
        ("userAgent"@, jstr("openclaw-linux/dev"@)),
    ];
    assert(view_members(ms@) =~= base);
    match auth_token {
        Some(t) => push_member(&mut ms, "auth", single_member("token", t)),
        None => match password {
            Some(p) => push_member(&mut ms, "auth", single_member("password", p)),
            None => {},
        },
    }
    let ghost with_auth = view_members(ms@);
    assert(with_auth == match opt_ref_str(auth_token) {
        Some(t) => base.push(("auth"@, JsonView::Object(seq![("token"@, jstr(t))]))),
        None => match opt_ref_str(password) {
            Some(p) => base.push(("auth"@, JsonView::Object(seq![("password"@, jstr(p))]))),
            None => base,
        },
    });
    assert(entries_of(entries@, options.permissions@));
    match identity {
        Some(id) => {
            let auth_value = match auth_token {
                Some(t) => t,
                None => "",
            };
            assert(""@ =~= Seq::<char>::empty());
            assert(auth_value@ == match auth_token {
                Some(t) => t@,
                None => Seq::<char>::empty(),
            });
            let proof_payload = match build_device_payload(
                id,
                options.client_id.as_str(),
                options.client_mode.as_str(),
                options.role.as_str(),
                "",
                signed_at_ms,
                auth_value,
                nonce,
            ) {
                Ok(p) => p,
                Err(e) => {
                    assert(entries_of(entries@, options.permissions@));
                    return Err(e);
                },
            };
            let mut device = new_members();
            push_member(&mut device, "id", json_string(id.device_id.as_str()));
            push_member(&mut device, "publicKey", json_string(proof_payload.public_key.as_str()));
            push_member(&mut device, "signature", json_string(proof_payload.signature.as_str()));
            push_member(&mut device, "signedAt", json_int(signed_at_ms));
            push_member(&mut device, "nonce", json_opt_string(nonce));
            assert(view_members(device@) =~= seq![
                ("id"@, jstr(id.device_id@)),
                ("publicKey"@, jstr(proof_payload.public_key@)),
                ("signature"@, jstr(proof_payload.signature@)),
                ("signedAt"@, jint(signed_at_ms as int)),
                ("nonce"@, jopt_str(opt_ref_str(nonce))),
            ]);
            push_member(&mut ms, "device", JsonValue::Object(device));
            let r = JsonValue::Object(ms);
            assert(r@ == connect_params(
                *options,
                entries@,
                opt_ref_str(auth_token),
                opt_ref_str(password),
                locale@,
                Some((id.device_id@, proof_payload.public_key@, proof_payload.signature@, signed_at_ms as int, opt_ref_str(nonce))),
            ));
            Ok(r)
        },
        None => {
            let r = JsonValue::Object(ms);
            assert(r@ == connect_params(
                *options,
                entries@,
                opt_ref_str(auth_token),
                opt_ref_str(password),
                locale@,
                None,
            ));
            Ok(r)
        },
    }
}

/// The parameters of a `node.invoke.result` request: the request's id and
/// node id, whether it succeeded, its payload and its error.
pub open spec fn invoke_result_params(req: NodeInvokeRequestPayload, res: BridgeInvokeResponse) -> JsonView {
    let base = seq![("id"@, jstr(req.id@)), ("nodeId"@, jstr(req.node_id@)), ("ok"@, JsonView::Bool(res.ok))];
    let with_payload = match res.payload_json {
        Some(p) => base.push(("payloadJSON"@, jstr(p@))),
        None => base,
    };
    match res.error {
        Some(e) => JsonView::Object(
            with_payload.push(
                ("error"@, JsonView::Object(seq![("code"@, jstr(e.code@)), ("message"@, jstr(e.message@))])),
            ),
        ),
        None => JsonView::Object(with_payload),
    }
}

/// The `node.invoke.result` request frame (with id `frame_id`) that answers
/// `request` with `response`.
pub fn build_invoke_result(
    request: &NodeInvokeRequestPayload,
    response: &BridgeInvokeResponse,
    frame_id: &str,
) -> (r: JsonValue)
    ensures
        r@ == request_frame(frame_id@, "node.invoke.result"@, Some(invoke_result_params(*request, *response))),
{
    let mut ms = new_members();
    push_member(&mut ms, "id", json_string(request.id.as_str()));
    push_member(&mut ms, "nodeId", json_string(request.node_id.as_str()));
    push_member(&mut ms, "ok", JsonValue::Bool(response.ok));
    match &response.payload_json {
        Some(p) => push_member(&mut ms, "payloadJSON", json_string(p.as_str())),
        None => {},
    }
    let ghost with_payload = view_members(ms@);
    assert(with_payload =~= match response.payload_json {
        Some(p) => seq![("id"@, jstr(request.id@)), ("nodeId"@, jstr(request.node_id@)), ("ok"@, JsonView::Bool(response.ok))].push(("payloadJSON"@, jstr(p@))),
        None => seq![("id"@, jstr(request.id@)), ("nodeId"@, jstr(request.node_id@)), ("ok"@, JsonView::Bool(response.ok))],
    });
    match &response.error {
        Some(e) => {
            let mut err = new_members();
            push_member(&mut err, "code", json_string(e.code.as_str()));
            push_member(&mut err, "message", json_string(e.message.as_str()));
            assert(view_members(err@) =~= seq![("code"@, jstr(e.code@)), ("message"@, jstr(e.message@))]);
            push_member(&mut ms, "error", JsonValue::Object(err));
        },
        None => {},
    }
    assert(JsonView::Object(view_members(ms@)) == invoke_result_params(*request, *response));
    build_request_frame(frame_id, "node.invoke.result", Some(JsonValue::Object(ms)))
}

/// The command an invoke request carries.
pub fn invoke_request_of(payload: &NodeInvokeRequestPayload) -> (r: BridgeInvokeRequest)
    ensures
        r.id@ == payload.id@,
        r.command@ == payload.command@,
        opt_str(r.params_json) == opt_str(payload.params_json),
{
    BridgeInvokeRequest {
        id: payload.id.clone(),
        command: payload.command.clone(),
        params_json: match &payload.params_json {
            Some(p) => Some(p.clone()),
            None => None,
        },
    }
}

/// How long the node may take to answer: the request's `timeoutMs`, else
/// 30 seconds.
pub fn invoke_timeout_ms(payload: &NodeInvokeRequestPayload) -> (r: u64)
    ensures
        r == match payload.timeout_ms {
            Some(t) => t,
            None => 30000,
        },
{
    match payload.timeout_ms {
        Some(t) => t,
        None => 30000,
    }
}

/// The answer sent where the node did not answer in time.
pub fn timeout_response(id: String) -> (r: BridgeInvokeResponse)
    ensures
        r.id == id,
        !r.ok,
        r.payload_json is None,
        response_error(r) == Some(("unavailable"@, "node invoke timed out"@)),
{
    BridgeInvokeResponse {
        id,
        ok: false,
        payload_json: None,
        error: Some(
            NodeError {
                code: String::from_str("unavailable"),
                message: String::from_str("node invoke timed out"),
            },
        ),
    }
}

/// What the session's reader got from the socket.
pub enum SessionInput {
    /// A `node.invoke.request` event with a payload that decodes.
    InvokeRequest(NodeInvokeRequestPayload),
    /// Any other text frame.
    OtherText,
    /// A binary frame, with its text where it is UTF-8.
    Binary(Option<String>),
    Closed,
    Failed(String),
    /// Ping, pong and raw frames.
    Control,
    /// The stream ended.
    Ended,
}

/// What the session's reader does next.
pub enum SessionAction {
    Continue,
    /// Answer the command within the time limit.
    Invoke(BridgeInvokeRequest, u64),
    /// Stop reading, telling the owner why where there is a reason.
    Stop(Option<String>),
}

/// The reader's decision: answer invoke requests; stop on binary frames
/// (reporting their text), on close, on errors and at the end of the stream;
/// read on past anything else.
pub fn session_step(input: SessionInput) -> (r: SessionAction)
    ensures
        match input {
            SessionInput::InvokeRequest(p) => r matches SessionAction::Invoke(req, t) && req.id@
                == p.id@ && req.command@ == p.command@ && opt_str(req.params_json) == opt_str(
                p.params_json,
            ) && t == match p.timeout_ms {
                Some(x) => x,
                None => 30000,
            },
            SessionInput::OtherText | SessionInput::Control => r is Continue,
            SessionInput::Binary(t) => r matches SessionAction::Stop(reason) && opt_str(reason)
                == opt_str(t),
            SessionInput::Closed => r matches SessionAction::Stop(reason) && opt_str(reason)
                == Some("gateway closed connection"@),
            SessionInput::Failed(e) => r matches SessionAction::Stop(reason) && opt_str(reason)
                == Some(e@),
            SessionInput::Ended => r matches SessionAction::Stop(reason) && reason is None,
        },
{
    match input {
        SessionInput::InvokeRequest(p) => {
            let req = invoke_request_of(&p);
            let t = invoke_timeout_ms(&p);
            SessionAction::Invoke(req, t)
        },
        SessionInput::OtherText | SessionInput::Control => SessionAction::Continue,
        SessionInput::Binary(t) => SessionAction::Stop(t),
        SessionInput::Closed => SessionAction::Stop(Some(String::from_str("gateway closed connection"))),
        SessionInput::Failed(e) => SessionAction::Stop(Some(e)),
        SessionInput::Ended => SessionAction::Stop(None),
    }
}

/// Whether a decoded event frame is the event `name`
/// (`frame_type == "event" && event == name`).
pub fn is_event(frame_type: &str, event: &str, name: &str) -> (r: bool)
    ensures
        r == (frame_type@ == "event"@ && event@ == name@),
{
    str_eq(frame_type, "event") && str_eq(event, name)
}

/// The `nonce` string of a `connect.challenge` payload.
pub fn challenge_nonce(payload: Option<&JsonValue>) -> (r: Option<String>)
    ensures
        opt_str(r) == match payload {
            Some(p) => get_str(p@, "nonce"@),
            None => None,
        },
{
    proof {
        reveal_strlit("nonce");
    }
    match payload {
        Some(p) => match p.get("nonce") {
            Some(n) => match n.as_str() {
                Some(s) => Some(s.clone()),
                None => None,
            },
            None => None,
        },
        None => None,
    }
}

/// The text of a node frame id: `node-` and the nanosecond count in decimal.
pub open spec fn frame_id_text(nanos: u128) -> Seq<char> {
    "node-"@ + crate::text::decimal(nanos as nat)
}

/// The id of a frame sent by the node: `node-<nanoseconds>`.
pub fn frame_id(nanos: u128) -> (r: String)
    ensures
        r@ == frame_id_text(nanos),
{
    String::from_str("node-").concat(crate::text::u128_to_decimal(nanos).as_str())
}

/// Whole milliseconds of a nanosecond count, as `as_millis() as i64` gives
/// them (the cast keeps the low 64 bits).
pub open spec fn millis_of(nanos: u128) -> i64 {
    (nanos / 1_000_000) as i64
}

/// The signing time in milliseconds for a clock reading in nanoseconds.
pub fn millis_of_nanos(nanos: u128) -> (r: i64)
    ensures
        r == millis_of(nanos),
{
    let ms: u128 = nanos / 1_000_000;
    #[verifier::truncate]
    (ms as i64)
}


/// Reads the clock: `SystemTime::now()` as nanoseconds since `UNIX_EPOCH`
/// (zero for a clock set before it). What it reads depends on the time, so
/// nothing is stated of it.
#[verifier::external_body]
pub(crate) fn clock_nanos() -> (r: u128) {
    std::time::SystemTime::now().duration_since(std::time::UNIX_EPOCH).unwrap_or_default().as_nanos()
}

/// Milliseconds since the Unix epoch, as the device proof's signing time:
/// the clock's reading in nanoseconds, converted by [`millis_of_nanos`].
pub fn current_time_ms() -> (r: i64)
    ensures
        exists|n: u128| r == #[trigger] millis_of(n),
{
    let nanos = clock_nanos();
    let r = millis_of_nanos(nanos);
    assert(r == millis_of(nanos));
    r
}

/// A fresh frame id, `node-<nanoseconds since the epoch>`: the clock's
/// reading, formatted by [`frame_id`].
pub fn uuid() -> (r: String)
    ensures
        exists|n: u128| r@ == #[trigger] frame_id_text(n),
{
    let nanos = clock_nanos();
    let r = frame_id(nanos);
    assert(r@ == frame_id_text(nanos));
    r
}

} // verus!
