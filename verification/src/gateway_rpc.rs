//! One-shot requests to the gateway as an operator: the connect request,
//! request ids, and what a response comes to.
use vstd::prelude::*;
use crate::node::session::clock_nanos;
use crate::config::GatewayConfig;
use crate::env::opt_str;
use crate::frames::{
    error_message, jnat, jstr, jstrs, json_nat, json_string, json_strings, new_members,
    push_member, response_error_message, str_views,
};
use crate::json::{JsonValue, JsonView, get_str, json_parse, lemma_get_at, parse_json_text, view_members};
use crate::text::{decimal, str_eq, u128_to_decimal};

verus! {

/// The operator scopes that onboarding asks for.
pub open spec fn operator_scopes() -> Seq<Seq<char>> {
    seq!["operator.admin"@, "operator.approvals"@, "operator.pairing"@]
}

/// The `connect` parameters of an onboarding request: protocol 3, the
/// onboarding client, the operator role and scopes, and the config's token
/// or else its password.
pub open spec fn operator_connect_params(token: Option<Seq<char>>, password: Option<Seq<char>>) -> JsonView {
    let base = seq![
        ("minProtocol"@, jnat(3)),
        ("maxProtocol"@, jnat(3)),
        (
            "client"@,
            JsonView::Object(
                seq![
                    ("id"@, jstr("openclaw-linux-onboarding"@)),
                    ("displayName"@, jstr("OpenClaw Linux"@)),
                    ("version"@, jstr("dev"@)),
                    ("platform"@, jstr("linux"@)),
                    ("mode"@, jstr("ui"@)),
                ],
            ),
        ),
        ("role"@, jstr("operator"@)),
        ("scopes"@, jstrs(operator_scopes())),
        ("caps"@, jstrs(Seq::empty())),
        ("locale"@, jstr("en-US"@)),
        ("userAgent"@, jstr("openclaw-linux/dev"@)),
    ];
    match token {
        Some(t) => JsonView::Object(base.push(("auth"@, JsonView::Object(seq![("token"@, jstr(t))])))),
        None => match password {
            Some(p) => JsonView::Object(
                base.push(("auth"@, JsonView::Object(seq![("password"@, jstr(p))]))),
            ),
            None => JsonView::Object(base),
        },
    }
}

/// Onboarding connects as an operator with the admin, approvals and
/// pairing scopes, in that order, whatever its token or password.
pub proof fn law_operator_scopes(token: Option<Seq<char>>, password: Option<Seq<char>>)
    ensures
        operator_connect_params(token, password).get("role"@) == Some(JsonView::Str("operator"@)),
        operator_connect_params(token, password).get("scopes"@) == Some(
            JsonView::Array(
                seq![
                    JsonView::Str("operator.admin"@),
                    JsonView::Str("operator.approvals"@),
                    JsonView::Str("operator.pairing"@),
                ],
            ),
        ),
{
    reveal_strlit("minProtocol");
    reveal_strlit("maxProtocol");
    reveal_strlit("client");
    reveal_strlit("role");
    reveal_strlit("scopes");
    let p = operator_connect_params(token, password);
    let ms = p.members();
    assert(p == JsonView::Object(ms));
    assert(ms.len() >= 8);
    assert(ms[0].0 == "minProtocol"@ && ms[1].0 == "maxProtocol"@ && ms[2].0 == "client"@);
    assert(ms[3] == ("role"@, jstr("operator"@)));
    assert(ms[4] == ("scopes"@, jstrs(operator_scopes())));
    assert("minProtocol"@.len() == 11 && "maxProtocol"@.len() == 11);
    assert("role"@.len() == 4 && "scopes"@.len() == 6 && "client"@[0] != "scopes"@[0]);
    lemma_get_at(ms, 3, "role"@);
    lemma_get_at(ms, 4, "scopes"@);
    assert(operator_scopes().map_values(|s: Seq<char>| JsonView::Str(s)) =~= seq![
        JsonView::Str("operator.admin"@),
        JsonView::Str("operator.approvals"@),
        JsonView::Str("operator.pairing"@),
    ]);
}

pub fn operator_connect_request(config: &GatewayConfig) -> (r: JsonValue)
    ensures
        r@ == operator_connect_params(opt_str(config.token), opt_str(config.password)),
{
    let mut client = new_members();
    push_member(&mut client, "id", json_string("openclaw-linux-onboarding"));
    push_member(&mut client, "displayName", json_string("OpenClaw Linux"));
    push_member(&mut client, "version", json_string("dev"));
    push_member(&mut client, "platform", json_string("linux"));
    push_member(&mut client, "mode", json_string("ui"));
    assert(view_members(client@) =~= seq![
        ("id"@, jstr("openclaw-linux-onboarding"@)),
        ("displayName"@, jstr("OpenClaw Linux"@)),
        ("version"@, jstr("dev"@)),
        ("platform"@, jstr("linux"@)),
        ("mode"@, jstr("ui"@)),
    ]);
    let mut scopes: Vec<String> = Vec::new();
    scopes.push(String::from_str("operator.admin"));
    scopes.push(String::from_str("operator.approvals"));
    scopes.push(String::from_str("operator.pairing"));
    assert(str_views(scopes@) =~= operator_scopes());
    let no_caps: Vec<String> = Vec::new();
    assert(str_views(no_caps@) =~= Seq::empty());
    let mut ms = new_members();
    push_member(&mut ms, "minProtocol", json_nat(3));
    push_member(&mut ms, "maxProtocol", json_nat(3));
    push_member(&mut ms, "client", JsonValue::Object(client));
    push_member(&mut ms, "role", json_string("operator"));
    push_member(&mut ms, "scopes", json_strings(&scopes));
    push_member(&mut ms, "caps", json_strings(&no_caps));
    push_member(&mut ms, "locale", json_string("en-US"));
    push_member(&mut ms, "userAgent", json_string("openclaw-linux/dev"));
    let ghost base = view_members(ms@);
    match &config.token {
        Some(t) => {
            let mut a = new_members();
            push_member(&mut a, "token", json_string(t.as_str()));
            assert(view_members(a@) =~= seq![("token"@, jstr(t@))]);
            push_member(&mut ms, "auth", JsonValue::Object(a));
        },
        None => match &config.password {
            Some(p) => {
                let mut a = new_members();
                push_member(&mut a, "password", json_string(p.as_str()));
                assert(view_members(a@) =~= seq![("password"@, jstr(p@))]);
                push_member(&mut ms, "auth", JsonValue::Object(a));
            },
            None => {},
        },
    }
    proof {
        let client_v = JsonView::Object(
            seq![
                ("id"@, jstr("openclaw-linux-onboarding"@)),
                ("displayName"@, jstr("OpenClaw Linux"@)),
                ("version"@, jstr("dev"@)),
                ("platform"@, jstr("linux"@)),
                ("mode"@, jstr("ui"@)),
            ],
        );
        assert(base =~= seq![
            ("minProtocol"@, jnat(3)),
            ("maxProtocol"@, jnat(3)),
            ("client"@, client_v),
            ("role"@, jstr("operator"@)),
            ("scopes"@, jstrs(operator_scopes())),
            ("caps"@, jstrs(Seq::empty())),
            ("locale"@, jstr("en-US"@)),
            ("userAgent"@, jstr("openclaw-linux/dev"@)),
                ]);
    }
    JsonValue::Object(ms)
}

/// A request id: `<prefix>-<nanoseconds since the epoch>`.
pub fn request_id(prefix: &str, nanos: u128) -> (r: String)
    ensures
        r@ == prefix@ + "-"@ + decimal(nanos as nat),
{
    String::from_str(prefix).concat("-").concat(u128_to_decimal(nanos).as_str())
}

/// Whether a frame is a response (`type` is `"res"`).
pub fn is_response_frame(frame: &JsonValue) -> (r: bool)
    ensures
        r == (get_str(frame@, "type"@) == Some("res"@)),
{
    proof {
        reveal_strlit("type");
    }
    match frame.get("type") {
        Some(t) => match t.as_str() {
            Some(s) => str_eq(s.as_str(), "res"),
            None => false,
        },
        None => false,
    }
}

/// What a response comes to: its payload (`null` where it has none) where
/// it is ok, else its error's message, or `fallback` where it has none.
pub fn response_outcome(
    ok: bool,
    payload: Option<JsonValue>,
    error: Option<&JsonValue>,
    fallback: &str,
) -> (r: Result<JsonValue, String>)
    ensures
        ok ==> (r matches Ok(v) && v@ == match payload {
            Some(p) => p@,
            None => JsonView::Null,
        }),
        !ok ==> (r matches Err(m) && m@ == error_message(
            match error {
                Some(e) => Some(e@),
                None => None,
            },
            fallback@,
        )),
{
    if !ok {
        return Err(response_error_message(error, fallback));
    }
    match payload {
        Some(p) => Ok(p),
        None => Ok(JsonValue::Null),
    }
}

/// The check of a `health` payload: it fails only where `ok` is `false`.
pub fn check_health(payload: &JsonValue) -> (r: Result<(), String>)
    ensures
        match r {
            Ok(()) => !(match payload@.get("ok"@) {
                Some(v) => v.as_bool() == Some(false),
                None => false,
            }),
            Err(m) => (match payload@.get("ok"@) {
                Some(v) => v.as_bool() == Some(false),
                None => false,
            }) && m@ == "Gateway health check failed"@,
        },
{
    proof {
        reveal_strlit("ok");
    }
    let failed = match payload.get("ok") {
        Some(v) => match v.as_bool() {
            Some(b) => !b,
            None => false,
        },
        None => false,
    };
    if failed {
        Err(String::from_str("Gateway health check failed"))
    } else {
        Ok(())
    }
}


/// A fresh request id, `<prefix>-<nanoseconds since the epoch>` read from
/// the clock.
pub fn new_request_id(prefix: &str) -> (r: String)
    ensures
        exists|n: nat| r@ == prefix@ + "-"@ + decimal(n),
{
    request_id(prefix, clock_nanos())
}


/// What `url::Url::parse` makes of a text: the URL as `Url::as_str`
/// serializes it, or the parse error's text.
pub uninterp spec fn url_serialized(text: Seq<char>) -> Result<Seq<char>, Seq<char>>;

/// Calls `url::Url::parse` and gives back `Url::as_str` of the URL, or the
/// error's `Display` text.
#[verifier::external_body]
fn parse_url(text: &str) -> (r: Result<String, String>)
    ensures
        match r {
            Ok(u) => url_serialized(text@) == Ok::<Seq<char>, Seq<char>>(u@),
            Err(e) => url_serialized(text@) == Err::<Seq<char>, Seq<char>>(e@),
        },
{
    match url::Url::parse(text) {
        Ok(u) => Ok(u.as_str().to_string()),
        Err(err) => Err(err.to_string()),
    }
}

/// The WebSocket URL for a configured gateway URL: the URL parsed and
/// serialized, or why it does not parse.
pub fn socket_url(url: &str) -> (r: Result<String, String>)
    ensures
        match r {
            Ok(u) => url_serialized(url@) == Ok::<Seq<char>, Seq<char>>(u@),
            Err(e) => url_serialized(url@) == Err::<Seq<char>, Seq<char>>(e@),
        },
{
    parse_url(url)
}

/// Where an operator request goes: the config's URL, parsed; an error where
/// none is configured or it does not parse.
pub fn rpc_target(config: &GatewayConfig) -> (r: Result<String, String>)
    ensures
        match config.url {
            None => r matches Err(e) && e@ == "Gateway URL not configured"@,
            Some(u) => match r {
                Ok(t) => url_serialized(u@) == Ok::<Seq<char>, Seq<char>>(t@),
                Err(e) => url_serialized(u@) == Err::<Seq<char>, Seq<char>>(e@),
            },
        },
{
    match &config.url {
        None => Err(String::from_str("Gateway URL not configured")),
        Some(u) => socket_url(u.as_str()),
    }
}


/// What a text frame is to a reader that waits for a response.
pub enum FrameRead {
    /// Not a response (its `type` is not `"res"`): read on.
    NotResponse,
    /// A response frame, to be decoded and matched by id.
    Response(JsonValue),
    /// Not JSON: the wait fails with the parser's error.
    Unreadable(String),
}

/// One text frame read while waiting for a response: JSON whose `type` is `"res"` is a
/// response; other JSON is skipped; text that is not JSON ends the wait.
pub fn read_frame(text: &str) -> (r: FrameRead)
    ensures
        match json_parse(text@) {
            Err(e) => r matches FrameRead::Unreadable(m) && m@ == e,
            Ok(v) => if get_str(v, "type"@) == Some("res"@) {
                r matches FrameRead::Response(x) && x@ == v
            } else {
                r is NotResponse
            },
        },
{
    match parse_json_text(text) {
        Err(e) => FrameRead::Unreadable(e),
        Ok(v) => if is_response_frame(&v) {
            FrameRead::Response(v)
        } else {
            FrameRead::NotResponse
        },
    }
}


/// Whether a response frame answers the request `id`: its `id` is that
/// string.
pub fn responds_to(frame: &JsonValue, id: &str) -> (r: bool)
    ensures
        r == (get_str(frame@, "id"@) == Some(id@)),
{
    proof {
        reveal_strlit("id");
    }
    match frame.get("id") {
        Some(v) => match v.as_str() {
            Some(s) => str_eq(s.as_str(), id),
            None => false,
        },
        None => false,
    }
}

} // verus!
