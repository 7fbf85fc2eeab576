//! The node's command handler: what the gateway asks the canvas to do, and
//! what the node answers.
use vstd::prelude::*;
use vstd::utf8::encode_utf8;
use vstd::string::StringSliceAdditionalSpecFns;
use std::sync::Arc;
use crate::json::{JsonValue, JsonView, get_str, json_parse, parse_json_text};
use crate::text::{
    decimal, str_eq, trim, trim_string, trimmed_nonempty, trimmed_or_none,
    u64_to_decimal,
};

verus! {

/// A command that the gateway sends to the node.
#[derive(Clone, Debug)]
pub struct BridgeInvokeRequest {
    pub id: String,
    pub command: String,
    pub params_json: Option<String>,
}

/// The node's answer to a [`BridgeInvokeRequest`].
#[derive(Clone, Debug)]
pub struct BridgeInvokeResponse {
    pub id: String,
    pub ok: bool,
    pub payload_json: Option<String>,
    pub error: Option<NodeError>,
}

/// Why a command failed.
#[derive(Clone, Debug)]
pub struct NodeError {
    pub code: String,
    pub message: String,
}

/// The canvas that commands drive; the embedding app implements it.
pub trait CanvasPort: Send + Sync {
    fn present(&self, url: Option<String>);

    fn hide_canvas(&self);

    fn navigate(&self, url: String);
}

/// What a command does to the canvas.
pub enum CanvasAction {
    Present(Option<String>),
    Hide,
    Navigate(String),
    Nothing,
}

/// How a command name is handled.
pub enum CommandKind {
    Present,
    Hide,
    Navigate,
    /// A canvas command that the node does not implement yet.
    Unavailable,
    Unknown,
}

pub open spec fn command_kind(cmd: Seq<char>) -> CommandKind {
    if cmd == "canvas.present"@ {
        CommandKind::Present
    } else if cmd == "canvas.hide"@ {
        CommandKind::Hide
    } else if cmd == "canvas.navigate"@ {
        CommandKind::Navigate
    } else if cmd == "canvas.eval"@ || cmd == "canvas.snapshot"@ || cmd == "canvas.a2ui.reset"@
        || cmd == "canvas.a2ui.push"@ || cmd == "canvas.a2ui.pushJSONL"@ {
        CommandKind::Unavailable
    } else {
        CommandKind::Unknown
    }
}

/// `parse_canvas_url`: the trimmed `url` string member of the JSON object
/// that the trimmed parameters hold, where it is not empty.
pub open spec fn canvas_url(raw: Option<Seq<char>>) -> Option<Seq<char>> {
    match raw {
        Some(r) => if trim(r).len() == 0 {
            None
        } else {
            match json_parse(trim(r)) {
                Ok(v) => url_member(v),
                Err(_) => None,
            }
        },
        None => None,
    }
}

/// The trimmed, non-empty `url` string member of a JSON value.
pub open spec fn url_member(v: JsonView) -> Option<Seq<char>> {
    match get_str(v, "url"@) {
        Some(u) => trimmed_nonempty(u),
        None => None,
    }
}

pub open spec fn opt_str(o: Option<String>) -> Option<Seq<char>> {
    match o {
        Some(s) => Some(s@),
        None => None,
    }
}

/// The failure a response carries, as (code, message).
pub open spec fn response_error(res: BridgeInvokeResponse) -> Option<(Seq<char>, Seq<char>)> {
    match res.error {
        Some(e) => Some((e.code@, e.message@)),
        None => None,
    }
}

/// The answer to a command named `cmd` whose parameters are `params`: the
/// request's id echoed, no payload, and success or the listed failure.
pub open spec fn answers(res: BridgeInvokeResponse, req: BridgeInvokeRequest) -> bool {
    &&& res.id == req.id
    &&& res.payload_json is None
    &&& match command_kind(req.command@) {
        CommandKind::Present | CommandKind::Hide => res.ok && response_error(res) is None,
        CommandKind::Navigate => if canvas_url(opt_str(req.params_json)) is Some {
            res.ok && response_error(res) is None
        } else {
            !res.ok && response_error(res) == Some(
                ("invalid_request"@, "INVALID_REQUEST: url required"@),
            )
        },
        CommandKind::Unavailable => !res.ok && response_error(res) == Some(
            ("unavailable"@, "CANVAS_UNAVAILABLE: canvas not implemented yet"@),
        ),
        CommandKind::Unknown => !res.ok && response_error(res) == Some(
            ("invalid_request"@, "INVALID_REQUEST: unknown command"@),
        ),
    }
}

/// What the command does to the canvas: `canvas.present` shows it (at the
/// URL where one is given), `canvas.hide` hides it, `canvas.navigate` loads
/// its URL where one is given; nothing else touches it.
pub open spec fn acts(action: CanvasAction, req: BridgeInvokeRequest) -> bool {
    match command_kind(req.command@) {
        CommandKind::Present => action matches CanvasAction::Present(u) && opt_str(u) == canvas_url(
            opt_str(req.params_json),
        ),
        CommandKind::Hide => action is Hide,
        CommandKind::Navigate => match canvas_url(opt_str(req.params_json)) {
            Some(u) => action matches CanvasAction::Navigate(v) && v@ == u,
            None => action is Nothing,
        },
        _ => action is Nothing,
    }
}

/// The trimmed, non-empty `url` string member of a parsed parameter object.
pub fn canvas_url_from_value(v: &JsonValue) -> (r: Option<String>)
    ensures
        opt_str(r) == url_member(v@),
{
    proof {
        reveal_strlit("url");
    }
    match v.get("url") {
        Some(u) => match u.as_str() {
            Some(s) => trimmed_or_none(s.as_str()),
            None => None,
        },
        None => None,
    }
}

/// The canvas URL in a command's JSON parameters. `required` only decides,
/// for the caller, whether a missing URL is worth a warning.
pub fn parse_canvas_url(raw: Option<&str>, required: bool) -> (r: Option<String>)
    ensures
        opt_str(r) == canvas_url(
            match raw {
                Some(s) => Some(s@),
                None => None,
            },
        ),
{
    match raw {
        Some(s) => {
            let t = trim_string(s);
            if t.unicode_len() == 0 {
                return None;
            }
            match parse_json_text(t.as_str()) {
                Ok(v) => canvas_url_from_value(&v),
                Err(_) => None,
            }
        },
        None => None,
    }
}

fn failure(id: String, code: &str, message: &str) -> (r: BridgeInvokeResponse)
    ensures
        r.id == id,
        r.payload_json is None,
        !r.ok,
        response_error(r) == Some((code@, message@)),
{
    BridgeInvokeResponse {
        id,
        ok: false,
        payload_json: None,
        error: Some(NodeError { code: String::from_str(code), message: String::from_str(message) }),
    }
}

fn success(id: String) -> (r: BridgeInvokeResponse)
    ensures
        r.id == id,
        r.payload_json is None,
        r.ok,
        response_error(r) is None,
{
    BridgeInvokeResponse { id, ok: true, payload_json: None, error: None }
}

/// Decides a command: the answer, and what it does to the canvas.
pub fn plan_invoke(req: BridgeInvokeRequest) -> (r: (BridgeInvokeResponse, CanvasAction))
    ensures
        answers(r.0, req),
        acts(r.1, req),
{
    proof {
        reveal_strlit("canvas.present");
        reveal_strlit("canvas.hide");
        reveal_strlit("canvas.navigate");
        reveal_strlit("canvas.eval");
        reveal_strlit("canvas.snapshot");
        reveal_strlit("canvas.a2ui.reset");
        reveal_strlit("canvas.a2ui.push");
        reveal_strlit("canvas.a2ui.pushJSONL");
    }
    let ghost req0 = req;
    let cmd = req.command.as_str();
    let params = match &req.params_json {
        Some(p) => Some(p.as_str()),
        None => None,
    };
    if str_eq(cmd, "canvas.present") {
        let url = parse_canvas_url(params, false);
        (success(req.id), CanvasAction::Present(url))
    } else if str_eq(cmd, "canvas.hide") {
        (success(req.id), CanvasAction::Hide)
    } else if str_eq(cmd, "canvas.navigate") {
        match parse_canvas_url(params, true) {
            Some(url) => (success(req.id), CanvasAction::Navigate(url)),
            None => (
                failure(req.id, "invalid_request", "INVALID_REQUEST: url required"),
                CanvasAction::Nothing,
            ),
        }
    } else if str_eq(cmd, "canvas.eval") || str_eq(cmd, "canvas.snapshot") || str_eq(
        cmd,
        "canvas.a2ui.reset",
    ) || str_eq(cmd, "canvas.a2ui.push") || str_eq(cmd, "canvas.a2ui.pushJSONL") {
        (
            failure(req.id, "unavailable", "CANVAS_UNAVAILABLE: canvas not implemented yet"),
            CanvasAction::Nothing,
        )
    } else {
        (
            failure(req.id, "invalid_request", "INVALID_REQUEST: unknown command"),
            CanvasAction::Nothing,
        )
    }
}

/// Routes gateway commands to a canvas.
pub struct NodeRuntime<P: CanvasPort> {
    canvas: Arc<P>,
}

impl<P: CanvasPort> NodeRuntime<P> {
    pub closed spec fn canvas(&self) -> Arc<P> {
        self.canvas
    }

    pub fn new(canvas: Arc<P>) -> (r: Self)
        ensures
            r.canvas() == canvas,
    {
        NodeRuntime { canvas }
    }

    /// Answers a command, and drives the canvas as [`plan_invoke`] decides:
    /// `present` with the URL, `hide_canvas`, or `navigate` to the URL.
    pub fn handle_invoke(&self, req: BridgeInvokeRequest) -> (res: BridgeInvokeResponse)
        ensures
            answers(res, req),
    {
        let (res, action) = plan_invoke(req);
        match action {
            CanvasAction::Present(url) => self.canvas.present(url),
            CanvasAction::Hide => self.canvas.hide_canvas(),
            CanvasAction::Navigate(url) => self.canvas.navigate(url),
            CanvasAction::Nothing => {},
        }
        res
    }
}


/// The text with every newline turned into a space.
pub open spec fn newlines_to_spaces(s: Seq<char>) -> Seq<char> {
    s.map_values(|c: char| if c == '\n' { ' ' } else { c })
}

/// The number of bytes of `s` in UTF-8 (`str::len`).
pub open spec fn byte_len(s: Seq<char>) -> nat {
    encode_utf8(s).len()
}

/// `s` cut after its first `max` bytes with the total byte length noted,
/// where it is longer than that; else `s`.
pub open spec fn clipped(s: Seq<char>, max: nat, r: Seq<char>) -> bool {
    if byte_len(s) > max {
        exists|p: Seq<char>|
            encode_utf8(p) == encode_utf8(s).subrange(0, max as int) && r == p + "... (len="@
                + decimal(byte_len(s)) + ")"@
    } else {
        r == s
    }
}

/// Whether cutting `s` after `max` bytes stays on a character boundary, as
/// slicing `&s[..max]` needs where `s` is longer (and its length fits in
/// memory).
pub open spec fn cut_ok(s: Seq<char>, max: nat) -> bool {
    &&& byte_len(s) <= usize::MAX
    &&& byte_len(s) > max ==> vstd::utf8::is_char_boundary(encode_utf8(s), max as int)
}

fn clip(s: &str, max: usize) -> (r: String)
    requires
        cut_ok(s@, max as nat),
    ensures
        clipped(s@, max as nat, r@),
{
    proof {
        reveal_strlit("... (len=");
        reveal_strlit(")");
    }
    let n = s.len();
    if n > max {
        let (head, _tail) = s.split_at(max);
        proof {
            assert(encode_utf8(head@) == head.spec_bytes());
        }
        let r = String::from_str(head).concat("... (len=").concat(u64_to_decimal(n as u64).as_str()).concat(")");
        assert(r@ == head@ + "... (len="@ + decimal(byte_len(s@)) + ")"@);
        r
    } else {
        String::from_str(s)
    }
}

/// `preview_params`: the parameters on one line, cut after 180 bytes.
pub fn preview_params(raw: &str) -> (r: String)
    requires
        cut_ok(newlines_to_spaces(raw@), 180),
    ensures
        clipped(newlines_to_spaces(raw@), 180, r@),
{
    proof {
        reveal_strlit(" ");
    }
    let n = raw.unicode_len();
    let mut compact = String::new();
    let mut i: usize = 0;
    while i < n
        invariant
            n == raw@.len(),
            i <= n,
            compact@ =~= newlines_to_spaces(raw@.take(i as int)),
        decreases n - i,
    {
        let ghost before = compact@;
        if raw.get_char(i) == '\n' {
            compact.append(" ");
            proof {
                reveal_strlit(" ");
                assert(" "@ =~= seq![' ']);
            }
        } else {
            compact.append(raw.substring_char(i, i + 1));
            assert(raw@.subrange(i as int, i + 1) =~= seq![raw@[i as int]]);
        }
        proof {
            assert(raw@.take(i + 1) =~= raw@.take(i as int).push(raw@[i as int]));
            assert(newlines_to_spaces(raw@.take(i + 1)) =~= newlines_to_spaces(raw@.take(i as int)).push(
                if raw@[i as int] == '\n' { ' ' } else { raw@[i as int] },
            ));
        }
        i = i + 1;
    }
    assert(raw@.take(n as int) =~= raw@);
    clip(compact.as_str(), 180)
}

/// `describe_canvas_target`: a short description of a canvas URL for the log.
pub open spec fn describes(target: Option<Seq<char>>, r: Seq<char>) -> bool {
    match target {
        None => r == "(none)"@,
        Some(t) => {
            let tr = trim(t);
            if tr.len() == 0 {
                r == "(empty)"@
            } else if tr[0] == '<' {
                r == "<inline-html len="@ + decimal(byte_len(tr)) + ">"@
            } else {
                clipped(tr, 160, r)
            }
        },
    }
}

pub fn describe_canvas_target(target: Option<&str>) -> (r: String)
    requires
        match target {
            Some(t) => byte_len(trim(t@)) <= usize::MAX && (trim(t@).len() > 0 && trim(t@)[0] != '<'
            ==> cut_ok(trim(t@), 160)),
            None => true,
        },
    ensures
        describes(
            match target {
                Some(t) => Some(t@),
                None => None,
            },
            r@,
        ),
{
    proof {
        reveal_strlit("(none)");
        reveal_strlit("(empty)");
        reveal_strlit("<inline-html len=");
        reveal_strlit(">");
    }
    match target {
        None => String::from_str("(none)"),
        Some(t) => {
            let tr = trim_string(t);
            if tr.unicode_len() == 0 {
                return String::from_str("(empty)");
            }
            if tr.get_char(0) == '<' {
                let n = tr.as_str().len();
                return String::from_str("<inline-html len=").concat(u64_to_decimal(n as u64).as_str()).concat(">");
            }
            clip(tr.as_str(), 160)
        },
    }
}

} // verus!
