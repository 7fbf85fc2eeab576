//! The capabilities and commands that the node advertises.
use vstd::prelude::*;
use crate::node_runtime::{BridgeInvokeRequest, BridgeInvokeResponse, answers, canvas_url, command_kind, opt_str};

verus! {

pub open spec fn str_views(v: Seq<String>) -> Seq<Seq<char>> {
    v.map_values(|s: String| s@)
}

/// The capabilities: `canvas` (only while the canvas is enabled) and `screen`.
pub open spec fn caps_for(canvas_enabled: bool) -> Seq<Seq<char>> {
    if canvas_enabled {
        seq!["canvas"@, "screen"@]
    } else {
        seq!["screen"@]
    }
}

/// The commands: the three implemented canvas commands while the canvas is
/// enabled, else none.
pub open spec fn commands_for(canvas_enabled: bool) -> Seq<Seq<char>> {
    if canvas_enabled {
        seq!["canvas.present"@, "canvas.hide"@, "canvas.navigate"@]
    } else {
        Seq::empty()
    }
}

pub fn current_caps(canvas_enabled: bool) -> (caps: Vec<String>)
    ensures
        str_views(caps@) == caps_for(canvas_enabled),
{
    let mut caps: Vec<String> = Vec::new();
    if canvas_enabled {
        caps.push(String::from_str("canvas"));
    }
    caps.push(String::from_str("screen"));
    assert(str_views(caps@) =~= caps_for(canvas_enabled));
    caps
}

pub fn current_commands(canvas_enabled: bool) -> (commands: Vec<String>)
    ensures
        str_views(commands@) == commands_for(canvas_enabled),
{
    let mut commands: Vec<String> = Vec::new();
    if canvas_enabled {
        commands.push(String::from_str("canvas.present"));
        commands.push(String::from_str("canvas.hide"));
        commands.push(String::from_str("canvas.navigate"));
    }
    assert(str_views(commands@) =~= commands_for(canvas_enabled));
    commands
}


/// Every command that the node advertises is one that its runtime handles:
/// none is answered as unknown or as not yet available.
pub proof fn law_advertised_commands_are_handled(canvas_enabled: bool)
    ensures
        forall|i: int|
            0 <= i < commands_for(canvas_enabled).len() ==> {
                let k = command_kind(#[trigger] commands_for(canvas_enabled)[i]);
                k is Present || k is Hide || k is Navigate
            },
{
    reveal_strlit("canvas.present");
    reveal_strlit("canvas.hide");
    reveal_strlit("canvas.navigate");
    assert("canvas.present"@.len() == 14 && "canvas.hide"@.len() == 11 && "canvas.navigate"@.len() == 15);
}

/// The canvas capability is advertised exactly while the canvas is enabled,
/// and without it no command is.
pub proof fn law_canvas_cap_follows_setting(canvas_enabled: bool)
    ensures
        caps_for(canvas_enabled).contains("canvas"@) == canvas_enabled,
        caps_for(canvas_enabled).contains("screen"@),
        !canvas_enabled ==> commands_for(canvas_enabled).len() == 0,
        caps_for(canvas_enabled).contains("canvas"@) <==> commands_for(canvas_enabled).len() > 0,
{
    reveal_strlit("canvas");
    reveal_strlit("screen");
    assert("canvas"@[0] != "screen"@[0]);
    if canvas_enabled {
        assert(caps_for(canvas_enabled)[0] == "canvas"@);
        assert(caps_for(canvas_enabled)[1] == "screen"@);
    } else {
        assert(caps_for(canvas_enabled)[0] == "screen"@);
    }
}


/// Every advertised command succeeds: the node's answer to a command that it
/// advertises is a success, for `canvas.navigate` where its parameters hold
/// a URL (the parameters are parsed as JSON; see `canvas_url`).
pub proof fn law_advertised_commands_succeed(
    canvas_enabled: bool,
    req: BridgeInvokeRequest,
    res: BridgeInvokeResponse,
)
    requires
        commands_for(canvas_enabled).contains(req.command@),
        req.command@ == "canvas.navigate"@ ==> canvas_url(opt_str(req.params_json)) is Some,
        answers(res, req),
    ensures
        res.ok,
        res.error is None,
        res.id == req.id,
{
    law_advertised_commands_are_handled(canvas_enabled);
    let i = choose|i: int| 0 <= i < commands_for(canvas_enabled).len() && commands_for(canvas_enabled)[i] == req.command@;
    let k = command_kind(commands_for(canvas_enabled)[i]);
    assert(k is Present || k is Hide || k is Navigate);
    reveal_strlit("canvas.navigate");
    reveal_strlit("canvas.present");
    reveal_strlit("canvas.hide");
}

} // verus!
