//! Starting the local gateway: when it is needed, and how it is run.
use vstd::prelude::*;
use crate::config::{GatewayConfig, GatewayMode};
use crate::frames::str_views;
use crate::text::{decimal, u64_to_decimal};

verus! {

/// Only a local gateway is started by the app.
pub fn needs_local_gateway(config: &GatewayConfig) -> (r: bool)
    ensures
        r == (config.mode == GatewayMode::Local),
{
    config.mode == GatewayMode::Local
}

/// A local gateway without a token or password gets a generated token.
pub fn needs_generated_token(config: &GatewayConfig) -> (r: bool)
    ensures
        r == (config.token is None && config.password is None),
{
    config.token.is_none() && config.password.is_none()
}

/// The arguments of `openclaw` that run a gateway on loopback at `port`.
pub open spec fn gateway_args_for(port: u16) -> Seq<Seq<char>> {
    seq!["gateway"@, "run"@, "--bind"@, "loopback"@, "--port"@, decimal(port as nat), "--force"@]
}

pub fn gateway_run_args(port: u16) -> (r: Vec<String>)
    ensures
        str_views(r@) == gateway_args_for(port),
{
    let mut r: Vec<String> = Vec::new();
    r.push(String::from_str("gateway"));
    r.push(String::from_str("run"));
    r.push(String::from_str("--bind"));
    r.push(String::from_str("loopback"));
    r.push(String::from_str("--port"));
    r.push(u64_to_decimal(port as u64));
    r.push(String::from_str("--force"));
    assert(str_views(r@) =~= gateway_args_for(port));
    r
}

/// Where the started gateway's output goes.
pub fn gateway_log_path() -> (r: &'static str)
    ensures
        r@ == "/tmp/openclaw/openclaw-linux-gateway.log"@,
{
    "/tmp/openclaw/openclaw-linux-gateway.log"
}

/// The error where the started gateway did not answer in time.
pub fn start_timeout_message() -> (r: String)
    ensures
        r@ == "Local gateway did not become ready in time. Check logs at "@
            + "/tmp/openclaw/openclaw-linux-gateway.log"@ + "."@,
{
    String::from_str("Local gateway did not become ready in time. Check logs at ").concat(
        gateway_log_path(),
    ).concat(".")
}

} // verus!
