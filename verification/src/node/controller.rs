//! The node's connection to the gateway: what it connects with, and the
//! status it reports.
use vstd::prelude::*;
use std::sync::Arc;
use crate::config::GatewayConfig;
use crate::env::opt_str;
use crate::node::caps::{caps_for, commands_for, current_caps, current_commands, str_views};
use crate::node::permissions::current_permissions;
use crate::node::runtime::NodeRuntime;
use crate::node::session::{ConnectOptions, GatewayNodeSession};
use crate::settings::AppSettings;
use crate::sync::{Mutex, new_mutex};
use crate::text::{trim, trim_string};
use crate::ui::UiControl;

verus! {

/// Whether the node is connected, and why it last failed.
#[derive(Clone, Debug, Default)]
pub struct NodeStatus {
    pub connected: bool,
    pub last_error: Option<String>,
}

/// Calls `Arc::clone`: a second handle on the same value.
#[verifier::external_body]
pub(crate) fn share<T: ?Sized>(a: &Arc<T>) -> (r: Arc<T>)
    ensures
        r == *a,
{
    Arc::clone(a)
}

/// The node: its settings, status, session and command runtime, shared
/// with the tasks that use them.
pub struct NodeController<U: UiControl> {
    settings: Arc<Mutex<AppSettings>>,
    status: Arc<Mutex<NodeStatus>>,
    session: Arc<GatewayNodeSession>,
    runtime: Arc<NodeRuntime<U>>,
}

impl<U: UiControl> Clone for NodeController<U> {
    fn clone(&self) -> (r: Self)
        ensures
            r.settings_handle() == self.settings_handle(),
            r.status_handle() == self.status_handle(),
            r.runtime_handle() == self.runtime_handle(),
            r.session_handle() == self.session_handle(),
    {
        NodeController {
            settings: share(&self.settings),
            status: share(&self.status),
            session: share(&self.session),
            runtime: share(&self.runtime),
        }
    }
}

impl<U: UiControl> NodeController<U> {
    pub closed spec fn settings_handle(&self) -> Arc<Mutex<AppSettings>> {
        self.settings
    }

    pub closed spec fn status_handle(&self) -> Arc<Mutex<NodeStatus>> {
        self.status
    }

    pub closed spec fn runtime_handle(&self) -> Arc<NodeRuntime<U>> {
        self.runtime
    }

    pub closed spec fn session_handle(&self) -> Arc<GatewayNodeSession> {
        self.session
    }

    /// A controller with a fresh, disconnected status and session.
    pub fn new(settings: Arc<Mutex<AppSettings>>, runtime: Arc<NodeRuntime<U>>) -> (r: Self)
        ensures
            r.settings_handle() == settings,
            r.runtime_handle() == runtime,
    {
        NodeController {
            settings,
            status: Arc::new(new_mutex(NodeStatus { connected: false, last_error: None })),
            session: Arc::new(GatewayNodeSession::new()),
            runtime,
        }
    }

    /// The shared status.
    pub fn status(&self) -> (r: Arc<Mutex<NodeStatus>>)
        ensures
            r == self.status_handle(),
    {
        share(&self.status)
    }

    /// The shared settings.
    pub fn settings(&self) -> (r: Arc<Mutex<AppSettings>>)
        ensures
            r == self.settings_handle(),
    {
        share(&self.settings)
    }

    /// The session.
    pub fn session(&self) -> (r: Arc<GatewayNodeSession>)
        ensures
            r == self.session_handle(),
    {
        share(&self.session)
    }

    /// The command runtime.
    pub fn runtime(&self) -> (r: Arc<NodeRuntime<U>>)
        ensures
            r == self.runtime_handle(),
    {
        share(&self.runtime)
    }
}

/// What the node connects with: role `node`, the capabilities and commands
/// for the canvas setting, the permissions, and the client identity.
pub open spec fn node_options(o: ConnectOptions, settings: AppSettings) -> bool {
    &&& o.role@ == "node"@
    &&& str_views(o.caps@) == caps_for(settings.canvas_enabled)
    &&& str_views(o.commands@) == commands_for(settings.canvas_enabled)
    &&& o.permissions@ == Map::<String, bool>::empty()
    &&& o.client_id@ == "node-host"@
    &&& o.client_mode@ == "node"@
    &&& o.client_display_name@ == "OpenClaw Linux"@
}

/// The status of a node that has no gateway URL.
pub open spec fn unconfigured_status(s: NodeStatus) -> bool {
    !s.connected && opt_str(s.last_error) == Some("Gateway URL not configured"@)
}

/// The first decision of a connect attempt: the config's URL where it is
/// not blank, else the status of a node that has none configured.
pub fn configured_url(config: &GatewayConfig) -> (r: Result<String, NodeStatus>)
    ensures
        match r {
            Ok(u) => config.url matches Some(x) && u@ == x@ && trim(u@).len() > 0,
            Err(s) => !(config.url matches Some(x) && trim(x@).len() > 0) && unconfigured_status(s),
        },
{
    match &config.url {
        Some(u) => {
            if trim_string(u.as_str()).unicode_len() > 0 {
                return Ok(u.clone());
            }
        },
        None => {},
    }
    Err(NodeStatus { connected: false, last_error: Some(String::from_str("Gateway URL not configured")) })
}

/// What the node connects with for the current settings.
pub fn connect_options(settings: &AppSettings) -> (r: ConnectOptions)
    ensures
        node_options(r, *settings),
{
    ConnectOptions {
        role: String::from_str("node"),
        caps: current_caps(settings.canvas_enabled),
        commands: current_commands(settings.canvas_enabled),
        permissions: current_permissions(),
        client_id: String::from_str("node-host"),
        client_mode: String::from_str("node"),
        client_display_name: String::from_str("OpenClaw Linux"),
    }
}

/// The status after a connect attempt: connected with no error, or
/// disconnected with the attempt's error.
pub fn status_after_connect(result: Result<(), String>) -> (r: NodeStatus)
    ensures
        match result {
            Ok(()) => r.connected && r.last_error is None,
            Err(e) => !r.connected && opt_str(r.last_error) == Some(e@),
        },
{
    match result {
        Ok(()) => NodeStatus { connected: true, last_error: None },
        Err(e) => NodeStatus { connected: false, last_error: Some(e) },
    }
}

/// The gateway dropped the session for `reason`.
pub fn record_disconnect(status: &mut NodeStatus, reason: String)
    ensures
        !final(status).connected,
        opt_str(final(status).last_error) == Some(reason@),
{
    status.connected = false;
    status.last_error = Some(reason);
}

/// The node was stopped: it is no longer connected; its last error stays.
pub fn record_stop(status: &mut NodeStatus)
    ensures
        !final(status).connected,
        final(status).last_error == old(status).last_error,
{
    status.connected = false;
}

} // verus!
