//! The node runtime as the Linux app wires it: canvas commands go to the UI.
use vstd::prelude::*;
use std::sync::Arc;
use crate::node_runtime::{self as core_runtime, BridgeInvokeRequest, BridgeInvokeResponse, CanvasPort, answers};
use crate::ui::UiControl;

verus! {

/// The canvas, as the UI shows it.
pub struct UiCanvasPort<U: UiControl> {
    ui: Arc<U>,
}

impl<U: UiControl> CanvasPort for UiCanvasPort<U> {
    fn present(&self, url: Option<String>) {
        self.ui.present_canvas(url);
    }

    fn hide_canvas(&self) {
        self.ui.hide_canvas();
    }

    fn navigate(&self, url: String) {
        self.ui.navigate_canvas(url);
    }
}

/// Routes gateway commands to the UI's canvas.
pub struct NodeRuntime<U: UiControl> {
    inner: core_runtime::NodeRuntime<UiCanvasPort<U>>,
}

impl<U: UiControl> NodeRuntime<U> {
    pub closed spec fn ui(&self) -> Arc<U> {
        self.inner.canvas().ui
    }

    pub fn new(ui: Arc<U>) -> (r: Self)
        ensures
            r.ui() == ui,
    {
        let port = Arc::new(UiCanvasPort { ui });
        NodeRuntime { inner: core_runtime::NodeRuntime::new(port) }
    }

    /// Answers a command as [`core_runtime::plan_invoke`] decides, showing,
    /// hiding or navigating the UI's canvas.
    pub fn handle_invoke(&self, req: BridgeInvokeRequest) -> (res: BridgeInvokeResponse)
        ensures
            answers(res, req),
    {
        self.inner.handle_invoke(req)
    }
}

} // verus!
