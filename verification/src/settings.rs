//! The app's own settings.
use vstd::prelude::*;
use crate::env::{Env, path_join, resolve_state_dir, join_path, state_dir};

verus! {

/// The onboarding revision that the app ships; settings that saw an older
/// one show onboarding again.
pub const CURRENT_ONBOARDING_VERSION: u32 = 1;

/// The app's settings, kept in `linux-app.json` in the state directory.
#[derive(Clone, Debug)]
pub struct AppSettings {
    pub paused: bool,
    pub canvas_enabled: bool,
    pub onboarding_seen: bool,
    pub onboarding_version: u32,
}

impl Default for AppSettings {
    fn default() -> (r: Self)
        ensures
            !r.paused,
            r.canvas_enabled,
            !r.onboarding_seen,
            r.onboarding_version == 0,
    {
        AppSettings { paused: false, canvas_enabled: true, onboarding_seen: false, onboarding_version: 0 }
    }
}

impl AppSettings {
    /// Whether onboarding is due: it was never finished, or finished for an
    /// older revision.
    pub open spec fn onboarding_due(&self) -> bool {
        !self.onboarding_seen || self.onboarding_version < CURRENT_ONBOARDING_VERSION
    }

    pub fn should_show_onboarding(&self) -> (r: bool)
        ensures
            r == self.onboarding_due(),
    {
        !self.onboarding_seen || self.onboarding_version < CURRENT_ONBOARDING_VERSION
    }

    /// Records that onboarding was finished for the current revision.
    pub fn mark_onboarding_seen(&mut self)
        ensures
            final(self).onboarding_seen,
            final(self).onboarding_version == CURRENT_ONBOARDING_VERSION,
            final(self).paused == old(self).paused,
            final(self).canvas_enabled == old(self).canvas_enabled,
            !final(self).onboarding_due(),
    {
        self.onboarding_seen = true;
        self.onboarding_version = CURRENT_ONBOARDING_VERSION;
    }

    /// Where the settings live: `linux-app.json` in the state directory.
    pub fn path(env: &Env) -> (r: String)
        ensures
            r@ == path_join(state_dir(env), "linux-app.json"@),
    {
        let dir = resolve_state_dir(env);
        join_path(dir.as_str(), "linux-app.json")
    }
}

} // verus!
