use vstd::prelude::*;

use crate::api::GeometryApi;

verus! {

/// The small settings object persisted across runs: the colour theme and
/// where the geometry backend lives. Loaded at startup, saved whenever the
/// user toggles the theme or edits the URL.
pub struct GeometryViewerConfig {
    pub is_dark_mode: bool,
    pub api: GeometryApi,
}

impl Default for GeometryViewerConfig {
    /// Light mode, default local backend.
    fn default() -> (r: Self)
        ensures
            !r.is_dark_mode,
            r.api.api_url@ == "http://localhost:8000"@,
    {
        GeometryViewerConfig { is_dark_mode: false, api: GeometryApi::new() }
    }
}

} // verus!
