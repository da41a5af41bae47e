//! Marker for the window plugin that disables the webview's pinch-zoom
//! gesture. The gesture teardown itself is platform webview work done by the
//! surrounding application; the library only defines the plugin's identity.
use vstd::prelude::*;

verus! {

#[derive(PartialEq, Eq, Structural, Clone, Copy, Debug)]
pub struct PinchZoomDisablePlugin;

impl PinchZoomDisablePlugin {
    /// The plugin's registration name.
    pub fn name(&self) -> (r: &'static str)
        ensures
            r@ == "Does not matter here"@,
    {
        "Does not matter here"
    }
}

impl Default for PinchZoomDisablePlugin {
    fn default() -> (r: Self)
        ensures
            r == PinchZoomDisablePlugin,
    {
        PinchZoomDisablePlugin
    }
}

} // verus!
