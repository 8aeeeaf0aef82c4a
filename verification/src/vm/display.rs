//! How the VM's display is exposed to the host.
use vstd::prelude::*;

verus! {

/// How the VM's display is exposed to the host.
#[derive(Debug, Clone, PartialEq, Eq)]
pub enum DisplayMode {
    /// SDL window on the host desktop.
    Sdl,
    /// VNC server; the field is `host:display` (e.g. `"127.0.0.1:0"`).
    Vnc(String),
    /// No display output.
    Headless,
}

impl Default for DisplayMode {
    /// No display output.
    fn default() -> (res: Self)
        ensures
            res == DisplayMode::Headless,
    {
        DisplayMode::Headless
    }
}

} // verus!
