//! What the program asks for when it starts: a window, and a GPU adapter.

use vstd::prelude::*;

verus! {

/// The window to open. The size is logical: the window system scales it to
/// pixels.
#[derive(Clone, Copy, Debug, PartialEq, Eq)]
pub struct WindowOptions {
    pub title: &'static str,
    pub width: u32,
    pub height: u32,
    /// Whether the window is shown as soon as it exists.
    pub visible: bool,
}

/// Which adapter to prefer where there are several.
#[derive(Clone, Copy, Debug, PartialEq, Eq)]
pub enum PowerPreference {
    LowPower,
    HighPerformance,
}

/// The adapter to ask for.
#[derive(Clone, Copy, Debug, PartialEq, Eq)]
pub struct AdapterOptions {
    pub power_preference: PowerPreference,
    /// Whether the adapter must be able to present to the surface of the window.
    pub compatible_with_surface: bool,
    /// Whether only a software adapter will do.
    pub force_fallback_adapter: bool,
}

impl WindowOptions {
    /// The one window of the program: 1280 by 720, hidden until its surface
    /// has been configured.
    pub open spec fn main_window() -> WindowOptions {
        WindowOptions { title: "Glyphic Animation Studio", width: 1280, height: 720, visible: false }
    }
}

impl AdapterOptions {
    /// The fastest adapter that can present to the window.
    pub open spec fn fastest() -> AdapterOptions {
        AdapterOptions {
            power_preference: PowerPreference::HighPerformance,
            compatible_with_surface: true,
            force_fallback_adapter: false,
        }
    }
}

/// The window that the program opens.
pub fn window_options() -> (options: WindowOptions)
    ensures
        options == WindowOptions::main_window(),
{
    WindowOptions { title: "Glyphic Animation Studio", width: 1280, height: 720, visible: false }
}

/// The adapter that the program asks for.
pub fn adapter_options() -> (options: AdapterOptions)
    ensures
        options == AdapterOptions::fastest(),
{
    AdapterOptions {
        power_preference: PowerPreference::HighPerformance,
        compatible_with_surface: true,
        force_fallback_adapter: false,
    }
}

} // verus!
