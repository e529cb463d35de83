use vstd::prelude::*;
use crate::state::{INITIAL_HEIGHT, INITIAL_WIDTH};

verus! {

/// What the window and its graphics context are created with.
#[derive(Clone, Copy, Debug, PartialEq, Eq)]
pub struct WindowConfig {
    /// Text of the title bar.
    pub title: &'static str,
    /// Width at start-up, in pixels.
    pub width: u32,
    /// Height at start-up, in pixels.
    pub height: u32,
    /// Whether the user may resize the window.
    pub resizable: bool,
    /// Smallest width the window may be resized to, in pixels.
    pub min_width: u32,
    /// Smallest height the window may be resized to, in pixels.
    pub min_height: u32,
    /// Major version of the graphics interface asked for.
    pub gl_major: u8,
    /// Minor version of the graphics interface asked for.
    pub gl_minor: u8,
    /// Whether the core profile is asked for, without the legacy parts.
    pub core_profile: bool,
    /// Whether a forward-compatible context is asked for.
    pub forward_compatible: bool,
    /// Number of display refreshes between two presented frames.
    pub swap_interval: i32,
}

/// The settings of the application's window: "Browser", 800 by 600 pixels,
/// resizable down to 300 by 300, on a forward-compatible core context of
/// version 4.6, presenting in step with the display.
pub open spec fn browser_window() -> WindowConfig {
    WindowConfig {
        title: "Browser",
        width: 800,
        height: 600,
        resizable: true,
        min_width: 300,
        min_height: 300,
        gl_major: 4,
        gl_minor: 6,
        core_profile: true,
        forward_compatible: true,
        swap_interval: 1,
    }
}

/// The settings to create the application's window and context with.
pub fn create_sdl2_context() -> (config: WindowConfig)
    ensures
        config == browser_window(),
{
    WindowConfig {
        title: "Browser",
        width: 800,
        height: 600,
        resizable: true,
        min_width: 300,
        min_height: 300,
        gl_major: 4,
        gl_minor: 6,
        core_profile: true,
        forward_compatible: true,
        swap_interval: 1,
    }
}

/// The window opens with the extent that the application's state starts
/// from, and it cannot be made so small that it has no extent.
pub proof fn lemma_window_matches_state()
    ensures
        browser_window().width == INITIAL_WIDTH,
        browser_window().height == INITIAL_HEIGHT,
        browser_window().min_width > 0,
        browser_window().min_height > 0,
        browser_window().min_width <= browser_window().width,
        browser_window().min_height <= browser_window().height,
{
}

} // verus!
