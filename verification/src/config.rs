//! The host window's initial configuration.

use vstd::prelude::*;

verus! {

/// What the host window adapter is asked to create: a resizable,
/// maximized top-level window of the given initial logical size.
#[derive(Clone, Copy, Debug, PartialEq, Eq, Structural)]
pub struct WindowConfig {
    /// Initial client-area width in logical units.
    pub width: u32,
    /// Initial client-area height in logical units.
    pub height: u32,
    /// Whether the window starts maximized.
    pub maximized: bool,
    /// Whether the window is a resizable (tiled) top-level window.
    pub resizable: bool,
}

/// The demo's window configuration: 300 by 150 logical units, maximized,
/// resizable.
pub fn window_config() -> (r: WindowConfig)
    ensures
        r == (WindowConfig { width: 300u32, height: 150u32, maximized: true, resizable: true }),
{
    WindowConfig { width: 300, height: 150, maximized: true, resizable: true }
}

/// The window's title text.
pub fn window_title() -> (r: &'static str)
    ensures
        r@ == "wilistat"@,
{
    "wilistat"
}

} // verus!
