//! The vocabulary of server mutations the manager can decide on.
//!
//! Handlers never touch the display; they return a sequence of `XAction`
//! values describing exactly which protocol requests the shell must issue,
//! in order. Each variant carries plain values only, so a test can inspect
//! a decision without a server.

use vstd::prelude::*;

verus! {

/// Which of the two cursors created at startup to show on a window.
#[derive(Clone, Copy, Debug, PartialEq, Eq, Structural)]
pub enum CursorKind {
    Normal,
    Grabbing,
}

/// One protocol request the shell must issue on the real connection.
#[derive(Clone, Debug, PartialEq, Eq)]
pub enum XAction {
    /// Make the window viewable.
    MapWindow { window: u64 },
    /// Hide the window without destroying it.
    UnmapWindow { window: u64 },
    /// Destroy the window outright (impolite close).
    DestroyWindow { window: u64 },
    /// Raise the window to the top of the stacking order.
    RaiseWindow { window: u64 },
    /// Move the window, keeping its size.
    MoveWindow { window: u64, x: i32, y: i32 },
    /// Resize the window, keeping its position.
    ResizeWindow { window: u64, width: u32, height: u32 },
    /// Move and resize in one request.
    MoveResizeWindow { window: u64, x: i32, y: i32, width: u32, height: u32 },
    /// Set the width of the window's border in pixels.
    SetBorderWidth { window: u64, width: u32 },
    /// Set the colour of the window's border.
    SetBorderColor { window: u64, color: u64 },
    /// Select Enter/Leave/FocusChange events on the window.
    SelectFocusEvents { window: u64 },
    /// Give the window keyboard focus.
    SetInputFocus { window: u64 },
    /// Grab buttons 1 and 3 with the global modifier, asynchronously,
    /// for the move and resize gestures.
    GrabMoveResizeButtons { window: u64, modifier: u32 },
    /// Grab any unmodified button synchronously, for click-to-focus.
    GrabClickToFocus { window: u64 },
    /// Grab the key for `keysym` with `modifier` on the root window.
    GrabKey { keysym: u64, modifier: u32 },
    /// Release every key grab on the root window.
    UngrabAllKeys,
    /// Select SubstructureRedirect | SubstructureNotify | PointerMotion
    /// on the root window.
    SelectRootEvents,
    /// Show one of the manager's cursors on the window.
    DefineCursor { window: u64, cursor: CursorKind },
    /// Publish the id as the root `_NET_ACTIVE_WINDOW` property.
    SetActiveWindowProperty { window: u64 },
    /// Publish the index as the root `_NET_CURRENT_DESKTOP` property.
    SetCurrentDesktopProperty { index: u32 },
    /// Publish the root `_NET_NUMBER_OF_DESKTOPS` property.
    SetNumberOfDesktopsProperty { count: u32 },
    /// Publish the root `_NET_DESKTOP_NAMES` property.
    SetDesktopNamesProperty { names: Vec<String> },
    /// Publish the root `_NET_SUPPORTED` atom list.
    SetSupportedProperty,
    /// Clear the window to its background (repaint after a border change).
    ClearWindow { window: u64 },
    /// Send the ICCCM `WM_DELETE_WINDOW` client message (polite close).
    SendDeleteMessage { window: u64 },
    /// Release the synchronous pointer grab, replaying the click.
    ReplayPointer,
    /// Flush and wait for the server to catch up.
    Sync,
}

} // verus!
