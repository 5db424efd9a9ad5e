//! The native window frame on Windows: which style bits PinkDown sets.

use vstd::prelude::*;

verus! {

/// Win32 `WS_CAPTION`: title bar (border and dialog frame bits).
pub const WS_CAPTION: u32 = 0x00C0_0000;
/// Win32 `WS_SYSMENU`: window menu.
pub const WS_SYSMENU: u32 = 0x0008_0000;
/// Win32 `WS_THICKFRAME`: sizing border.
pub const WS_THICKFRAME: u32 = 0x0004_0000;
/// Win32 `WS_MINIMIZEBOX`: minimize button.
pub const WS_MINIMIZEBOX: u32 = 0x0002_0000;
/// Win32 `WS_MAXIMIZEBOX`: maximize button.
pub const WS_MAXIMIZEBOX: u32 = 0x0001_0000;

/// The window style PinkDown gives its window: the title bar removed, the
/// sizing border, minimize and maximize buttons and window menu kept.
pub open spec fn frameless_style(style: u32) -> u32 {
    (style & !WS_CAPTION) | WS_THICKFRAME | WS_MINIMIZEBOX | WS_MAXIMIZEBOX | WS_SYSMENU
}

/// The style for the custom-drawn window frame, from the window's `style`.
/// The caption bits are clear, the sizing and button bits set, and every
/// other bit is as in `style`.
pub fn native_window_style(style: u32) -> (r: u32)
    ensures
        r == frameless_style(style),
        r & WS_CAPTION == 0,
        r & (WS_THICKFRAME | WS_MINIMIZEBOX | WS_MAXIMIZEBOX | WS_SYSMENU) == (WS_THICKFRAME
            | WS_MINIMIZEBOX | WS_MAXIMIZEBOX | WS_SYSMENU),
        r & !(WS_CAPTION | WS_THICKFRAME | WS_MINIMIZEBOX | WS_MAXIMIZEBOX | WS_SYSMENU) == style
            & !(WS_CAPTION | WS_THICKFRAME | WS_MINIMIZEBOX | WS_MAXIMIZEBOX | WS_SYSMENU),
{
    let r = (style & !WS_CAPTION) | WS_THICKFRAME | WS_MINIMIZEBOX | WS_MAXIMIZEBOX | WS_SYSMENU;
    assert(r & 0x00C0_0000u32 == 0) by (bit_vector)
        requires
            r == (style & !0x00C0_0000u32) | 0x0004_0000u32 | 0x0002_0000u32 | 0x0001_0000u32
                | 0x0008_0000u32,
    ;
    assert(r & (0x0004_0000u32 | 0x0002_0000u32 | 0x0001_0000u32 | 0x0008_0000u32) == (
    0x0004_0000u32 | 0x0002_0000u32 | 0x0001_0000u32 | 0x0008_0000u32)) by (bit_vector)
        requires
            r == (style & !0x00C0_0000u32) | 0x0004_0000u32 | 0x0002_0000u32 | 0x0001_0000u32
                | 0x0008_0000u32,
    ;
    assert(r & !(0x00C0_0000u32 | 0x0004_0000u32 | 0x0002_0000u32 | 0x0001_0000u32
        | 0x0008_0000u32) == style & !(0x00C0_0000u32 | 0x0004_0000u32 | 0x0002_0000u32
        | 0x0001_0000u32 | 0x0008_0000u32)) by (bit_vector)
        requires
            r == (style & !0x00C0_0000u32) | 0x0004_0000u32 | 0x0002_0000u32 | 0x0001_0000u32
                | 0x0008_0000u32,
    ;
    r
}

} // verus!

verus! {

/// A caption button of the custom window frame.
#[derive(Clone, Copy, Debug, PartialEq, Eq, Structural)]
pub enum WindowButton {
    Minimize,
    Maximize,
    Restore,
    Close,
}

/// The middle caption button and its tooltip: Restore while the window is
/// maximized, Maximize otherwise.
pub fn maximize_button(maximized: bool) -> (r: (WindowButton, &'static str))
    ensures
        maximized ==> r.0 == WindowButton::Restore && r.1@ == "Restore"@,
        !maximized ==> r.0 == WindowButton::Maximize && r.1@ == "Maximize"@,
{
    if maximized {
        (WindowButton::Restore, "Restore")
    } else {
        (WindowButton::Maximize, "Maximize")
    }
}

/// The colours of a caption button: its background fill, drawn while it is
/// hovered or pressed (love for Close, the low highlight otherwise), and its
/// glyph colour (text on a hovered Close, subtle otherwise).
pub fn window_button_colors(kind: WindowButton, hovered: bool, pressed: bool) -> (r: (Option<u32>, u32))
    ensures
        r.0 == if hovered || pressed {
            Some(
                if kind == WindowButton::Close {
                    crate::theme::LOVE
                } else {
                    crate::theme::HIGHLIGHT_LOW
                },
            )
        } else {
            None::<u32>
        },
        r.1 == if kind == WindowButton::Close && hovered {
            crate::theme::TEXT
        } else {
            crate::theme::SUBTLE
        },
{
    let close = match kind {
        WindowButton::Close => true,
        _ => false,
    };
    let fill = if hovered || pressed {
        Some(
            if close {
                crate::theme::LOVE
            } else {
                crate::theme::HIGHLIGHT_LOW
            },
        )
    } else {
        None
    };
    let glyph = if close && hovered {
        crate::theme::TEXT
    } else {
        crate::theme::SUBTLE
    };
    (fill, glyph)
}

} // verus!
