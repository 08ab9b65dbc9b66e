//! Window frame styles, placement flags and the corner-rounding preference,
//! as the native window system encodes them.

use vstd::prelude::*;

verus! {

/// The style bits that give a window a resizable bordered frame: border,
/// thick frame and caption.
pub open spec fn frame_bits() -> u32 {
    0x00C4_0000u32
}

/// The extended style bit that gives a window a raised edge.
pub open spec fn window_edge_bit() -> u32 {
    0x0000_0100u32
}

/// The two style words of a window.
#[derive(Debug, Copy, Clone, PartialEq, Eq, Structural)]
pub struct WindowStyles {
    pub style: u32,
    pub exstyle: u32,
}

impl WindowStyles {
    /// Whether every frame bit is set.
    pub open spec fn framed(self) -> bool {
        self.style & frame_bits() == frame_bits()
    }

    /// Whether no frame bit is set, nor the raised-edge bit.
    pub open spec fn frameless(self) -> bool {
        self.style & frame_bits() == 0 && self.exstyle & window_edge_bit() == 0
    }

    /// The styles after a border toggle. Turning the border on sets the frame
    /// bits; turning it off clears them and the raised-edge bit. Every other
    /// bit stays.
    pub open spec fn with_border(self, on: bool) -> WindowStyles {
        if on {
            WindowStyles { style: self.style | frame_bits(), exstyle: self.exstyle }
        } else {
            WindowStyles {
                style: self.style & !frame_bits(),
                exstyle: self.exstyle & !window_edge_bit(),
            }
        }
    }

    /// Applies a border toggle to the styles.
    pub fn toggle_border(self, on: bool) -> (r: WindowStyles)
        ensures
            r == self.with_border(on),
            on ==> r.framed(),
            !on ==> r.frameless(),
    {
        let border = ws_border();
        let thick = ws_thickframe();
        let caption = ws_caption();
        let edge = ws_ex_windowedge();
        let frame = border | thick | caption;
        let style = self.style;
        let exstyle = self.exstyle;
        assert(frame == 0x00C4_0000u32) by (bit_vector)
            requires
                frame == border | thick | caption,
                border == 0x0080_0000u32,
                thick == 0x0004_0000u32,
                caption == 0x00C0_0000u32,
        ;
        assert((style | 0x00C4_0000u32) & 0x00C4_0000u32 == 0x00C4_0000u32) by (bit_vector);
        assert((style & !0x00C4_0000u32) & 0x00C4_0000u32 == 0) by (bit_vector);
        assert((exstyle & !0x0000_0100u32) & 0x0000_0100u32 == 0) by (bit_vector);
        if on {
            WindowStyles { style: style | frame, exstyle }
        } else {
            WindowStyles { style: style & !frame, exstyle: exstyle & !edge }
        }
    }
}

/// Toggling the border twice the same way gives what toggling it once gives,
/// and no toggle touches a bit outside the frame bits and the raised-edge
/// bit.
pub proof fn lemma_border_toggle(styles: WindowStyles, on: bool)
    ensures
        styles.with_border(on).with_border(on) == styles.with_border(on),
        styles.with_border(on).style & !frame_bits() == styles.style & !frame_bits(),
        styles.with_border(on).exstyle & !window_edge_bit() == styles.exstyle
            & !window_edge_bit(),
        styles.with_border(true).with_border(false) == styles.with_border(false),
{
    let s = styles.style;
    let e = styles.exstyle;
    assert((s | 0x00C4_0000u32) | 0x00C4_0000u32 == s | 0x00C4_0000u32) by (bit_vector);
    assert((s & !0x00C4_0000u32) & !0x00C4_0000u32 == s & !0x00C4_0000u32) by (bit_vector);
    assert((e & !0x0000_0100u32) & !0x0000_0100u32 == e & !0x0000_0100u32) by (bit_vector);
    assert((s | 0x00C4_0000u32) & !0x00C4_0000u32 == s & !0x00C4_0000u32) by (bit_vector);
}

/// How a placement request is to be read: which of its parts the window
/// system is to leave as they are.
#[derive(Debug, Copy, Clone, PartialEq, Eq, Structural)]
pub struct PlacementFlags {
    pub bits: u32,
}

impl PlacementFlags {
    /// The flag that keeps the size of the window.
    pub open spec fn keep_size() -> u32 {
        0x0001u32
    }

    /// The flag that keeps the position of the window.
    pub open spec fn keep_position() -> u32 {
        0x0002u32
    }

    /// The flag that keeps the place of the window in the stacking order.
    pub open spec fn keep_order() -> u32 {
        0x0004u32
    }

    /// The flag that makes the window system recompute the frame.
    pub open spec fn frame_changed() -> u32 {
        0x0020u32
    }

    /// The flags of a frame refresh: recompute the frame; do not move, size
    /// or restack the window.
    pub open spec fn frame_refresh() -> PlacementFlags {
        PlacementFlags { bits: 0x0027u32 }
    }

    /// The flags of a resize: do not move or restack the window.
    pub open spec fn resize_only() -> PlacementFlags {
        PlacementFlags { bits: 0x0006u32 }
    }

    /// Whether every bit of `flag` is set.
    pub open spec fn has(self, flag: u32) -> bool {
        self.bits & flag == flag
    }

    /// The flags of a frame refresh.
    pub fn for_frame_refresh() -> (flags: PlacementFlags)
        ensures
            flags == Self::frame_refresh(),
            flags.has(Self::frame_changed()),
            flags.has(Self::keep_position()),
            flags.has(Self::keep_size()),
            flags.has(Self::keep_order()),
    {
        let size = swp_nosize();
        let position = swp_nomove();
        let order = swp_nozorder();
        let frame = swp_framechanged();
        let bits = position | size | order | frame;
        assert(bits == 0x0027u32 && bits & 0x0020u32 == 0x0020u32 && bits & 0x0002u32 == 0x0002u32
            && bits & 0x0001u32 == 0x0001u32 && bits & 0x0004u32 == 0x0004u32) by (bit_vector)
            requires
                bits == position | size | order | frame,
                size == 0x0001u32,
                position == 0x0002u32,
                order == 0x0004u32,
                frame == 0x0020u32,
        ;
        PlacementFlags { bits }
    }

    /// The flags of a resize.
    pub fn for_resize() -> (flags: PlacementFlags)
        ensures
            flags == Self::resize_only(),
            flags.has(Self::keep_position()),
            flags.has(Self::keep_order()),
            !flags.has(Self::keep_size()),
            !flags.has(Self::frame_changed()),
    {
        let position = swp_nomove();
        let order = swp_nozorder();
        let bits = position | order;
        assert(bits == 0x0006u32 && bits & 0x0002u32 == 0x0002u32 && bits & 0x0004u32 == 0x0004u32
            && bits & 0x0001u32 != 0x0001u32 && bits & 0x0020u32 != 0x0020u32) by (bit_vector)
            requires
                bits == position | order,
                position == 0x0002u32,
                order == 0x0004u32,
        ;
        PlacementFlags { bits }
    }
}

/// How the corners of a window are to be rendered.
#[derive(Debug, Copy, Clone, PartialEq, Eq, Structural)]
pub enum CornerPreference {
    /// Let the system decide.
    Default,
    /// Square corners.
    DoNotRound,
    /// Rounded corners.
    Round,
    /// Rounded corners of a small radius.
    RoundSmall,
}

impl CornerPreference {
    /// The native value of the preference.
    pub open spec fn native_value(self) -> i32 {
        match self {
            CornerPreference::Default => 0i32,
            CornerPreference::DoNotRound => 1i32,
            CornerPreference::Round => 2i32,
            CornerPreference::RoundSmall => 3i32,
        }
    }

    /// The native value of the preference.
    pub fn to_native(self) -> (value: i32)
        ensures
            value == self.native_value(),
    {
        match self {
            CornerPreference::Default => dwmwcp_default(),
            CornerPreference::DoNotRound => dwmwcp_donotround(),
            CornerPreference::Round => dwmwcp_round(),
            CornerPreference::RoundSmall => dwmwcp_roundsmall(),
        }
    }
}

/// `WS_BORDER` of windows-sys, the thin-line border style: bit 23 alone.
#[verifier::external_body]
fn ws_border() -> (bits: u32)
    ensures
        bits == 0x0080_0000u32,
{
    windows_sys::Win32::UI::WindowsAndMessaging::WS_BORDER
}

/// `WS_THICKFRAME` of windows-sys, the sizing border style: bit 18 alone.
#[verifier::external_body]
fn ws_thickframe() -> (bits: u32)
    ensures
        bits == 0x0004_0000u32,
{
    windows_sys::Win32::UI::WindowsAndMessaging::WS_THICKFRAME
}

/// `WS_CAPTION` of windows-sys, the title bar style: bits 22 and 23.
#[verifier::external_body]
fn ws_caption() -> (bits: u32)
    ensures
        bits == 0x00C0_0000u32,
{
    windows_sys::Win32::UI::WindowsAndMessaging::WS_CAPTION
}

/// `WS_EX_WINDOWEDGE` of windows-sys, the raised-edge extended style: bit 8
/// alone.
#[verifier::external_body]
fn ws_ex_windowedge() -> (bits: u32)
    ensures
        bits == 0x0000_0100u32,
{
    windows_sys::Win32::UI::WindowsAndMessaging::WS_EX_WINDOWEDGE
}

/// `DWMWCP_DEFAULT` of windows-sys: zero.
#[verifier::external_body]
fn dwmwcp_default() -> (value: i32)
    ensures
        value == 0,
{
    windows_sys::Win32::Graphics::Dwm::DWMWCP_DEFAULT
}

/// `DWMWCP_DONOTROUND` of windows-sys: one.
#[verifier::external_body]
fn dwmwcp_donotround() -> (value: i32)
    ensures
        value == 1,
{
    windows_sys::Win32::Graphics::Dwm::DWMWCP_DONOTROUND
}

/// `DWMWCP_ROUND` of windows-sys: two.
#[verifier::external_body]
fn dwmwcp_round() -> (value: i32)
    ensures
        value == 2,
{
    windows_sys::Win32::Graphics::Dwm::DWMWCP_ROUND
}

/// `DWMWCP_ROUNDSMALL` of windows-sys: three.
#[verifier::external_body]
fn dwmwcp_roundsmall() -> (value: i32)
    ensures
        value == 3,
{
    windows_sys::Win32::Graphics::Dwm::DWMWCP_ROUNDSMALL
}

/// `SWP_NOSIZE` of windows-sys, which keeps the size: bit 0 alone.
#[verifier::external_body]
fn swp_nosize() -> (bits: u32)
    ensures
        bits == 0x0001u32,
{
    windows_sys::Win32::UI::WindowsAndMessaging::SWP_NOSIZE
}

/// `SWP_NOMOVE` of windows-sys, which keeps the position: bit 1 alone.
#[verifier::external_body]
fn swp_nomove() -> (bits: u32)
    ensures
        bits == 0x0002u32,
{
    windows_sys::Win32::UI::WindowsAndMessaging::SWP_NOMOVE
}

/// `SWP_NOZORDER` of windows-sys, which keeps the stacking order: bit 2
/// alone.
#[verifier::external_body]
fn swp_nozorder() -> (bits: u32)
    ensures
        bits == 0x0004u32,
{
    windows_sys::Win32::UI::WindowsAndMessaging::SWP_NOZORDER
}

/// `SWP_FRAMECHANGED` of windows-sys, which has the frame recomputed: bit 5
/// alone.
#[verifier::external_body]
fn swp_framechanged() -> (bits: u32)
    ensures
        bits == 0x0020u32,
{
    windows_sys::Win32::UI::WindowsAndMessaging::SWP_FRAMECHANGED
}

} // verus!
