//! The window's settings, and the values derived from what the live native
//! window reports.

use vstd::prelude::*;

verus! {

/// What a window was opened with. Fixed for the life of the window; its
/// current size is asked of the live window instead.
pub struct WindowSettings {
    pub title: String,
    pub size: [u32; 2],
    pub fullscreen: bool,
    pub exit_on_esc: bool,
}

/// A size the native library reports as a signed count; none is negative,
/// and were one so it would count as zero.
pub open spec fn pixels(n: i32) -> u32 {
    if n < 0 { 0 } else { n as u32 }
}

/// The title given to a window that was adopted rather than opened here.
pub open spec fn adopted_title() -> Seq<char> {
    "<unknown window title, created with from_pieces>"@
}

/// The draw size, in pixels, of a framebuffer the native library reports as
/// `width` by `height`.
pub fn draw_size(width: i32, height: i32) -> (r: (u32, u32))
    ensures
        r == (pixels(width), pixels(height)),
{
    let w: u32 = if width < 0 { 0 } else { width as u32 };
    let h: u32 = if height < 0 { 0 } else { height as u32 };
    (w, h)
}

/// The settings of a window adopted as it stands: its size is its framebuffer
/// size, it is full screen when it is not windowed, and its title is not
/// known.
pub fn adopted_settings(width: i32, height: i32, windowed: bool, exit_on_esc: bool) -> (s: WindowSettings)
    ensures
        s.title@ == adopted_title(),
        s.size@ == seq![pixels(width), pixels(height)],
        s.fullscreen == !windowed,
        s.exit_on_esc == exit_on_esc,
{
    let (w, h) = draw_size(width, height);
    let size: [u32; 2] = [w, h];
    assert(size@ =~= seq![w, h]);
    WindowSettings {
        title: "<unknown window title, created with from_pieces>".to_owned(),
        size,
        fullscreen: !windowed,
        exit_on_esc,
    }
}

} // verus!
