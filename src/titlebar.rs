use vstd::prelude::*;

use crate::window::Platform;

verus! {

/// How the title-bar height query answers on a platform.
#[derive(Clone, Copy, Debug, PartialEq, Eq, Structural)]
pub enum TitlebarHeight {
    /// Read the window's outer frame and its content rectangle and answer
    /// the frame height minus the content height, in points.
    FrameMinusContent,
    /// The query does not apply: answer the sentinel, zero points.
    Sentinel,
}

/// The answer rule on `p`: only macOS measures, every other platform gives the sentinel.
pub open spec fn titlebar_rule(p: Platform) -> TitlebarHeight {
    if p == Platform::MacOs {
        TitlebarHeight::FrameMinusContent
    } else {
        TitlebarHeight::Sentinel
    }
}

/// How the title-bar height query answers on `p`.
pub fn titlebar_height(p: Platform) -> (r: TitlebarHeight)
    ensures
        r == titlebar_rule(p),
        r is Sentinel <==> p != Platform::MacOs,
{
    match p {
        Platform::MacOs => TitlebarHeight::FrameMinusContent,
        _ => TitlebarHeight::Sentinel,
    }
}

} // verus!
