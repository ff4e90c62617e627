use vstd::prelude::*;

verus! {

/// The operating system family the shell runs on.
#[derive(Clone, Copy, Debug, PartialEq, Eq, Structural)]
pub enum Platform {
    MacOs,
    Windows,
    Linux,
    /// Any other target, such as a mobile one.
    Other,
}

/// How the native title bar is drawn.
#[derive(Clone, Copy, Debug, PartialEq, Eq, Structural)]
pub enum TitleBarStyle {
    /// The framework's default, opaque title bar.
    Visible,
    /// Web content extends underneath a transparent title bar.
    Overlay,
}

/// The translucent effect applied to the window once it exists.
#[derive(Clone, Copy, Debug, PartialEq, Eq, Structural)]
pub enum Effect {
    /// No effect beyond the transparent background.
    Plain,
    /// macOS vibrancy with the heads-up-display material, the default
    /// active state and no corner radius.
    HudVibrancy,
    /// The Windows Mica backdrop, in its dark variant when `dark` holds.
    Mica { dark: bool },
}

/// Attributes of the single application window, fixed at construction.
#[derive(Debug)]
pub struct WindowSpec {
    /// Label under which the framework registers the window.
    pub label: String,
    pub title: String,
    pub transparent: bool,
    pub maximized: bool,
    pub title_bar_style: TitleBarStyle,
}

/// The title bar style used on `p`: an overlay on macOS, the default elsewhere.
pub open spec fn title_bar_style_for(p: Platform) -> TitleBarStyle {
    if p == Platform::MacOs {
        TitleBarStyle::Overlay
    } else {
        TitleBarStyle::Visible
    }
}

/// The effect applied on `p`: vibrancy on macOS, dark Mica on Windows,
/// nothing on Linux and other targets.
pub open spec fn effect_for(p: Platform) -> Effect {
    match p {
        Platform::MacOs => Effect::HudVibrancy,
        Platform::Windows => Effect::Mica { dark: true },
        _ => Effect::Plain,
    }
}

/// `w` is the main window as it is built on `p`.
pub open spec fn is_main_window(w: WindowSpec, p: Platform) -> bool {
    &&& w.label@ == "main"@
    &&& w.title@ == "GRRPit"@
    &&& w.transparent
    &&& w.maximized
    &&& w.title_bar_style == title_bar_style_for(p)
}

/// The title bar style of the main window on `p`.
pub fn title_bar_style(p: Platform) -> (r: TitleBarStyle)
    ensures
        r == title_bar_style_for(p),
{
    match p {
        Platform::MacOs => TitleBarStyle::Overlay,
        _ => TitleBarStyle::Visible,
    }
}

/// The attributes with which the main window is built on `p`: labelled
/// "main", titled "GRRPit", transparent and maximized on launch.
pub fn main_window(p: Platform) -> (r: WindowSpec)
    ensures
        is_main_window(r, p),
{
    WindowSpec {
        label: String::from_str("main"),
        title: String::from_str("GRRPit"),
        transparent: true,
        maximized: true,
        title_bar_style: title_bar_style(p),
    }
}

/// The effect applied to the main window on `p` after it is built.
pub fn window_effect(p: Platform) -> (r: Effect)
    ensures
        r == effect_for(p),
{
    match p {
        Platform::MacOs => Effect::HudVibrancy,
        Platform::Windows => Effect::Mica { dark: true },
        Platform::Linux => Effect::Plain,
        Platform::Other => Effect::Plain,
    }
}

} // verus!
