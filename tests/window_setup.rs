use grrpit::setup::{Action, Phase, Setup, SetupFailure, effect_failure};
use grrpit::titlebar::{TitlebarHeight, titlebar_height};
use grrpit::window::{Effect, Platform, TitleBarStyle, main_window, title_bar_style, window_effect};

const ALL: [Platform; 4] = [Platform::MacOs, Platform::Windows, Platform::Linux, Platform::Other];

#[test]
fn main_window_is_transparent_and_maximized_everywhere() {
    for p in ALL {
        let w = main_window(p);
        assert_eq!(w.label, "main");
        assert_eq!(w.title, "GRRPit");
        assert!(w.transparent);
        assert!(w.maximized);
    }
}

#[test]
fn overlay_title_bar_only_on_macos() {
    assert_eq!(title_bar_style(Platform::MacOs), TitleBarStyle::Overlay);
    assert_eq!(main_window(Platform::MacOs).title_bar_style, TitleBarStyle::Overlay);
    assert_eq!(main_window(Platform::Windows).title_bar_style, TitleBarStyle::Visible);
    assert_eq!(main_window(Platform::Linux).title_bar_style, TitleBarStyle::Visible);
    assert_eq!(main_window(Platform::Other).title_bar_style, TitleBarStyle::Visible);
}

#[test]
fn effect_per_platform() {
    assert_eq!(window_effect(Platform::MacOs), Effect::HudVibrancy);
    assert_eq!(window_effect(Platform::Windows), Effect::Mica { dark: true });
    assert_eq!(window_effect(Platform::Linux), Effect::Plain);
    assert_eq!(window_effect(Platform::Other), Effect::Plain);
}

#[test]
fn failure_of_each_effect() {
    assert_eq!(effect_failure(Effect::HudVibrancy), SetupFailure::Vibrancy);
    assert_eq!(effect_failure(Effect::Mica { dark: true }), SetupFailure::Mica);
}

#[test]
fn failure_messages_name_the_call() {
    assert_eq!(SetupFailure::WindowBuild.message(), "failed to build the main window");
    assert_eq!(
        SetupFailure::Vibrancy.message(),
        "Unsupported platform! 'apply_vibrancy' is only supported on macOS"
    );
    assert_eq!(
        SetupFailure::Mica.message(),
        "Unsupported platform! 'apply_mica' is only supported on Windows"
    );
}

#[test]
fn setup_starts_by_building_the_main_window() {
    let (s, a) = Setup::new(Platform::MacOs);
    assert_eq!(s.platform, Platform::MacOs);
    assert_eq!(s.phase, Phase::Building);
    match a {
        Action::Build(w) => {
            assert_eq!(w.title, "GRRPit");
            assert_eq!(w.title_bar_style, TitleBarStyle::Overlay);
        }
        other => panic!("unexpected first action {:?}", other),
    }
}

#[test]
fn macos_setup_applies_vibrancy_then_finishes() {
    let (mut s, _) = Setup::new(Platform::MacOs);
    let a = s.window_built(true);
    assert!(matches!(a, Action::Apply(Effect::HudVibrancy)));
    assert_eq!(s.phase, Phase::Decorating);
    let a = s.effect_applied(true);
    assert!(matches!(a, Action::Finish));
    assert_eq!(s.phase, Phase::Done);
}

#[test]
fn windows_setup_applies_mica_then_finishes() {
    let (mut s, _) = Setup::new(Platform::Windows);
    let a = s.window_built(true);
    assert!(matches!(a, Action::Apply(Effect::Mica { dark: true })));
    let a = s.effect_applied(true);
    assert!(matches!(a, Action::Finish));
    assert_eq!(s.phase, Phase::Done);
}

#[test]
fn linux_setup_finishes_after_build() {
    let (mut s, _) = Setup::new(Platform::Linux);
    let a = s.window_built(true);
    assert!(matches!(a, Action::Finish));
    assert_eq!(s.phase, Phase::Done);
}

#[test]
fn failed_window_build_aborts_on_every_platform() {
    for p in ALL {
        let (mut s, _) = Setup::new(p);
        let a = s.window_built(false);
        assert!(matches!(a, Action::Abort(SetupFailure::WindowBuild)));
        assert_eq!(s.phase, Phase::Failed(SetupFailure::WindowBuild));
        assert_eq!(s.platform, p);
    }
}

#[test]
fn failed_vibrancy_aborts() {
    let (mut s, _) = Setup::new(Platform::MacOs);
    s.window_built(true);
    let a = s.effect_applied(false);
    assert!(matches!(a, Action::Abort(SetupFailure::Vibrancy)));
    assert_eq!(s.phase, Phase::Failed(SetupFailure::Vibrancy));
}

#[test]
fn failed_mica_aborts() {
    let (mut s, _) = Setup::new(Platform::Windows);
    s.window_built(true);
    let a = s.effect_applied(false);
    assert!(matches!(a, Action::Abort(SetupFailure::Mica)));
    assert_eq!(s.phase, Phase::Failed(SetupFailure::Mica));
}

#[test]
fn titlebar_measured_only_on_macos() {
    assert_eq!(titlebar_height(Platform::MacOs), TitlebarHeight::FrameMinusContent);
    assert_eq!(titlebar_height(Platform::Windows), TitlebarHeight::Sentinel);
    assert_eq!(titlebar_height(Platform::Linux), TitlebarHeight::Sentinel);
    assert_eq!(titlebar_height(Platform::Other), TitlebarHeight::Sentinel);
}

#[test]
fn titlebar_height_from_frame_and_content() {
    // On macOS the answer is the frame height minus the content height.
    let frame_height: f64 = 900.0;
    let content_height: f64 = 872.0;
    let h = match titlebar_height(Platform::MacOs) {
        TitlebarHeight::FrameMinusContent => frame_height - content_height,
        TitlebarHeight::Sentinel => 0.0,
    };
    assert_eq!(h, 28.0);
    assert!(h >= 0.0);
}
