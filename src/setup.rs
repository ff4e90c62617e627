use vstd::prelude::*;

use crate::window::{effect_for, is_main_window, main_window, window_effect, Effect, Platform, WindowSpec};

verus! {

/// The startup call that failed. Each one is fatal: no window could be shown.
#[derive(Clone, Copy, Debug, PartialEq, Eq, Structural)]
pub enum SetupFailure {
    /// Building the main window failed.
    WindowBuild,
    /// Applying macOS vibrancy failed.
    Vibrancy,
    /// Applying the Windows Mica backdrop failed.
    Mica,
}

/// Where the startup sequence stands.
#[derive(Clone, Copy, Debug, PartialEq, Eq, Structural)]
pub enum Phase {
    /// Waiting for the main window to be built.
    Building,
    /// The window exists; waiting for its effect to be applied.
    Decorating,
    /// The window is ready.
    Done,
    /// A call failed and the process must stop.
    Failed(SetupFailure),
}

/// What the host must do next.
#[derive(Debug)]
pub enum Action {
    /// Build a window with these attributes.
    Build(WindowSpec),
    /// Apply this effect to the window just built.
    Apply(Effect),
    /// Setup is complete; hand control to the event loop.
    Finish,
    /// Terminate the process, naming the call that failed.
    Abort(SetupFailure),
}

/// The startup sequence of the shell: build the main window, then decorate it.
#[derive(Clone, Copy, Debug)]
pub struct Setup {
    pub platform: Platform,
    pub phase: Phase,
}

/// The failure reported when applying `e` fails.
pub open spec fn failure_of(e: Effect) -> SetupFailure {
    match e {
        Effect::Mica { .. } => SetupFailure::Mica,
        _ => SetupFailure::Vibrancy,
    }
}

/// The phase reached on `p` once building the window succeeded (`ok`) or failed.
pub open spec fn phase_after_build(p: Platform, ok: bool) -> Phase {
    if !ok {
        Phase::Failed(SetupFailure::WindowBuild)
    } else if effect_for(p) is Plain {
        Phase::Done
    } else {
        Phase::Decorating
    }
}

/// The phase reached on `p` once applying the effect succeeded (`ok`) or failed.
pub open spec fn phase_after_effect(p: Platform, ok: bool) -> Phase {
    if ok {
        Phase::Done
    } else {
        Phase::Failed(failure_of(effect_for(p)))
    }
}

/// `a` is what the host must do on `p` in phase `ph`.
pub open spec fn action_for(a: Action, p: Platform, ph: Phase) -> bool {
    match ph {
        Phase::Building => a matches Action::Build(w) && is_main_window(w, p),
        Phase::Decorating => a == Action::Apply(effect_for(p)),
        Phase::Done => a is Finish,
        Phase::Failed(f) => a == Action::Abort(f),
    }
}

/// The phase in which a whole run on `p` ends, given whether the window
/// was built and whether the effect, if one is applied, took hold.
pub open spec fn run_outcome(p: Platform, built: bool, decorated: bool) -> Phase {
    let ph = phase_after_build(p, built);
    if ph is Decorating {
        phase_after_effect(p, decorated)
    } else {
        ph
    }
}

/// The message with which the process terminates on failure `f`.
pub open spec fn failure_message(f: SetupFailure) -> Seq<char> {
    match f {
        SetupFailure::WindowBuild => "failed to build the main window"@,
        SetupFailure::Vibrancy => "Unsupported platform! 'apply_vibrancy' is only supported on macOS"@,
        SetupFailure::Mica => "Unsupported platform! 'apply_mica' is only supported on Windows"@,
    }
}

impl SetupFailure {
    /// A human-readable message naming the call that failed.
    pub fn message(&self) -> (r: String)
        ensures
            r@ == failure_message(*self),
    {
        match self {
            SetupFailure::WindowBuild => String::from_str("failed to build the main window"),
            SetupFailure::Vibrancy => String::from_str(
                "Unsupported platform! 'apply_vibrancy' is only supported on macOS",
            ),
            SetupFailure::Mica => String::from_str(
                "Unsupported platform! 'apply_mica' is only supported on Windows",
            ),
        }
    }
}

/// The failure reported when applying `e` fails.
pub fn effect_failure(e: Effect) -> (r: SetupFailure)
    ensures
        r == failure_of(e),
{
    match e {
        Effect::Mica { .. } => SetupFailure::Mica,
        _ => SetupFailure::Vibrancy,
    }
}

impl Setup {
    /// Starts the sequence on `p`: the first action builds the main window.
    pub fn new(p: Platform) -> (r: (Setup, Action))
        ensures
            r.0.platform == p,
            r.0.phase == Phase::Building,
            action_for(r.1, p, Phase::Building),
    {
        (Setup { platform: p, phase: Phase::Building }, Action::Build(main_window(p)))
    }

    /// Records whether building the window succeeded and returns the next action:
    /// abort on failure, else apply the platform's effect or finish if it has none.
    pub fn window_built(&mut self, ok: bool) -> (a: Action)
        requires
            old(self).phase == Phase::Building,
        ensures
            final(self).platform == old(self).platform,
            final(self).phase == phase_after_build(old(self).platform, ok),
            action_for(a, final(self).platform, final(self).phase),
    {
        if !ok {
            self.phase = Phase::Failed(SetupFailure::WindowBuild);
            Action::Abort(SetupFailure::WindowBuild)
        } else {
            let e = window_effect(self.platform);
            match e {
                Effect::Plain => {
                    self.phase = Phase::Done;
                    Action::Finish
                },
                _ => {
                    self.phase = Phase::Decorating;
                    Action::Apply(e)
                },
            }
        }
    }

    /// Records whether applying the effect succeeded and returns the next action:
    /// finish on success, abort naming the effect's call on failure.
    pub fn effect_applied(&mut self, ok: bool) -> (a: Action)
        requires
            old(self).phase == Phase::Decorating,
        ensures
            final(self).platform == old(self).platform,
            final(self).phase == phase_after_effect(old(self).platform, ok),
            action_for(a, final(self).platform, final(self).phase),
    {
        if ok {
            self.phase = Phase::Done;
            Action::Finish
        } else {
            let f = effect_failure(window_effect(self.platform));
            self.phase = Phase::Failed(f);
            Action::Abort(f)
        }
    }
}

/// Every run of the startup sequence ends: it is done exactly when the window
/// was built and its effect, if the platform has one, was applied; otherwise it
/// has failed, naming the window build when that failed and else the effect's call.
pub proof fn lemma_setup_terminates(p: Platform, built: bool, decorated: bool)
    ensures
        run_outcome(p, built, decorated) is Done || run_outcome(p, built, decorated) is Failed,
        run_outcome(p, built, decorated) is Done <==> built && (effect_for(p) is Plain || decorated),
        !built ==> run_outcome(p, built, decorated) == Phase::Failed(SetupFailure::WindowBuild),
        built && !(effect_for(p) is Plain) && !decorated ==> run_outcome(p, built, decorated)
            == Phase::Failed(failure_of(effect_for(p))),
{
}

} // verus!
