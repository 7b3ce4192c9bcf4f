//! Start-up of the main window: its configuration per platform, the
//! WebView2 profile recovery protocol around building it, and the watchdog
//! that recovers a frontend that never became ready.
use vstd::prelude::*;

use crate::platform::Platform;
use crate::webview_profile::{spec_recovery_allowed, RECOVERY_COOLDOWN_SECS};

verus! {

/// Label of the main webview window.
pub const MAIN_WINDOW_LABEL: &'static str = "main";

/// Seconds the watchdog waits for the frontend to report ready.
pub const FRONTEND_READY_TIMEOUT_SECS: u64 = 12;

/// How the main window is built.
pub struct MainWindowSpec {
    pub label: &'static str,
    pub url: &'static str,
    pub title: &'static str,
    /// Inner size in logical pixels (width, height).
    pub inner_size: (u32, u32),
    pub min_inner_size: Option<(u32, u32)>,
    /// `None` leaves the builder's default.
    pub resizable: Option<bool>,
    /// `None` leaves the builder's default.
    pub maximizable: Option<bool>,
    /// `None` leaves the builder's default.
    pub skip_taskbar: Option<bool>,
    pub visible: bool,
    /// Whether the WebView profile directory is set when one is known.
    pub uses_profile_dir: bool,
    /// Whether building goes through the profile recovery protocol.
    pub recovers_profile: bool,
}

/// On Linux the main window is a hidden 1x1 placeholder (the native UI is
/// used); elsewhere it is the hidden, resizable MotsDits window, built with
/// the profile directory, and on Windows through profile recovery.
pub open spec fn is_main_window_spec(platform: Platform, w: MainWindowSpec) -> bool {
    &&& w.label@ == MAIN_WINDOW_LABEL@
    &&& !w.visible
    &&& if platform == Platform::Linux {
        &&& w.url@ == "about:blank"@
        &&& w.title@ == ""@
        &&& w.inner_size == (1u32, 1u32)
        &&& w.min_inner_size is None
        &&& w.resizable is None
        &&& w.maximizable is None
        &&& w.skip_taskbar == Some(true)
        &&& !w.uses_profile_dir
        &&& !w.recovers_profile
    } else {
        &&& w.url@ == "/"@
        &&& w.title@ == "MotsDits"@
        &&& w.inner_size == (1100u32, 760u32)
        &&& w.min_inner_size == Some((960u32, 640u32))
        &&& w.resizable == Some(true)
        &&& w.maximizable == Some(true)
        &&& w.skip_taskbar is None
        &&& w.uses_profile_dir
        &&& w.recovers_profile == (platform == Platform::Windows)
    }
}

/// The configuration of the main window on `platform`.
pub fn main_window_spec(platform: Platform) -> (w: MainWindowSpec)
    ensures
        is_main_window_spec(platform, w),
{
    if platform == Platform::Linux {
        MainWindowSpec {
            label: MAIN_WINDOW_LABEL,
            url: "about:blank",
            title: "",
            inner_size: (1, 1),
            min_inner_size: None,
            resizable: None,
            maximizable: None,
            skip_taskbar: Some(true),
            visible: false,
            uses_profile_dir: false,
            recovers_profile: false,
        }
    } else {
        MainWindowSpec {
            label: MAIN_WINDOW_LABEL,
            url: "/",
            title: "MotsDits",
            inner_size: (1100, 760),
            min_inner_size: Some((960, 640)),
            resizable: Some(true),
            maximizable: Some(true),
            skip_taskbar: None,
            visible: false,
            uses_profile_dir: true,
            recovers_profile: platform == Platform::Windows,
        }
    }
}

/// Why a profile is quarantined.
#[derive(Clone, Copy, Debug, PartialEq, Eq, Structural)]
pub enum QuarantineReason {
    /// A recovery was scheduled by a previous run.
    Pending,
    /// Building the window failed with a profile corruption error.
    Startup,
}

/// The reason as it appears in backup names.
pub fn quarantine_reason_text(reason: QuarantineReason) -> (text: &'static str)
    ensures
        text@ == match reason {
            QuarantineReason::Pending => "pending"@,
            QuarantineReason::Startup => "startup"@,
        },
{
    match reason {
        QuarantineReason::Pending => "pending",
        QuarantineReason::Startup => "startup",
    }
}

/// Where the recovering window build stands.
#[derive(Clone, Copy, Debug, PartialEq, Eq, Structural)]
pub enum BuildPhase {
    Starting,
    QuarantiningPendingProfile,
    FirstBuild,
    QuarantiningBrokenProfile,
    RetryBuild,
    Done,
}

/// What happened since the last step.
#[derive(Clone, Copy, Debug, PartialEq, Eq, Structural)]
pub enum BuildEvent {
    /// The build starts; a previous run may have scheduled a recovery.
    Started { recovery_pending: bool },
    /// The quarantine ran (whatever its outcome, which is only reported).
    QuarantineFinished,
    BuildSucceeded,
    BuildFailed { profile_corrupt: bool },
}

/// What the caller does next.
#[derive(Clone, Copy, Debug, PartialEq, Eq, Structural)]
pub enum BuildAction {
    Quarantine(QuarantineReason),
    BuildWindow,
    /// Creation succeeded.
    Succeed,
    /// Creation failed with the last build error.
    Fail,
}

/// The recovery protocol: a scheduled recovery quarantines the profile
/// first; a build that fails with a corruption error quarantines the profile
/// and is retried once; any other outcome ends the protocol. `None`: the
/// event is not expected in that phase.
pub open spec fn spec_build_step(phase: BuildPhase, event: BuildEvent) -> Option<
    (BuildPhase, BuildAction),
> {
    match (phase, event) {
        (BuildPhase::Starting, BuildEvent::Started { recovery_pending }) => if recovery_pending {
            Some(
                (
                    BuildPhase::QuarantiningPendingProfile,
                    BuildAction::Quarantine(QuarantineReason::Pending),
                ),
            )
        } else {
            Some((BuildPhase::FirstBuild, BuildAction::BuildWindow))
        },
        (BuildPhase::QuarantiningPendingProfile, BuildEvent::QuarantineFinished) => Some(
            (BuildPhase::FirstBuild, BuildAction::BuildWindow),
        ),
        (BuildPhase::FirstBuild, BuildEvent::BuildSucceeded) => Some(
            (BuildPhase::Done, BuildAction::Succeed),
        ),
        (BuildPhase::FirstBuild, BuildEvent::BuildFailed { profile_corrupt }) => if profile_corrupt {
            Some(
                (
                    BuildPhase::QuarantiningBrokenProfile,
                    BuildAction::Quarantine(QuarantineReason::Startup),
                ),
            )
        } else {
            Some((BuildPhase::Done, BuildAction::Fail))
        },
        (BuildPhase::QuarantiningBrokenProfile, BuildEvent::QuarantineFinished) => Some(
            (BuildPhase::RetryBuild, BuildAction::BuildWindow),
        ),
        (BuildPhase::RetryBuild, BuildEvent::BuildSucceeded) => Some(
            (BuildPhase::Done, BuildAction::Succeed),
        ),
        (BuildPhase::RetryBuild, BuildEvent::BuildFailed { .. }) => Some(
            (BuildPhase::Done, BuildAction::Fail),
        ),
        _ => None,
    }
}

/// One step of the recovering main window build.
pub fn build_step(phase: BuildPhase, event: BuildEvent) -> (next: Option<(BuildPhase, BuildAction)>)
    ensures
        next == spec_build_step(phase, event),
{
    match (phase, event) {
        (BuildPhase::Starting, BuildEvent::Started { recovery_pending }) => if recovery_pending {
            Some(
                (
                    BuildPhase::QuarantiningPendingProfile,
                    BuildAction::Quarantine(QuarantineReason::Pending),
                ),
            )
        } else {
            Some((BuildPhase::FirstBuild, BuildAction::BuildWindow))
        },
        (BuildPhase::QuarantiningPendingProfile, BuildEvent::QuarantineFinished) => Some(
            (BuildPhase::FirstBuild, BuildAction::BuildWindow),
        ),
        (BuildPhase::FirstBuild, BuildEvent::BuildSucceeded) => Some(
            (BuildPhase::Done, BuildAction::Succeed),
        ),
        (BuildPhase::FirstBuild, BuildEvent::BuildFailed { profile_corrupt }) => if profile_corrupt {
            Some(
                (
                    BuildPhase::QuarantiningBrokenProfile,
                    BuildAction::Quarantine(QuarantineReason::Startup),
                ),
            )
        } else {
            Some((BuildPhase::Done, BuildAction::Fail))
        },
        (BuildPhase::QuarantiningBrokenProfile, BuildEvent::QuarantineFinished) => Some(
            (BuildPhase::RetryBuild, BuildAction::BuildWindow),
        ),
        (BuildPhase::RetryBuild, BuildEvent::BuildSucceeded) => Some(
            (BuildPhase::Done, BuildAction::Succeed),
        ),
        (BuildPhase::RetryBuild, BuildEvent::BuildFailed { .. }) => Some(
            (BuildPhase::Done, BuildAction::Fail),
        ),
        _ => None,
    }
}

/// Runs the protocol from `phase` over `events`: the phase reached and the
/// actions taken, or `None` when some event was not expected.
pub open spec fn build_run(phase: BuildPhase, events: Seq<BuildEvent>) -> Option<
    (BuildPhase, Seq<BuildAction>),
>
    decreases events.len(),
{
    if events.len() == 0 {
        Some((phase, Seq::empty()))
    } else {
        match spec_build_step(phase, events[0]) {
            None => None,
            Some((next, action)) => match build_run(next, events.drop_first()) {
                None => None,
                Some((last, actions)) => Some((last, seq![action] + actions)),
            },
        }
    }
}

/// Number of window builds among `actions`.
pub open spec fn build_count(actions: Seq<BuildAction>) -> nat
    decreases actions.len(),
{
    if actions.len() == 0 {
        0
    } else {
        (if actions[0] == BuildAction::BuildWindow {
            1nat
        } else {
            0nat
        }) + build_count(actions.drop_first())
    }
}

/// Builds that may still be issued from a phase.
pub open spec fn builds_left(phase: BuildPhase) -> nat {
    match phase {
        BuildPhase::Starting => 2,
        BuildPhase::QuarantiningPendingProfile => 2,
        BuildPhase::FirstBuild => 1,
        BuildPhase::QuarantiningBrokenProfile => 1,
        BuildPhase::RetryBuild => 0,
        BuildPhase::Done => 0,
    }
}

/// Steps that may still be taken from a phase.
pub open spec fn steps_left(phase: BuildPhase) -> nat {
    match phase {
        BuildPhase::Starting => 5,
        BuildPhase::QuarantiningPendingProfile => 4,
        BuildPhase::FirstBuild => 3,
        BuildPhase::QuarantiningBrokenProfile => 2,
        BuildPhase::RetryBuild => 1,
        BuildPhase::Done => 0,
    }
}

proof fn lemma_build_run_bounds(phase: BuildPhase, events: Seq<BuildEvent>)
    requires
        build_run(phase, events) is Some,
    ensures
        build_count(build_run(phase, events).unwrap().1) <= builds_left(phase),
        events.len() <= steps_left(phase),
    decreases events.len(),
{
    if events.len() > 0 {
        let (next, action) = spec_build_step(phase, events[0]).unwrap();
        lemma_build_run_bounds(next, events.drop_first());
        let actions = build_run(phase, events).unwrap().1;
        assert(actions.drop_first() =~= build_run(next, events.drop_first()).unwrap().1);
    }
}

/// Law: however the builds and quarantines turn out, the main window is
/// built at most twice and the protocol takes at most five steps.
pub proof fn main_window_built_at_most_twice(events: Seq<BuildEvent>)
    requires
        build_run(BuildPhase::Starting, events) is Some,
    ensures
        build_count(build_run(BuildPhase::Starting, events).unwrap().1) <= 2,
        events.len() <= 5,
{
    lemma_build_run_bounds(BuildPhase::Starting, events);
}

/// What the frontend watchdog does once its wait is over.
#[derive(Clone, Copy, Debug, PartialEq, Eq, Structural)]
pub enum WatchdogAction {
    /// No ready state is registered: nothing to do.
    Stop,
    /// The frontend is ready: forget any earlier recovery attempt.
    ClearRecoveryMarker,
    /// Not ready, but a recovery ran recently: only report it.
    GiveUp,
    /// Not ready: record the attempt, then relaunch the application.
    RecoverAndRelaunch,
}

/// Whether the frontend watchdog runs: on Windows only.
pub fn runs_frontend_watchdog(platform: Platform) -> (runs: bool)
    ensures
        runs <==> platform == Platform::Windows,
{
    platform == Platform::Windows
}

pub open spec fn spec_frontend_watchdog_action(
    ready_state_present: bool,
    frontend_ready: bool,
    recovery_allowed: bool,
) -> WatchdogAction {
    if !ready_state_present {
        WatchdogAction::Stop
    } else if frontend_ready {
        WatchdogAction::ClearRecoveryMarker
    } else if !recovery_allowed {
        WatchdogAction::GiveUp
    } else {
        WatchdogAction::RecoverAndRelaunch
    }
}

/// Decides what the watchdog does after the wait.
pub fn frontend_watchdog_action(
    ready_state_present: bool,
    frontend_ready: bool,
    recovery_allowed: bool,
) -> (action: WatchdogAction)
    ensures
        action == spec_frontend_watchdog_action(
            ready_state_present,
            frontend_ready,
            recovery_allowed,
        ),
{
    if !ready_state_present {
        WatchdogAction::Stop
    } else if frontend_ready {
        WatchdogAction::ClearRecoveryMarker
    } else if !recovery_allowed {
        WatchdogAction::GiveUp
    } else {
        WatchdogAction::RecoverAndRelaunch
    }
}

/// Law: the watchdog relaunches only a registered, not-ready frontend, and
/// never while the last recovery marker is no older than the cool-down.
pub proof fn watchdog_relaunch_needs_stale_marker(
    ready_state_present: bool,
    frontend_ready: bool,
    marker_age: Option<(u64, u32)>,
)
    ensures
        spec_frontend_watchdog_action(
            ready_state_present,
            frontend_ready,
            spec_recovery_allowed(marker_age),
        ) == WatchdogAction::RecoverAndRelaunch ==> {
            &&& ready_state_present
            &&& !frontend_ready
            &&& match marker_age {
                None => true,
                Some((secs, nanos)) => secs > RECOVERY_COOLDOWN_SECS || (secs
                    == RECOVERY_COOLDOWN_SECS && nanos > 0),
            }
        },
{
}

/// Law: a successful build always ends the protocol with success, whether it
/// is the first build or the retry after a quarantine; both build phases
/// accept a success.
pub proof fn successful_build_succeeds(phase: BuildPhase)
    ensures
        (phase == BuildPhase::FirstBuild || phase == BuildPhase::RetryBuild) ==> spec_build_step(
            phase,
            BuildEvent::BuildSucceeded,
        ) is Some,
        match spec_build_step(phase, BuildEvent::BuildSucceeded) {
            Some((next, action)) => next == BuildPhase::Done && action == BuildAction::Succeed,
            None => true,
        },
{
}

/// Law: the protocol fails only in answer to a failed build, and a failed
/// build is never reported as success.
pub proof fn failure_only_after_failed_build(phase: BuildPhase, event: BuildEvent)
    ensures
        match spec_build_step(phase, event) {
            Some((next, BuildAction::Fail)) => event is BuildFailed && next == BuildPhase::Done,
            Some((_, BuildAction::Succeed)) => event == BuildEvent::BuildSucceeded,
            _ => true,
        },
{
}

/// Law: over any accepted run, one action is taken per event, and a run
/// whose last action is a failure ended on a failed build (so a run whose
/// last build succeeded never ends in failure).
pub proof fn run_fails_only_on_failed_build(phase: BuildPhase, events: Seq<BuildEvent>)
    requires
        build_run(phase, events) is Some,
    ensures
        build_run(phase, events).unwrap().1.len() == events.len(),
        events.len() > 0 && build_run(phase, events).unwrap().1.last() == BuildAction::Fail
            ==> events.last() is BuildFailed,
    decreases events.len(),
{
    if events.len() > 0 {
        let (next, action) = spec_build_step(phase, events[0]).unwrap();
        run_fails_only_on_failed_build(next, events.drop_first());
        let rest = build_run(next, events.drop_first()).unwrap().1;
        let actions = build_run(phase, events).unwrap().1;
        assert(actions =~= seq![action] + rest);
        if events.len() == 1 {
            failure_only_after_failed_build(phase, events[0]);
        } else {
            assert(events.last() == events.drop_first().last());
            assert(actions.last() == rest.last());
        }
    }
}

/// Law: a ready frontend always has its recovery marker cleared, whatever
/// the cool-down says; the watchdog gives up or relaunches only when the
/// frontend is registered and not ready, and gives up only inside the
/// cool-down.
pub proof fn ready_frontend_clears_marker(
    ready_state_present: bool,
    frontend_ready: bool,
    recovery_allowed: bool,
)
    ensures
        ready_state_present && frontend_ready ==> spec_frontend_watchdog_action(
            ready_state_present,
            frontend_ready,
            recovery_allowed,
        ) == WatchdogAction::ClearRecoveryMarker,
        !ready_state_present ==> spec_frontend_watchdog_action(
            ready_state_present,
            frontend_ready,
            recovery_allowed,
        ) == WatchdogAction::Stop,
        spec_frontend_watchdog_action(ready_state_present, frontend_ready, recovery_allowed)
            == WatchdogAction::GiveUp ==> ready_state_present && !frontend_ready
            && !recovery_allowed,
{
}

/// Law: on every platform the main window carries the label "main", the
/// label under which it is looked up to be shown again.
pub proof fn main_window_label_is_main(platform: Platform, w: MainWindowSpec)
    requires
        is_main_window_spec(platform, w),
    ensures
        w.label@ == MAIN_WINDOW_LABEL@,
        w.label@ == "main"@,
{
}

/// Law: recovery quarantines before it builds: a scheduled recovery
/// quarantines the profile as "pending" before any build, every finished
/// quarantine is followed by a build, and a first build that fails with a
/// corrupt profile is answered by a "startup" quarantine and then exactly
/// one more build.
pub proof fn quarantine_precedes_build(recovery_pending: bool)
    ensures
        spec_build_step(BuildPhase::Starting, BuildEvent::Started { recovery_pending })
            == Some(
            if recovery_pending {
                (
                    BuildPhase::QuarantiningPendingProfile,
                    BuildAction::Quarantine(QuarantineReason::Pending),
                )
            } else {
                (BuildPhase::FirstBuild, BuildAction::BuildWindow)
            },
        ),
        forall|phase: BuildPhase|
            #![trigger spec_build_step(phase, BuildEvent::QuarantineFinished)]
            spec_build_step(phase, BuildEvent::QuarantineFinished) matches Some((_, action))
                ==> action == BuildAction::BuildWindow,
        spec_build_step(BuildPhase::FirstBuild, BuildEvent::BuildFailed { profile_corrupt: true })
            == Some(
            (
                BuildPhase::QuarantiningBrokenProfile,
                BuildAction::Quarantine(QuarantineReason::Startup),
            ),
        ),
        spec_build_step(BuildPhase::QuarantiningBrokenProfile, BuildEvent::QuarantineFinished)
            == Some((BuildPhase::RetryBuild, BuildAction::BuildWindow)),
        spec_build_step(BuildPhase::FirstBuild, BuildEvent::BuildFailed { profile_corrupt: false })
            == Some((BuildPhase::Done, BuildAction::Fail)),
{
}

} // verus!
