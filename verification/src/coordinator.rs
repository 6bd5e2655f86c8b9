//! The user-interface side: the handoff from the splash surface to the main
//! surface, the fatal path, and the close request.

use vstd::prelude::*;
use crate::config::{EXIT_BACKEND_UNREACHABLE, EXIT_NORMAL};
use crate::probe::{Directive, Prober, ReadinessState};

verus! {

/// Which of the two surfaces the host configuration provides. The toolkit owns
/// the surfaces; the coordinator only knows whether each one exists.
#[derive(Clone, Copy, Debug, PartialEq, Eq, Structural)]
pub struct UiSurfaceSet {
    pub splash: bool,
    pub main: bool,
}

/// One operation for the toolkit to perform.
#[derive(Clone, Copy, Debug, PartialEq, Eq, Structural)]
pub enum UiAction {
    CloseSplash,
    ShowMain,
    FocusMain,
    /// Tell the user that the backend could not be reached in time.
    ReportUnreachable,
    /// End the whole application with this status.
    Exit { status: i32 },
}

/// The handoff: the splash surface is closed if there is one, then the main
/// surface is shown and focused if there is one.
pub open spec fn handoff_actions(surfaces: UiSurfaceSet) -> Seq<UiAction> {
    let closing = if surfaces.splash {
        seq![UiAction::CloseSplash]
    } else {
        Seq::<UiAction>::empty()
    };
    let showing = if surfaces.main {
        seq![UiAction::ShowMain, UiAction::FocusMain]
    } else {
        Seq::<UiAction>::empty()
    };
    closing + showing
}

/// The fatal path: a diagnostic, then the exit with the fatal status.
pub open spec fn failure_actions() -> Seq<UiAction> {
    seq![UiAction::ReportUnreachable, UiAction::Exit { status: EXIT_BACKEND_UNREACHABLE }]
}

/// What the coordinator does for a readiness state. Nothing happens while the
/// prober is still at work.
pub open spec fn transition_actions(state: ReadinessState, surfaces: UiSurfaceSet) -> Seq<
    UiAction,
> {
    match state {
        ReadinessState::Probing => Seq::<UiAction>::empty(),
        ReadinessState::Ready => handoff_actions(surfaces),
        ReadinessState::Failed => failure_actions(),
    }
}

/// The surfaces that are left once the handoff has been performed.
pub open spec fn surfaces_after_handoff(surfaces: UiSurfaceSet) -> UiSurfaceSet {
    UiSurfaceSet { splash: false, main: surfaces.main }
}

/// The operations of the handoff, in the order in which they are performed.
pub fn show_main_and_close_splash(surfaces: UiSurfaceSet) -> (actions: Vec<UiAction>)
    ensures
        actions@ == handoff_actions(surfaces),
{
    let mut actions: Vec<UiAction> = Vec::new();
    if surfaces.splash {
        actions.push(UiAction::CloseSplash);
    }
    if surfaces.main {
        actions.push(UiAction::ShowMain);
        actions.push(UiAction::FocusMain);
    }
    assert(actions@ =~= handoff_actions(surfaces));
    actions
}

/// The backend is ready: hand over to the main surface.
pub fn on_ready(surfaces: UiSurfaceSet) -> (actions: Vec<UiAction>)
    ensures
        actions@ == handoff_actions(surfaces),
{
    show_main_and_close_splash(surfaces)
}

/// The backend never became ready: report it and end the application. The
/// status does not depend on anything that happened while probing.
pub fn on_failed() -> (actions: Vec<UiAction>)
    ensures
        actions@ == failure_actions(),
{
    let mut actions: Vec<UiAction> = Vec::new();
    actions.push(UiAction::ReportUnreachable);
    actions.push(UiAction::Exit { status: EXIT_BACKEND_UNREACHABLE });
    assert(actions@ =~= failure_actions());
    actions
}

/// The one transition that the prober's state drives.
pub fn on_readiness(state: ReadinessState, surfaces: UiSurfaceSet) -> (actions: Vec<UiAction>)
    ensures
        actions@ == transition_actions(state, surfaces),
{
    match state {
        ReadinessState::Probing => Vec::new(),
        ReadinessState::Ready => on_ready(surfaces),
        ReadinessState::Failed => on_failed(),
    }
}

/// What a close request from the toolkit leads to.
pub open spec fn close_action(state: ReadinessState) -> UiAction {
    UiAction::Exit { status: EXIT_NORMAL }
}

/// A close request from the toolkit ends the application with the normal
/// status, whatever the readiness state is and whichever surface it came from.
pub fn on_close_requested(state: ReadinessState) -> (action: UiAction)
    ensures
        action == close_action(state),
        action == (UiAction::Exit { status: EXIT_NORMAL }),
{
    let _ = state;
    UiAction::Exit { status: EXIT_NORMAL }
}

/// Without a splash surface the handoff closes nothing and still shows and
/// focuses the main surface if there is one; so a second handoff repeats only
/// that.
pub proof fn lemma_handoff_without_splash(surfaces: UiSurfaceSet)
    requires
        !surfaces.splash,
    ensures
        handoff_actions(surfaces) == if surfaces.main {
            seq![UiAction::ShowMain, UiAction::FocusMain]
        } else {
            Seq::<UiAction>::empty()
        },
        !handoff_actions(surfaces).contains(UiAction::CloseSplash),
        handoff_actions(surfaces_after_handoff(surfaces)) == handoff_actions(surfaces),
{
    let actions = handoff_actions(surfaces);
    if surfaces.main {
        assert(actions =~= seq![UiAction::ShowMain, UiAction::FocusMain]);
    } else {
        assert(actions =~= Seq::<UiAction>::empty());
    }
    assert(surfaces_after_handoff(surfaces) == surfaces);
}

/// Performing the handoff twice closes the splash surface at most once: the
/// second time only the main surface, if there is one, is shown and focused
/// again.
pub proof fn lemma_handoff_repeated(surfaces: UiSurfaceSet)
    ensures
        handoff_actions(surfaces_after_handoff(surfaces)) == if surfaces.main {
            seq![UiAction::ShowMain, UiAction::FocusMain]
        } else {
            Seq::<UiAction>::empty()
        },
        !handoff_actions(surfaces_after_handoff(surfaces)).contains(UiAction::CloseSplash),
{
    lemma_handoff_without_splash(surfaces_after_handoff(surfaces));
}

/// However the prober came to fail, the coordinator does the same: it reports,
/// then exits with the one fatal status, which differs from the status of a
/// normal shutdown, and it leaves the splash surface alone.
pub proof fn lemma_fatal_status_fixed(prober: Prober, surfaces: UiSurfaceSet)
    requires
        prober.state == ReadinessState::Failed,
    ensures
        prober.pending() == (Directive::Exit { status: EXIT_BACKEND_UNREACHABLE }),
        transition_actions(prober.state, surfaces) == failure_actions(),
        failure_actions().last() == (UiAction::Exit { status: EXIT_BACKEND_UNREACHABLE }),
        !failure_actions().contains(UiAction::CloseSplash),
        EXIT_BACKEND_UNREACHABLE != 0,
        EXIT_BACKEND_UNREACHABLE != EXIT_NORMAL,
{
}

/// A close request ends the application with the normal status in every
/// readiness state, and that status is zero.
pub proof fn lemma_close_status_fixed(state: ReadinessState)
    ensures
        close_action(state) == (UiAction::Exit { status: 0 }),
{
}

} // verus!
