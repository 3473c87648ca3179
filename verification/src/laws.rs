//! What holds of the shell in every state and for every sequence of events.

use vstd::prelude::*;
use crate::error::StartupError;
use crate::event::{ShellAction, ShellEventView, StartupEvent};
use crate::hotkey::{HotkeyStatusView, KeyCombinationView};
use crate::menu::{lemma_show_is_not_quit, quit_identifier, show_identifier};
use crate::shell::{PlatformScript, ShellConfigView, ShellPhase, ShellState};
use crate::tray::{is_registered, spec_event_for};
use crate::window::WindowVisibilityState;

verus! {

/// Every event of the sequence is a close request.
pub open spec fn all_close_requests(events: Seq<ShellEventView>) -> bool {
    forall|i: int| 0 <= i < events.len() ==> events[i] == ShellEventView::CloseRequested
}

/// The table routes `show` to a show request and `quit` to a quit request.
pub proof fn law_dispatch_table()
    ensures
        spec_event_for(show_identifier()) == Some(ShellEventView::ShowRequested),
        spec_event_for(quit_identifier()) == Some(ShellEventView::QuitRequested),
        forall|identifier: Seq<char>|
            is_registered(identifier) <==> (#[trigger] spec_event_for(identifier)) is Some,
{
    lemma_show_is_not_quit();
}

/// Closing the window never ends the process. While the tray is installed,
/// any number of close requests leaves the process alive in the phase it
/// was in, and after the first of them the window is hidden. Each of them
/// asks the host to hide the window, none to let the close through.
pub proof fn law_close_requests_hide_and_never_terminate(
    state: ShellState,
    events: Seq<ShellEventView>,
)
    requires
        state.tray_installed(),
        all_close_requests(events),
    ensures
        !state.replay(events).exited,
        state.replay(events).exit_code() is None,
        events.len() > 0 ==> state.replay(events) == (ShellState {
            visibility: WindowVisibilityState::Hidden,
            ..state
        }),
        events.len() == 0 ==> state.replay(events) == state,
        state.trace(events).len() == events.len(),
        forall|i: int|
            0 <= i < events.len() ==> (#[trigger] state.trace(events)[i]) == ShellAction::HideWindow,
    decreases events.len(),
{
    if events.len() > 0 {
        let hidden = state.next(events[0]);
        let rest = events.skip(1);
        assert(events[0] == ShellEventView::CloseRequested);
        assert(hidden == ShellState { visibility: WindowVisibilityState::Hidden, ..state });
        assert forall|i: int| 0 <= i < rest.len() implies rest[i]
            == ShellEventView::CloseRequested by {
            assert(rest[i] == events[i + 1]);
        }
        law_close_requests_hide_and_never_terminate(hidden, rest);
        assert(state.trace(events) == seq![state.action(events[0])] + hidden.trace(rest));
        assert forall|i: int| 0 <= i < events.len() implies (#[trigger] state.trace(events)[i])
            == ShellAction::HideWindow by {
            if i > 0 {
                assert(state.trace(events)[i] == hidden.trace(rest)[i - 1]);
            }
        }
    }
}

/// A show request is idempotent: a second one in a row changes nothing and
/// asks nothing of the host. While the window is visible, the first one
/// changes nothing either.
pub proof fn law_show_request_is_idempotent(state: ShellState)
    ensures
        state.next(ShellEventView::ShowRequested).next(ShellEventView::ShowRequested)
            == state.next(ShellEventView::ShowRequested),
        state.next(ShellEventView::ShowRequested).action(ShellEventView::ShowRequested)
            == ShellAction::Nothing,
        state.visibility == WindowVisibilityState::Visible ==> {
            &&& state.next(ShellEventView::ShowRequested) == state
            &&& state.action(ShellEventView::ShowRequested) == ShellAction::Nothing
        },
        state.dispatch_next(show_identifier()) == state.next(ShellEventView::ShowRequested),
        state.dispatch_action(show_identifier()) == state.action(ShellEventView::ShowRequested),
{
    lemma_show_is_not_quit();
}

/// An explicit quit always ends the process with exit code zero, whatever
/// the window's state and whatever the phase. It passes the window guard
/// by: the window's state is not touched and the host is asked to exit,
/// not to hide.
pub proof fn law_quit_always_exits_with_zero(state: ShellState)
    ensures
        state.next(ShellEventView::QuitRequested).exited,
        state.next(ShellEventView::QuitRequested).exit_code() == Some(0i32),
        state.action(ShellEventView::QuitRequested) == ShellAction::Exit(0i32),
        state.next(ShellEventView::QuitRequested).visibility == state.visibility,
        state.dispatch_next(quit_identifier()) == state.next(ShellEventView::QuitRequested),
        state.dispatch_action(quit_identifier()) == ShellAction::Exit(0i32),
{
    lemma_show_is_not_quit();
}

/// Activating a menu entry that has no handler changes nothing: not the
/// window's state, not whether the process is alive. The host is asked to
/// note it in the log and nothing else.
pub proof fn law_unregistered_action_changes_nothing(state: ShellState, identifier: Seq<char>)
    requires
        !is_registered(identifier),
    ensures
        state.dispatch_next(identifier) == state,
        state.dispatch_next(identifier).visibility == state.visibility,
        state.dispatch_next(identifier).exited == state.exited,
        state.dispatch_action(identifier) == ShellAction::LogUnhandled,
{
}

/// Only an explicit quit ends the process: no other event does, and none
/// brings a process back that has quit.
pub proof fn law_only_quit_terminates(state: ShellState, event: ShellEventView)
    ensures
        state.next(event).exited == (state.exited || event == ShellEventView::QuitRequested),
        state.exited ==> state.next(event) == state,
        state.next(event).phase == state.phase,
        state.next(event).config == state.config,
        state.next(event).hotkey == state.hotkey,
{
}

/// Where startup was aborted, nothing intercepts the close request: the
/// platform's own close goes ahead and the state is not touched.
pub proof fn law_aborted_startup_leaves_close_to_platform(state: ShellState, error: StartupError)
    requires
        state.phase == ShellPhase::Aborted(error),
        !state.exited,
    ensures
        !state.tray_installed(),
        state.next(ShellEventView::CloseRequested) == state,
        state.action(ShellEventView::CloseRequested) == ShellAction::AllowClose,
{
}

/// Without a registered hotkey, no hotkey shows the window: whichever
/// combination fires, nothing changes and nothing is asked of the host.
pub proof fn law_unregistered_hotkey_never_shows(state: ShellState, fired: KeyCombinationView)
    requires
        !(state.hotkey is Registered),
    ensures
        state.next(ShellEventView::HotkeyFired(fired)) == state,
        state.action(ShellEventView::HotkeyFired(fired)) == ShellAction::Nothing,
{
}

/// The bound hotkey does what a show request does, and any other
/// combination does nothing.
pub proof fn law_hotkey_shows_window(
    state: ShellState,
    bound: KeyCombinationView,
    fired: KeyCombinationView,
)
    requires
        state.hotkey == HotkeyStatusView::Registered(bound),
    ensures
        fired == bound ==> {
            &&& state.next(ShellEventView::HotkeyFired(fired)) == state.next(
                ShellEventView::ShowRequested,
            )
            &&& state.action(ShellEventView::HotkeyFired(fired)) == state.action(
                ShellEventView::ShowRequested,
            )
        },
        fired != bound ==> {
            &&& state.next(ShellEventView::HotkeyFired(fired)) == state
            &&& state.action(ShellEventView::HotkeyFired(fired)) == ShellAction::Nothing
        },
{
}

/// Startup only moves forward, and no step is tried twice: a report either
/// changes nothing, or it moves the shell to a later phase and leaves
/// everything but the phase and the hotkey status as it was. A report on
/// the step that is due never changes nothing.
pub proof fn law_startup_moves_forward(state: ShellState, event: StartupEvent)
    ensures
        state.advance(event) == state || state.advance(event).phase.rank() > state.phase.rank(),
        state.advance(event).config == state.config,
        state.advance(event).visibility == state.visibility,
        state.advance(event).exited == state.exited,
        state.pending() is Some && event.reports_on() == state.pending() ==> state.advance(
            event,
        ).pending() != state.pending(),
        state.pending() is None ==> state.advance(event) == state,
{
}

/// Events are handled strictly in the order in which they arrive: handling
/// one sequence and then another is handling the two in a row.
pub proof fn law_replay_in_order(
    state: ShellState,
    first: Seq<ShellEventView>,
    second: Seq<ShellEventView>,
)
    ensures
        state.replay(first + second) == state.replay(first).replay(second),
        state.trace(first + second) == state.trace(first) + state.replay(first).trace(second),
    decreases first.len(),
{
    let all = first + second;
    if first.len() == 0 {
        assert(all =~= second);
        assert(state.trace(first) + state.trace(second) =~= state.trace(second));
    } else if state.exited {
        assert(state.replay(second) == state);
        assert(state.trace(first) + state.trace(second) =~= Seq::<ShellAction>::empty());
    } else {
        let step = state.next(first[0]);
        assert(all[0] == first[0]);
        assert(all.skip(1) =~= first.skip(1) + second);
        law_replay_in_order(step, first.skip(1), second);
        assert(state.trace(all) =~= state.trace(first) + state.replay(first).trace(second));
    }
}

/// Handling a sequence of one event is handling that event.
pub proof fn law_replay_of_one_event(state: ShellState, event: ShellEventView)
    requires
        !state.exited,
    ensures
        state.replay(seq![event]) == state.next(event),
        state.trace(seq![event]) == seq![state.action(event)],
{
    let events = seq![event];
    let rest = events.skip(1);
    assert(rest.len() == 0);
    assert(state.next(event).replay(rest) == state.next(event));
    assert(state.next(event).trace(rest) =~= Seq::<ShellAction>::empty());
    assert(state.trace(events) =~= seq![state.action(event)]);
}

/// What a whole startup comes to. A menu that fails aborts it, and the
/// tray is not tried. A tray that fails aborts it. Otherwise the shell
/// runs, with the tray installed and close requests intercepted: with the
/// hotkey bound where the platform has the subsystem and grants the
/// combination, with the failure recorded where it refuses, and with no
/// hotkey where the platform has no such subsystem. The window is visible
/// and the process alive in every case.
pub proof fn law_startup_outcome(config: ShellConfigView, platform: PlatformScript)
    ensures
        ({
            let started = ShellState::initial(config).start(platform);
            &&& started.config == config
            &&& started.visibility == WindowVisibilityState::Visible
            &&& !started.exited
            &&& started.pending() is None
            &&& match (platform.menu, platform.tray) {
                (Err(error), _) => {
                    &&& started.phase == ShellPhase::Aborted(StartupError::Menu(error))
                    &&& started.hotkey == HotkeyStatusView::Unregistered
                },
                (Ok(_), Err(error)) => {
                    &&& started.phase == ShellPhase::Aborted(StartupError::Tray(error))
                    &&& started.hotkey == HotkeyStatusView::Unregistered
                },
                (Ok(_), Ok(_)) => {
                    &&& started.running()
                    &&& started.tray_installed()
                    &&& started.hotkey == match (config.hotkey, platform.hotkey) {
                        (None, _) => HotkeyStatusView::Unregistered,
                        (Some(combination), Ok(_)) => HotkeyStatusView::Registered(combination),
                        (Some(_), Err(error)) => HotkeyStatusView::Failed(error),
                    }
                },
            }
        }),
{
}

} // verus!
