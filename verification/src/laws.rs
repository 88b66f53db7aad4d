use vstd::prelude::*;

use crate::controller::Action;
use crate::controller::ControllerView;
use crate::controller::Event;
use crate::controller::Key;
use crate::controller::MAX_TEMPERATURE;
use crate::controller::MIN_TEMPERATURE;
use crate::controller::Step;
use crate::controller::lemma_step_preserves_wf;
use crate::controller::step;

verus! {

/// The state after a whole sequence of events, first event first.
pub open spec fn run_events(s: ControllerView, evs: Seq<Event>) -> ControllerView
    decreases evs.len(),
{
    if evs.len() == 0 {
        s
    } else {
        run_events(step(s, evs[0]).state, evs.drop_first())
    }
}

/// Clamping: after any sequence of events — `+` and `-` keystrokes
/// included — a well-formed controller stays well-formed, and in
/// particular its temperature never leaves the clamped range.
pub proof fn lemma_temperature_clamped(s: ControllerView, evs: Seq<Event>)
    requires
        s.wf(),
    ensures
        run_events(s, evs).wf(),
        MIN_TEMPERATURE <= run_events(s, evs).temperature <= MAX_TEMPERATURE,
    decreases evs.len(),
{
    if evs.len() > 0 {
        lemma_step_preserves_wf(s, evs[0]);
        lemma_temperature_clamped(step(s, evs[0]).state, evs.drop_first());
    }
}

/// Idempotent bounds: a `+` (or `=`) keystroke at the highest temperature,
/// and a `-` keystroke at the lowest, change neither the state — so
/// neither temperature nor color nor any window — nor demand any action.
pub proof fn lemma_bounds_idempotent(s: ControllerView, ch: char)
    requires
        s.wf(),
        (ch == '+' || ch == '=') ==> s.temperature == MAX_TEMPERATURE,
        ch == '-' ==> s.temperature == MIN_TEMPERATURE,
    ensures
        step(s, Event::Character { ch }) == (Step { state: s, action: Action::Nothing }),
{
}

/// Broadcast consistency: after any event, every window still present
/// shows the controller's current color — after a successful `+` or `-`
/// that is the freshly converted one; no window lags behind.
pub proof fn lemma_broadcast_consistent(s: ControllerView, ev: Event)
    requires
        s.wf(),
    ensures
        forall|i: int|
            0 <= i < step(s, ev).state.windows.len() ==> step(s, ev).state.windows[i].color
                == step(s, ev).state.color,
{
    lemma_step_preserves_wf(s, ev);
}

/// Shutdown invariant, draining side: the window set can become empty only
/// through an explicit close — the close box, a released `Escape`, a
/// latched Cmd+W — or through the forced drain of an idle tick after an
/// exit was requested.
pub proof fn lemma_empty_only_by_close(s: ControllerView, ev: Event)
    requires
        s.wf(),
        s.windows.len() > 0,
        step(s, ev).state.windows.len() == 0,
    ensures
        ({
            ||| ev matches Event::CloseRequested { .. }
            ||| ev matches Event::Key { key: Key::Escape, pressed: false, .. }
            ||| (ev matches Event::Key { key: Key::W, pressed: true, .. } && s.armed_w
                && s.command_held)
            ||| (ev matches Event::IdleTick && s.exit_requested)
        }),
{
}

/// Shutdown invariant, graceful side: once the set has drained through
/// orderly closes, the very next idle tick completes the shutdown — the
/// phase turns `Terminal` and the loop is let go; no idle spin.
pub proof fn lemma_graceful_exit(s: ControllerView)
    requires
        s.wf(),
        s.phase is Graceful,
    ensures
        step(s, Event::IdleTick).state.phase is Terminal,
        step(s, Event::IdleTick).action == Action::ExitLoop,
{
}

/// Shutdown invariant, quit-all side: with an exit requested while windows
/// remain open, the next idle tick force-clears them without entering
/// `Graceful`, and the tick after that ends the process through the fatal
/// fault path rather than spinning.
pub proof fn lemma_forced_drain(s: ControllerView)
    requires
        s.wf(),
        s.exit_requested,
        s.phase is Running,
        s.windows.len() > 0,
    ensures
        step(s, Event::IdleTick).action == Action::DropAll,
        step(s, Event::IdleTick).state.windows.len() == 0,
        step(s, Event::IdleTick).state.phase is Running,
        step(step(s, Event::IdleTick).state, Event::IdleTick).action == Action::Fault,
{
}

/// Shutdown invariant, entry side: an exit can only ever be requested by
/// an explicit close that drains the window set — which enters `Graceful`
/// — or by a latched Cmd+Q, which does not.
pub proof fn lemma_exit_only_by_drain_or_quit(s: ControllerView, ev: Event)
    requires
        s.wf(),
        !s.exit_requested,
        step(s, ev).state.exit_requested,
    ensures
        ({
            ||| ((ev matches Event::CloseRequested { .. } || ev matches Event::Key {
                key: Key::Escape,
                pressed: false,
                ..
            } || (ev matches Event::Key { key: Key::W, pressed: true, .. } && s.armed_w
                && s.command_held)) && step(s, ev).state.phase is Graceful && step(
                s,
                ev,
            ).state.windows.len() == 0)
            ||| (ev matches Event::Key { key: Key::Q, pressed: true, .. } && s.armed_q
                && s.command_held && step(s, ev).state.phase == s.phase)
        }),
{
}

/// Latch correctness, firing side: a `W` press with the latch armed and
/// the command modifier held fires exactly once — it closes the focused
/// window and leaves the latch disarmed; a `Q` press likewise requests the
/// exit and disarms its latch.
pub proof fn lemma_latch_fires_once(s: ControllerView, window: u64)
    requires
        s.wf(),
        s.command_held,
    ensures
        s.armed_w ==> step(s, Event::Key { window, key: Key::W, pressed: true }).action
            == (Action::DropWindow { window }),
        s.armed_w ==> !step(s, Event::Key { window, key: Key::W, pressed: true }).state.armed_w,
        s.armed_q ==> !step(s, Event::Key { window, key: Key::Q, pressed: true }).state.armed_q,
        s.armed_q ==> step(
            s,
            Event::Key { window, key: Key::Q, pressed: true },
        ).state.exit_requested,
{
}

/// Latch correctness, auto-repeat side: with the latch disarmed, a held
/// key's repeated press events change nothing and demand nothing, however
/// often they repeat; only an intervening release re-arms the latch, and
/// the release itself changes nothing else.
pub proof fn lemma_latch_blocks_repeat(s: ControllerView, window: u64)
    requires
        s.wf(),
    ensures
        !s.armed_w ==> step(s, Event::Key { window, key: Key::W, pressed: true }) == (Step {
            state: s,
            action: Action::Nothing,
        }),
        !s.armed_q ==> step(s, Event::Key { window, key: Key::Q, pressed: true }) == (Step {
            state: s,
            action: Action::Nothing,
        }),
        step(s, Event::Key { window, key: Key::W, pressed: false }).state == (ControllerView {
            armed_w: true,
            ..s
        }),
        step(s, Event::Key { window, key: Key::Q, pressed: false }).state == (ControllerView {
            armed_q: true,
            ..s
        }),
{
}

/// Latch correctness over a whole burst: any run of auto-repeated `W` (or
/// `Q`) press events with no intervening release leaves the state exactly
/// where the first press left it — the action fires at most once.
pub proof fn lemma_held_key_fires_at_most_once(s: ControllerView, window: u64, key: Key, n: nat)
    requires
        s.wf(),
        !s.armed_w,
        !s.armed_q,
        key is W || key is Q,
    ensures
        run_events(
            s,
            Seq::new(n, |i: int| Event::Key { window, key, pressed: true }),
        ) == s,
    decreases n,
{
    if n > 0 {
        let evs = Seq::new(n, |i: int| Event::Key { window, key, pressed: true });
        assert(step(s, evs[0]).state == s);
        assert(evs.drop_first() =~= Seq::new(
            (n - 1) as nat,
            |i: int| Event::Key { window, key, pressed: true },
        ));
        lemma_held_key_fires_at_most_once(s, window, key, (n - 1) as nat);
    }
}

/// Modifier gating: without the command modifier held, `W` and `Q` press
/// events change nothing and demand nothing, whatever the latches say.
pub proof fn lemma_modifier_gating(s: ControllerView, window: u64)
    requires
        s.wf(),
        !s.command_held,
    ensures
        step(s, Event::Key { window, key: Key::W, pressed: true }) == (Step {
            state: s,
            action: Action::Nothing,
        }),
        step(s, Event::Key { window, key: Key::Q, pressed: true }) == (Step {
            state: s,
            action: Action::Nothing,
        }),
{
}

/// Fullscreen isolation: a released `F` flips only the focused window's
/// fullscreen flag — temperature, color, membership and the shutdown state
/// are untouched.
pub proof fn lemma_fullscreen_isolated(s: ControllerView, window: u64)
    requires
        s.wf(),
    ensures
        step(s, Event::Key { window, key: Key::F, pressed: false }).state.temperature
            == s.temperature,
        step(s, Event::Key { window, key: Key::F, pressed: false }).state.color == s.color,
        step(s, Event::Key { window, key: Key::F, pressed: false }).state.windows.len()
            == s.windows.len(),
        forall|i: int|
            0 <= i < s.windows.len() ==> step(
                s,
                Event::Key { window, key: Key::F, pressed: false },
            ).state.windows[i].id == s.windows[i].id,
        step(s, Event::Key { window, key: Key::F, pressed: false }).state.phase == s.phase,
        step(s, Event::Key { window, key: Key::F, pressed: false }).state.exit_requested
            == s.exit_requested,
{
}

} // verus!
