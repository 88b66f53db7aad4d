use vstd::prelude::*;
use vstd::pervasive::VecAdditionalExecFns;

use crate::color::Color;
use crate::color::convert;
use crate::color::spec_convert;

verus! {

/// Lowest color temperature the controller will select.
pub const MIN_TEMPERATURE: u32 = 1500;

/// Highest color temperature the controller will select.
pub const MAX_TEMPERATURE: u32 = 6600;

/// Temperature every controller starts at.
pub const DEFAULT_TEMPERATURE: u32 = 3000;

/// Amount one `+` or `-` keystroke moves the temperature.
pub const TEMPERATURE_STEP: u32 = 100;

/// One overlay window: its identifier, whether it currently covers its
/// display, and the background color it shows.
#[derive(Clone, Copy, PartialEq, Eq, Structural, Debug)]
pub struct WindowRecord {
    pub id: u64,
    pub fullscreen: bool,
    pub color: Color,
}

/// Where the controller stands in its two-phase shutdown protocol.
///
/// `Running` is normal operation. `Graceful` means the window set has just
/// drained through orderly closes and the loop is owed exactly one more idle
/// tick. `Terminal` means that tick has happened and the loop may finish.
#[derive(Clone, Copy, PartialEq, Eq, Structural, Debug)]
pub enum ShutdownPhase {
    Running,
    Graceful,
    Terminal,
}

/// The keys the controller reacts to; everything else is `Other`.
#[derive(Clone, Copy, PartialEq, Eq, Structural, Debug)]
pub enum Key {
    Escape,
    W,
    Q,
    F,
    Other,
}

/// One item of the event stream the platform layer feeds the controller.
#[derive(Clone, Copy, Debug)]
pub enum Event {
    /// The close box of the window with this identifier was activated.
    CloseRequested { window: u64 },
    /// The modifier keys changed; `command` says whether the platform
    /// command (logo) modifier is now held.
    ModifiersChanged { command: bool },
    /// A character was typed into the focused window.
    Character { ch: char },
    /// A key went down or up in the window with this identifier.
    Key { window: u64, key: Key, pressed: bool },
    /// The loop came around with no event pending.
    IdleTick,
}

/// What the platform layer must do after the controller handled an event.
#[derive(Clone, Copy, PartialEq, Eq, Structural, Debug)]
pub enum Action {
    /// Nothing to do.
    Nothing,
    /// Drop the native window with this identifier.
    DropWindow { window: u64 },
    /// Apply this background color to every remaining overlay window.
    ApplyColor { color: Color },
    /// Put the native window with this identifier into or out of fullscreen.
    SetFullscreen { window: u64, fullscreen: bool },
    /// Drop every remaining native window.
    DropAll,
    /// The graceful drain is complete: let the loop finish.
    ExitLoop,
    /// Exit was requested without a graceful hand-off: fatal invariant
    /// violation, the process must abort.
    Fault,
}

/// The controller's state as the contracts speak of it.
#[verifier::ext_equal]
pub struct ControllerView {
    pub temperature: u32,
    pub color: Color,
    pub windows: Seq<WindowRecord>,
    pub command_held: bool,
    pub armed_w: bool,
    pub armed_q: bool,
    pub phase: ShutdownPhase,
    pub exit_requested: bool,
}

/// One transition: the state after an event and the action it demands.
#[verifier::ext_equal]
pub struct Step {
    pub state: ControllerView,
    pub action: Action,
}

/// No two records share an identifier.
pub open spec fn unique_ids(ws: Seq<WindowRecord>) -> bool {
    forall|i: int, j: int|
        0 <= i < ws.len() && 0 <= j < ws.len() && i != j ==> ws[i].id != ws[j].id
}

/// Some record carries this identifier.
pub open spec fn has_id(ws: Seq<WindowRecord>, id: u64) -> bool {
    exists|i: int| 0 <= i < ws.len() && ws[i].id == id
}

/// The position of the record carrying this identifier (meaningful when
/// `has_id` holds and the identifiers are unique).
pub open spec fn index_of(ws: Seq<WindowRecord>, id: u64) -> int {
    choose|i: int| 0 <= i < ws.len() && ws[i].id == id
}

/// The records left after every record with this identifier is removed,
/// in their original order.
pub open spec fn remove_id(ws: Seq<WindowRecord>, id: u64) -> Seq<WindowRecord>
    decreases ws.len(),
{
    if ws.len() == 0 {
        Seq::empty()
    } else {
        let rest = remove_id(ws.drop_first(), id);
        if ws[0].id == id {
            rest
        } else {
            seq![ws[0]] + rest
        }
    }
}

/// Every record repainted with this color.
pub open spec fn recolored(ws: Seq<WindowRecord>, c: Color) -> Seq<WindowRecord> {
    Seq::new(
        ws.len(),
        |i: int| WindowRecord { id: ws[i].id, fullscreen: ws[i].fullscreen, color: c },
    )
}

/// The record with this identifier flipped between fullscreen and normal
/// bounds; absent identifiers change nothing.
pub open spec fn toggled(ws: Seq<WindowRecord>, id: u64) -> Seq<WindowRecord> {
    Seq::new(
        ws.len(),
        |i: int|
            if ws[i].id == id {
                WindowRecord { id: ws[i].id, fullscreen: !ws[i].fullscreen, color: ws[i].color }
            } else {
                ws[i]
            },
    )
}

impl ControllerView {
    /// Well-formedness: the temperature sits on the clamped 100-step grid,
    /// the color is derived from it, identifiers are unique, every window
    /// shows the current color, and the shutdown phases beyond `Running`
    /// are reached only with the window set drained and an exit requested.
    pub open spec fn wf(self) -> bool {
        &&& MIN_TEMPERATURE <= self.temperature <= MAX_TEMPERATURE
        &&& self.temperature % TEMPERATURE_STEP == 0
        &&& self.color == spec_convert(self.temperature)
        &&& unique_ids(self.windows)
        &&& forall|i: int| 0 <= i < self.windows.len() ==> self.windows[i].color == self.color
        &&& (self.phase is Graceful || self.phase is Terminal) ==> (self.exit_requested
            && self.windows.len() == 0)
    }
}

/// Remove one window; when the set drains, enter `Graceful` and request
/// that the loop exit.
pub open spec fn spec_close(s: ControllerView, id: u64) -> Step {
    let ws = remove_id(s.windows, id);
    let state = if ws.len() == 0 {
        ControllerView {
            windows: ws,
            phase: ShutdownPhase::Graceful,
            exit_requested: true,
            ..s
        }
    } else {
        ControllerView { windows: ws, ..s }
    };
    Step { state, action: Action::DropWindow { window: id } }
}

/// Move the temperature one step (already checked to stay in bounds),
/// recompute the color, and broadcast it to every window.
pub open spec fn spec_retune(s: ControllerView, temperature: u32) -> Step {
    let c = spec_convert(temperature);
    Step {
        state: ControllerView {
            temperature,
            color: c,
            windows: recolored(s.windows, c),
            ..s
        },
        action: Action::ApplyColor { color: c },
    }
}

/// One idle tick: meaningful only while an exit stands requested. A
/// non-empty window set is forcibly cleared; a drained set completes the
/// graceful hand-off, or, without one, is a fatal invariant violation.
pub open spec fn spec_tick(s: ControllerView) -> Step {
    if !s.exit_requested {
        Step { state: s, action: Action::Nothing }
    } else if s.windows.len() > 0 {
        Step {
            state: ControllerView { windows: Seq::empty(), ..s },
            action: Action::DropAll,
        }
    } else if s.phase is Graceful {
        Step {
            state: ControllerView { phase: ShutdownPhase::Terminal, ..s },
            action: Action::ExitLoop,
        }
    } else {
        Step { state: s, action: Action::Fault }
    }
}

/// The controller's whole transition relation: the state after an event
/// and the action the platform layer owes for it.
pub open spec fn step(s: ControllerView, ev: Event) -> Step {
    let unchanged = Step { state: s, action: Action::Nothing };
    match ev {
        Event::CloseRequested { window } => spec_close(s, window),
        Event::ModifiersChanged { command } => Step {
            state: ControllerView { command_held: command, ..s },
            action: Action::Nothing,
        },
        Event::Character { ch } => {
            if (ch == '+' || ch == '=') && s.temperature < MAX_TEMPERATURE {
                spec_retune(s, (s.temperature + TEMPERATURE_STEP) as u32)
            } else if ch == '-' && s.temperature > MIN_TEMPERATURE {
                spec_retune(s, (s.temperature - TEMPERATURE_STEP) as u32)
            } else {
                unchanged
            }
        },
        Event::Key { window, key, pressed } => match key {
            Key::Escape => if !pressed {
                spec_close(s, window)
            } else {
                unchanged
            },
            Key::W => if !pressed {
                Step {
                    state: ControllerView { armed_w: true, ..s },
                    action: Action::Nothing,
                }
            } else if s.armed_w && s.command_held {
                spec_close(ControllerView { armed_w: false, ..s }, window)
            } else {
                unchanged
            },
            Key::Q => if !pressed {
                Step {
                    state: ControllerView { armed_q: true, ..s },
                    action: Action::Nothing,
                }
            } else if s.armed_q && s.command_held {
                Step {
                    state: ControllerView { armed_q: false, exit_requested: true, ..s },
                    action: Action::Nothing,
                }
            } else {
                unchanged
            },
            Key::F => if !pressed {
                Step {
                    state: ControllerView { windows: toggled(s.windows, window), ..s },
                    action: if has_id(s.windows, window) {
                        Action::SetFullscreen {
                            window,
                            fullscreen: !s.windows[index_of(s.windows, window)].fullscreen,
                        }
                    } else {
                        Action::Nothing
                    },
                }
            } else {
                unchanged
            },
            Key::Other => unchanged,
        },
        Event::IdleTick => spec_tick(s),
    }
}

/// The overlay window controller: it owns the set of live overlay windows,
/// the current temperature with its derived color, the modifier and latch
/// state, and the shutdown phase. Events go in through `handle_event`; the
/// returned `Action` tells the platform layer what to carry out.
pub struct Controller {
    pub temperature: u32,
    pub color: Color,
    pub windows: Vec<WindowRecord>,
    pub command_held: bool,
    pub armed_w: bool,
    pub armed_q: bool,
    pub phase: ShutdownPhase,
    pub exit_requested: bool,
}

impl View for Controller {
    type V = ControllerView;

    open spec fn view(&self) -> ControllerView {
        ControllerView {
            temperature: self.temperature,
            color: self.color,
            windows: self.windows@,
            command_held: self.command_held,
            armed_w: self.armed_w,
            armed_q: self.armed_q,
            phase: self.phase,
            exit_requested: self.exit_requested,
        }
    }
}

impl Controller {
    /// Stand up the controller over the windows enumerated at startup, one
    /// identifier per display: every window starts fullscreen and shows the
    /// color of the default temperature; both latches armed, no modifier
    /// held, the loop running.
    pub fn new(window_ids: &Vec<u64>) -> (c: Controller)
        requires
            forall|i: int, j: int|
                0 <= i < window_ids@.len() && 0 <= j < window_ids@.len() && i != j
                    ==> window_ids@[i] != window_ids@[j],
        ensures
            c@.wf(),
            c@.temperature == DEFAULT_TEMPERATURE,
            c@.color == spec_convert(DEFAULT_TEMPERATURE),
            c@.windows.len() == window_ids@.len(),
            forall|i: int|
                0 <= i < window_ids@.len() ==> c@.windows[i] == (WindowRecord {
                    id: window_ids@[i],
                    fullscreen: true,
                    color: spec_convert(DEFAULT_TEMPERATURE),
                }),
            !c@.command_held,
            c@.armed_w,
            c@.armed_q,
            c@.phase is Running,
            !c@.exit_requested,
    {
        let color = convert(DEFAULT_TEMPERATURE);
        let mut windows: Vec<WindowRecord> = Vec::new();
        let mut i: usize = 0;
        while i < window_ids.len()
            invariant
                i <= window_ids@.len(),
                windows@.len() == i,
                color == spec_convert(DEFAULT_TEMPERATURE),
                forall|k: int|
                    0 <= k < i ==> windows@[k] == (WindowRecord {
                        id: window_ids@[k],
                        fullscreen: true,
                        color,
                    }),
            decreases window_ids@.len() - i,
        {
            windows.push(WindowRecord { id: window_ids[i], fullscreen: true, color });
            i += 1;
        }
        Controller {
            temperature: DEFAULT_TEMPERATURE,
            color,
            windows,
            command_held: false,
            armed_w: true,
            armed_q: true,
            phase: ShutdownPhase::Running,
            exit_requested: false,
        }
    }

    /// Feed one event through the controller. The new state and the
    /// returned action are exactly what the transition relation `step`
    /// gives for the old state, and well-formedness is preserved.
    pub fn handle_event(&mut self, ev: Event) -> (a: Action)
        requires
            old(self)@.wf(),
        ensures
            final(self)@.wf(),
            final(self)@ == step(old(self)@, ev).state,
            a == step(old(self)@, ev).action,
    {
        let a = match ev {
            Event::CloseRequested { window } => self.close_window(window),
            Event::ModifiersChanged { command } => {
                self.command_held = command;
                Action::Nothing
            },
            Event::Character { ch } => {
                if (ch == '+' || ch == '=') && self.temperature < MAX_TEMPERATURE {
                    let t: u32 = self.temperature + TEMPERATURE_STEP;
                    self.retune(t)
                } else if ch == '-' && self.temperature > MIN_TEMPERATURE {
                    let t: u32 = self.temperature - TEMPERATURE_STEP;
                    self.retune(t)
                } else {
                    Action::Nothing
                }
            },
            Event::Key { window, key, pressed } => match key {
                Key::Escape => if !pressed {
                    self.close_window(window)
                } else {
                    Action::Nothing
                },
                Key::W => if !pressed {
                    self.armed_w = true;
                    Action::Nothing
                } else if self.armed_w && self.command_held {
                    self.armed_w = false;
                    self.close_window(window)
                } else {
                    Action::Nothing
                },
                Key::Q => if !pressed {
                    self.armed_q = true;
                    Action::Nothing
                } else if self.armed_q && self.command_held {
                    self.armed_q = false;
                    self.exit_requested = true;
                    Action::Nothing
                } else {
                    Action::Nothing
                },
                Key::F => if !pressed {
                    self.toggle_fullscreen(window)
                } else {
                    Action::Nothing
                },
                Key::Other => Action::Nothing,
            },
            Event::IdleTick => self.tick(),
        };
        proof {
            lemma_step_preserves_wf(old(self)@, ev);
        }
        a
    }

    /// Remove the window with this identifier; a set drained this way
    /// enters the graceful shutdown hand-off.
    fn close_window(&mut self, id: u64) -> (a: Action)
        ensures
            final(self)@ == spec_close(old(self)@, id).state,
            a == spec_close(old(self)@, id).action,
    {
        let ghost orig = self.windows@;
        let mut kept: Vec<WindowRecord> = Vec::new();
        let mut i: usize = 0;
        proof {
            assert(orig.skip(0) =~= orig);
        }
        while i < self.windows.len()
            invariant
                i <= self.windows@.len(),
                self.windows@ == orig,
                kept@ + remove_id(orig.skip(i as int), id) == remove_id(orig, id),
            decreases self.windows@.len() - i,
        {
            let w = self.windows[i];
            proof {
                assert(orig.skip(i as int).drop_first() =~= orig.skip(i as int + 1));
                assert(orig.skip(i as int)[0] == orig[i as int]);
            }
            if w.id != id {
                let ghost before = kept@;
                kept.push(w);
                proof {
                    assert(kept@ =~= before + seq![w]);
                    assert((before + seq![w]) + remove_id(orig.skip(i as int + 1), id) =~= before
                        + (seq![w] + remove_id(orig.skip(i as int + 1), id)));
                }
            }
            i += 1;
        }
        proof {
            assert(orig.skip(orig.len() as int) =~= Seq::<WindowRecord>::empty());
            assert(kept@ + remove_id(orig.skip(orig.len() as int), id) =~= kept@);
        }
        self.windows = kept;
        if self.windows.len() == 0 {
            self.phase = ShutdownPhase::Graceful;
            self.exit_requested = true;
        }
        proof {
            assert(self@ =~= spec_close(old(self)@, id).state);
        }
        Action::DropWindow { window: id }
    }

    /// Move to this temperature, recompute the color, and repaint every
    /// window with it.
    fn retune(&mut self, temperature: u32) -> (a: Action)
        ensures
            final(self)@ == spec_retune(old(self)@, temperature).state,
            a == spec_retune(old(self)@, temperature).action,
    {
        let c = convert(temperature);
        let mut repainted: Vec<WindowRecord> = Vec::new();
        let mut i: usize = 0;
        while i < self.windows.len()
            invariant
                i <= self.windows@.len(),
                self.windows@ == old(self)@.windows,
                repainted@.len() == i,
                c == spec_convert(temperature),
                forall|k: int|
                    0 <= k < i ==> repainted@[k] == (WindowRecord {
                        id: old(self)@.windows[k].id,
                        fullscreen: old(self)@.windows[k].fullscreen,
                        color: c,
                    }),
            decreases self.windows@.len() - i,
        {
            let w = self.windows[i];
            repainted.push(WindowRecord { id: w.id, fullscreen: w.fullscreen, color: c });
            i += 1;
        }
        self.temperature = temperature;
        self.color = c;
        self.windows = repainted;
        proof {
            assert(self@.windows =~= recolored(old(self)@.windows, c));
            assert(self@ =~= spec_retune(old(self)@, temperature).state);
        }
        Action::ApplyColor { color: c }
    }

    /// Flip the fullscreen state of the window with this identifier, if it
    /// is still open.
    fn toggle_fullscreen(&mut self, id: u64) -> (a: Action)
        requires
            unique_ids(old(self)@.windows),
        ensures
            final(self)@ == (ControllerView {
                windows: toggled(old(self)@.windows, id),
                ..old(self)@
            }),
            a == (if has_id(old(self)@.windows, id) {
                Action::SetFullscreen {
                    window: id,
                    fullscreen: !old(self)@.windows[index_of(old(self)@.windows, id)].fullscreen,
                }
            } else {
                Action::Nothing
            }),
    {
        let found = Self::find_index(&self.windows, id);
        match found {
            Option::Some(j) => {
                let w = self.windows[j];
                self.windows.set(j, WindowRecord { id: w.id, fullscreen: !w.fullscreen, color: w.color });
                proof {
                    assert(0 <= index_of(old(self)@.windows, id) < old(self)@.windows.len()
                        && old(self)@.windows[index_of(old(self)@.windows, id)].id == id);
                    assert(index_of(old(self)@.windows, id) == j as int);
                    assert(self@.windows =~= toggled(old(self)@.windows, id));
                    assert(self@ =~= (ControllerView {
                        windows: toggled(old(self)@.windows, id),
                        ..old(self)@
                    }));
                }
                Action::SetFullscreen { window: id, fullscreen: !w.fullscreen }
            },
            Option::None => {
                proof {
                    assert(self@.windows =~= toggled(old(self)@.windows, id));
                    assert(self@ =~= (ControllerView {
                        windows: toggled(old(self)@.windows, id),
                        ..old(self)@
                    }));
                }
                Action::Nothing
            },
        }
    }

    /// One idle tick, meaningful only while an exit stands requested: force
    /// the drain, complete the graceful hand-off, or report the fatal
    /// invariant violation.
    fn tick(&mut self) -> (a: Action)
        ensures
            final(self)@ == spec_tick(old(self)@).state,
            a == spec_tick(old(self)@).action,
    {
        if !self.exit_requested {
            Action::Nothing
        } else if self.windows.len() > 0 {
            self.windows = Vec::new();
            proof {
                assert(self@ =~= spec_tick(old(self)@).state);
            }
            Action::DropAll
        } else {
            match self.phase {
                ShutdownPhase::Graceful => {
                    self.phase = ShutdownPhase::Terminal;
                    Action::ExitLoop
                },
                _ => Action::Fault,
            }
        }
    }

    /// The position of the record with this identifier, if any; the first
    /// match is reported, and absence means no record carries it.
    fn find_index(windows: &Vec<WindowRecord>, id: u64) -> (r: Option<usize>)
        ensures
            match r {
                Option::Some(j) => j < windows@.len() && windows@[j as int].id == id,
                Option::None => forall|k: int| 0 <= k < windows@.len() ==> windows@[k].id != id,
            },
    {
        let mut i: usize = 0;
        while i < windows.len()
            invariant
                i <= windows@.len(),
                forall|k: int| 0 <= k < i ==> windows@[k].id != id,
            decreases windows@.len() - i,
        {
            if windows[i].id == id {
                return Option::Some(i);
            }
            i += 1;
        }
        Option::None
    }

    /// The current color temperature.
    pub fn current_temperature(&self) -> (t: u32)
        ensures
            t == self@.temperature,
    {
        self.temperature
    }

    /// The color every live window currently shows.
    pub fn current_color(&self) -> (c: Color)
        ensures
            c == self@.color,
    {
        self.color
    }

    /// How many overlay windows are still open.
    pub fn window_count(&self) -> (n: usize)
        ensures
            n == self@.windows.len(),
    {
        self.windows.len()
    }

    /// Where the controller stands in the shutdown protocol.
    pub fn shutdown_phase(&self) -> (p: ShutdownPhase)
        ensures
            p == self@.phase,
    {
        self.phase
    }

    /// Whether the controller has asked the loop to exit.
    pub fn wants_exit(&self) -> (r: bool)
        ensures
            r == self@.exit_requested,
    {
        self.exit_requested
    }

    /// Whether the window with this identifier is still open.
    pub fn has_window(&self, id: u64) -> (r: bool)
        ensures
            r == has_id(self@.windows, id),
    {
        match Self::find_index(&self.windows, id) {
            Option::Some(_) => true,
            Option::None => false,
        }
    }

    /// The fullscreen flag of the window with this identifier, if it is
    /// still open.
    pub fn fullscreen_state(&self, id: u64) -> (r: Option<bool>)
        requires
            unique_ids(self@.windows),
        ensures
            match r {
                Option::Some(f) => has_id(self@.windows, id) && f == self@.windows[index_of(
                    self@.windows,
                    id,
                )].fullscreen,
                Option::None => !has_id(self@.windows, id),
            },
    {
        match Self::find_index(&self.windows, id) {
            Option::Some(j) => {
                proof {
                    assert(index_of(self@.windows, id) == j as int);
                }
                Option::Some(self.windows[j].fullscreen)
            },
            Option::None => Option::None,
        }
    }
}

/// The facts the well-formedness proofs need of `remove_id`: removal never
/// grows the set, introduces no record, leaves no record with the removed
/// identifier, and keeps identifiers unique.
pub proof fn lemma_remove_id_props(ws: Seq<WindowRecord>, id: u64)
    ensures
        remove_id(ws, id).len() <= ws.len(),
        forall|x: WindowRecord| #[trigger] remove_id(ws, id).contains(x) ==> ws.contains(x),
        forall|k: int| 0 <= k < remove_id(ws, id).len() ==> remove_id(ws, id)[k].id != id,
        unique_ids(ws) ==> unique_ids(remove_id(ws, id)),
    decreases ws.len(),
{
    if ws.len() == 0 {
    } else {
        let tail = ws.drop_first();
        let rest = remove_id(tail, id);
        lemma_remove_id_props(tail, id);
        assert forall|x: WindowRecord| #[trigger] tail.contains(x) implies ws.contains(x) by {
            let m = choose|m: int| 0 <= m < tail.len() && tail[m] == x;
            assert(ws[m + 1] == x);
        };
        if unique_ids(ws) {
            assert forall|i: int, j: int|
                0 <= i < tail.len() && 0 <= j < tail.len() && i != j implies tail[i].id
                != tail[j].id by {
                assert(tail[i] == ws[i + 1]);
                assert(tail[j] == ws[j + 1]);
            };
        }
        if ws[0].id == id {
            assert(remove_id(ws, id) == rest);
        } else {
            let whole = seq![ws[0]] + rest;
            assert(remove_id(ws, id) == whole);
            assert forall|x: WindowRecord| #[trigger] whole.contains(x) implies ws.contains(x) by {
                let m = choose|m: int| 0 <= m < whole.len() && whole[m] == x;
                if m == 0 {
                    assert(ws[0] == x);
                } else {
                    assert(rest[m - 1] == x);
                    assert(rest.contains(x));
                    assert(tail.contains(x));
                }
            };
            assert forall|k: int| 0 <= k < whole.len() implies whole[k].id != id by {
                if k > 0 {
                    assert(whole[k] == rest[k - 1]);
                }
            };
            if unique_ids(ws) {
                assert forall|i: int, j: int|
                    0 <= i < whole.len() && 0 <= j < whole.len() && i != j implies whole[i].id
                    != whole[j].id by {
                    if i == 0 || j == 0 {
                        let p = if i == 0 { j } else { i };
                        assert(whole[p] == rest[p - 1]);
                        assert(rest.contains(rest[p - 1]));
                        assert(tail.contains(rest[p - 1]));
                        let m = choose|m: int| 0 <= m < tail.len() && tail[m] == rest[p - 1];
                        assert(tail[m] == ws[m + 1]);
                        assert(ws[0].id != ws[m + 1].id);
                    } else {
                        assert(whole[i] == rest[i - 1]);
                        assert(whole[j] == rest[j - 1]);
                    }
                };
            }
        }
    }
}

/// Removing from a drained set leaves it drained.
pub proof fn lemma_remove_id_empty(ws: Seq<WindowRecord>, id: u64)
    requires
        ws.len() == 0,
    ensures
        remove_id(ws, id).len() == 0,
{
}

/// Closing a window preserves well-formedness.
pub proof fn lemma_close_preserves_wf(s: ControllerView, id: u64)
    requires
        s.wf(),
    ensures
        spec_close(s, id).state.wf(),
{
    lemma_remove_id_props(s.windows, id);
    let ws = remove_id(s.windows, id);
    assert forall|k: int| 0 <= k < ws.len() implies ws[k].color == s.color by {
        assert(ws.contains(ws[k]));
        assert(s.windows.contains(ws[k]));
        let m = choose|m: int| 0 <= m < s.windows.len() && s.windows[m] == ws[k];
        assert(s.windows[m].color == s.color);
    };
    if ws.len() > 0 {
        if s.phase is Graceful || s.phase is Terminal {
            lemma_remove_id_empty(s.windows, id);
        }
    }
}

/// Every transition of the controller keeps the state well-formed: the
/// temperature stays clamped to the 100-step grid, every surviving window
/// shows the derived color, and the shutdown phases keep their meaning.
pub proof fn lemma_step_preserves_wf(s: ControllerView, ev: Event)
    requires
        s.wf(),
    ensures
        step(s, ev).state.wf(),
{
    match ev {
        Event::CloseRequested { window } => {
            lemma_close_preserves_wf(s, window);
        },
        Event::ModifiersChanged { .. } => {},
        Event::Character { ch } => {
            if (ch == '+' || ch == '=') && s.temperature < MAX_TEMPERATURE {
                lemma_retune_preserves_wf(s, (s.temperature + TEMPERATURE_STEP) as u32);
            } else if ch == '-' && s.temperature > MIN_TEMPERATURE {
                lemma_retune_preserves_wf(s, (s.temperature - TEMPERATURE_STEP) as u32);
            }
        },
        Event::Key { window, key, pressed } => match key {
            Key::Escape => if !pressed {
                lemma_close_preserves_wf(s, window);
            },
            Key::W => if pressed && s.armed_w && s.command_held {
                let disarmed = ControllerView { armed_w: false, ..s };
                assert(disarmed.wf());
                lemma_close_preserves_wf(disarmed, window);
            },
            Key::Q => {},
            Key::F => if !pressed {
                let ws = toggled(s.windows, window);
                assert(forall|k: int| 0 <= k < ws.len() ==> ws[k].id == s.windows[k].id);
                assert(forall|k: int| 0 <= k < ws.len() ==> ws[k].color == s.windows[k].color);
            },
            Key::Other => {},
        },
        Event::IdleTick => {},
    }
}

/// Retuning to a temperature on the clamped grid preserves
/// well-formedness.
proof fn lemma_retune_preserves_wf(s: ControllerView, temperature: u32)
    requires
        s.wf(),
        MIN_TEMPERATURE <= temperature <= MAX_TEMPERATURE,
        temperature % TEMPERATURE_STEP == 0,
    ensures
        spec_retune(s, temperature).state.wf(),
{
    let ws = recolored(s.windows, spec_convert(temperature));
    assert(forall|k: int| 0 <= k < ws.len() ==> ws[k].id == s.windows[k].id);
}

} // verus!
