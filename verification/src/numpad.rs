use vstd::prelude::*;
use crate::brightness::Brightness;
use crate::event::{views, Command, Event, EventKind};
use crate::layout::NumpadLayout;
use crate::state::{
    after_event, event_commands, hold_reached, key_down, key_up, resolve_commands, run,
    run_commands, step, step_commands, toggle_commands, toggled, FingerState, TouchpadState,
};
use crate::time::TimeVal;

verus! {

/// Microseconds that a tap must rest in the switching region to switch
/// modes, unless the caller says otherwise.
pub const HOLD_DURATION_USEC: i64 = 750_000;

/// The usual hold duration as a time value.
pub open spec fn spec_hold_duration() -> TimeVal {
    TimeVal { tv_sec: 0, tv_usec: HOLD_DURATION_USEC }
}

/// Returns the usual hold duration.
pub fn hold_duration() -> (r: TimeVal)
    ensures
        r == spec_hold_duration(),
        r.wf(),
{
    TimeVal { tv_sec: 0, tv_usec: HOLD_DURATION_USEC }
}

/// The interpreter of one touch surface: its layout, how long a switching tap
/// must last, and what is remembered between samples.
#[derive(Debug, Clone, PartialEq, Eq)]
pub struct Numpad {
    pub layout: NumpadLayout,
    pub hold_duration: TimeVal,
    pub state: TouchpadState,
}

/// Tells whether a tap that started at `start` has lasted for `hold` at
/// `now`. A `now` before `start` has not.
pub fn held_for(now: &TimeVal, start: &TimeVal, hold: &TimeVal) -> (r: bool)
    requires
        now.wf(),
        start.wf(),
        hold.wf(),
    ensures
        r == hold_reached(*now, *start, *hold),
{
    now.ge(start) && now.elapsed_since(*start).ge(hold)
}

/// Whether every sample was taken at a well-formed time.
pub open spec fn well_timed(evs: Seq<Event>) -> bool {
    forall|i: int| 0 <= i < evs.len() ==> (#[trigger] evs[i]).time.wf()
}

impl Numpad {
    /// Layout, hold duration and state are each well formed.
    pub open spec fn wf(&self) -> bool {
        &&& self.layout.wf()
        &&& self.hold_duration.wf()
        &&& self.state.wf()
    }

    /// An interpreter in its first state, with the usual hold duration and
    /// half brightness.
    pub fn new(layout: NumpadLayout) -> (r: Numpad)
        requires
            layout.wf(),
        ensures
            r.wf(),
            r.layout == layout,
            r.hold_duration == spec_hold_duration(),
            r.state == TouchpadState::spec_default(),
    {
        Numpad { layout, hold_duration: hold_duration(), state: TouchpadState::default() }
    }

    /// An interpreter in its first state with a hold duration and a
    /// brightness of the caller's choice; none if the duration is not well
    /// formed or the brightness is zero.
    pub fn with_settings(
        layout: NumpadLayout,
        hold_duration: TimeVal,
        brightness: Brightness,
    ) -> (r: Option<Numpad>)
        requires
            layout.wf(),
        ensures
            r.is_some() <==> hold_duration.wf() && brightness != Brightness::Zero,
            r.is_some() ==> r.unwrap().wf() && r.unwrap().layout == layout
                && r.unwrap().hold_duration == hold_duration
                && r.unwrap().state == (TouchpadState {
                brightness,
                ..TouchpadState::spec_default()
            }),
    {
        if !hold_duration.is_valid() {
            return None;
        }
        match brightness {
            Brightness::Zero => None,
            _ => {
                let mut state = TouchpadState::default();
                state.brightness = brightness;
                Some(Numpad { layout, hold_duration, state })
            },
        }
    }

    /// Switches between pointer mode and keypad mode. On the way to keypad
    /// mode it orders the configured brightness and the grab of the surface;
    /// on the way back, no light and its release.
    pub fn toggle_numlock(&mut self) -> (out: Vec<Command>)
        ensures
            final(self).state == toggled(old(self).state),
            final(self).layout == old(self).layout,
            final(self).hold_duration == old(self).hold_duration,
            views(out@) == toggle_commands(old(self).state),
    {
        let mut out: Vec<Command> = Vec::new();
        if self.state.toggle_numlock() {
            out.push(Command::SetBrightness(self.state.brightness));
            out.push(Command::Grab);
        } else {
            out.push(Command::SetBrightness(Brightness::Zero));
            out.push(Command::Ungrab);
        }
        proof {
            assert(views(out@) =~= toggle_commands(old(self).state));
        }
        out
    }

    /// The order that presses `key`: all of its codes together for a
    /// composite key, the key alone otherwise.
    pub fn key_down_command(&self, key: u16) -> (c: Command)
        ensures
            c@ == key_down(&self.layout, key),
    {
        if self.layout.needs_multikey(key) {
            Command::MultiKeyDown(self.layout.multikeys(key))
        } else {
            Command::KeyDown(key)
        }
    }

    /// The order that releases `key`: all of its codes together for a
    /// composite key, the key alone otherwise.
    pub fn key_up_command(&self, key: u16) -> (c: Command)
        ensures
            c@ == key_up(&self.layout, key),
    {
        if self.layout.needs_multikey(key) {
            Command::MultiKeyUp(self.layout.multikeys(key))
        } else {
            Command::KeyUp(key)
        }
    }

    /// Takes one sample, moves to the next state and returns what is to be
    /// done, in order.
    ///
    /// A position sample moves the point. The start of a contact on a lifted
    /// finger begins a tap, which may switch modes only if it begins in the
    /// switching region. The end of a contact releases the key that is down.
    /// A tick is looked at in pointer mode only: it switches to keypad mode
    /// once such a tap has rested in the region for the hold duration, and
    /// gives the tap up when the point has left the region. While the keypad
    /// is on, no tap switches it off; `toggle_numlock` does. After each of
    /// these samples, in keypad mode, the key under a contact that has none
    /// yet is pressed. Any other sample changes nothing.
    pub fn process(&mut self, ev: Event) -> (out: Vec<Command>)
        requires
            old(self).wf(),
            ev.time.wf(),
        ensures
            final(self).wf(),
            final(self).layout == old(self).layout,
            final(self).hold_duration == old(self).hold_duration,
            final(self).state == step(
                old(self).state,
                &old(self).layout,
                ev,
                old(self).hold_duration,
            ),
            views(out@) == step_commands(
                old(self).state,
                &old(self).layout,
                ev,
                old(self).hold_duration,
            ),
    {
        let mut out: Vec<Command> = Vec::new();
        match ev.kind {
            EventKind::Other => {
                proof {
                    assert(views(out@) =~= seq![]);
                }
                return out;
            },
            EventKind::PositionX(x) => {
                self.state.posx = x;
            },
            EventKind::PositionY(y) => {
                self.state.posy = y;
            },
            EventKind::ContactEnd => {
                self.state.finger_state = FingerState::Lifted;
                if let Some(key) = self.state.cur_key {
                    let up = self.key_up_command(key);
                    out.push(up);
                    self.state.cur_key = None;
                }
            },
            EventKind::ContactBegin => {
                if self.state.finger_state == FingerState::Lifted {
                    self.state.tap_started_at = ev.time;
                    if self.layout.in_numpad_bbox(self.state.posx, self.state.posy) {
                        self.state.finger_state = FingerState::Tapping;
                        self.state.tapped_outside_numlock_bbox = false;
                    } else {
                        self.state.finger_state = FingerState::Touching;
                        self.state.tapped_outside_numlock_bbox = true;
                    }
                }
            },
            EventKind::Tick => {
                if self.state.finger_state == FingerState::Tapping
                    && !self.state.tapped_outside_numlock_bbox && !self.state.numlock {
                    if self.layout.in_numpad_bbox(self.state.posx, self.state.posy) {
                        if held_for(&ev.time, &self.state.tap_started_at, &self.hold_duration) {
                            out = self.toggle_numlock();
                            self.state.tapped_outside_numlock_bbox = true;
                        }
                    } else {
                        self.state.tapped_outside_numlock_bbox = true;
                    }
                }
            },
        }
        proof {
            assert(views(out@) =~= event_commands(
                old(self).state,
                &old(self).layout,
                ev,
                old(self).hold_duration,
            ));
            assert(self.state == after_event(
                old(self).state,
                &old(self).layout,
                ev,
                old(self).hold_duration,
            ));
        }
        let ghost before = out@;
        if self.state.numlock && self.state.finger_state == FingerState::Touching {
            if let Some(key) = self.layout.get_key(self.state.posx, self.state.posy) {
                let down = self.key_down_command(key);
                out.push(down);
                self.state.finger_state = FingerState::Tapping;
                self.state.cur_key = Some(key);
            }
        }
        proof {
            assert(views(out@) =~= views(before) + resolve_commands(
                after_event(
                    old(self).state,
                    &old(self).layout,
                    ev,
                    old(self).hold_duration,
                ),
                &old(self).layout,
            ));
        }
        out
    }

    /// Takes the samples one after another, in their order, and returns
    /// everything that is to be done, in order.
    pub fn run(&mut self, evs: &Vec<Event>) -> (out: Vec<Command>)
        requires
            old(self).wf(),
            well_timed(evs@),
        ensures
            final(self).wf(),
            final(self).layout == old(self).layout,
            final(self).hold_duration == old(self).hold_duration,
            final(self).state == run(
                old(self).state,
                &old(self).layout,
                evs@,
                old(self).hold_duration,
            ),
            views(out@) == run_commands(
                old(self).state,
                &old(self).layout,
                evs@,
                old(self).hold_duration,
            ),
    {
        let mut out: Vec<Command> = Vec::new();
        let mut i: usize = 0;
        proof {
            assert(views(out@) =~= Seq::empty());
        }
        while i < evs.len()
            invariant
                i <= evs@.len(),
                well_timed(evs@),
                self.wf(),
                self.layout == old(self).layout,
                self.hold_duration == old(self).hold_duration,
                self.state == run(
                    old(self).state,
                    &old(self).layout,
                    evs@.subrange(0, i as int),
                    old(self).hold_duration,
                ),
                views(out@) == run_commands(
                    old(self).state,
                    &old(self).layout,
                    evs@.subrange(0, i as int),
                    old(self).hold_duration,
                ),
            decreases evs@.len() - i,
        {
            let ghost done = out@;
            let mut cmds = self.process(evs[i]);
            let ghost more = cmds@;
            out.append(&mut cmds);
            proof {
                let upto = evs@.subrange(0, i + 1);
                assert(upto.drop_last() =~= evs@.subrange(0, i as int));
                assert(upto.last() == evs@[i as int]);
                assert(views(out@) =~= views(done) + views(more));
            }
            i += 1;
        }
        proof {
            assert(evs@.subrange(0, i as int) =~= evs@);
        }
        out
    }
}

} // verus!
