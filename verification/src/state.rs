use vstd::prelude::*;
use crate::brightness::Brightness;
use crate::event::{CommandView, Event, EventKind};
use crate::layout::NumpadLayout;
use crate::time::TimeVal;

verus! {

/// What the finger is doing on the surface.
#[derive(Debug, Clone, Copy, PartialEq, Eq, Structural)]
pub enum FingerState {
    /// No contact.
    Lifted,
    /// Contact, and no key found for it yet.
    Touching,
    /// Contact, and either a key is down for it or it may still turn into a
    /// long tap that switches modes.
    Tapping,
}

/// Everything that is remembered between two samples.
#[derive(Debug, Clone, Copy, PartialEq, Eq)]
pub struct TouchpadState {
    pub posx: i32,
    pub posy: i32,
    pub finger_state: FingerState,
    /// Whether the surface is a keypad at the moment.
    pub numlock: bool,
    /// The key that is down for the current contact.
    pub cur_key: Option<u16>,
    pub tap_started_at: TimeVal,
    /// Set once the current contact can no longer switch modes: it began or
    /// moved outside the switching region, or it has switched them already.
    pub tapped_outside_numlock_bbox: bool,
    /// The level at which the keypad is lit while it is on.
    pub brightness: Brightness,
}

impl TouchpadState {
    /// A key is down only during a tap; a contact that has a key, or is
    /// still waiting for one, cannot switch modes any more; the start of the
    /// tap is a well-formed time; the keypad is lit at some level above zero.
    pub open spec fn wf(self) -> bool {
        &&& self.cur_key.is_some() ==> self.finger_state == FingerState::Tapping
        &&& self.cur_key.is_some() ==> self.tapped_outside_numlock_bbox
        &&& self.finger_state == FingerState::Touching ==> self.tapped_outside_numlock_bbox
        &&& self.tap_started_at.wf()
        &&& self.brightness != Brightness::Zero
    }

    /// The state before the first sample: no contact, pointer mode, no key,
    /// half brightness.
    pub open spec fn spec_default() -> TouchpadState {
        TouchpadState {
            posx: 0,
            posy: 0,
            finger_state: FingerState::Lifted,
            numlock: false,
            cur_key: None,
            tap_started_at: TimeVal { tv_sec: 0, tv_usec: 0 },
            tapped_outside_numlock_bbox: false,
            brightness: Brightness::Half,
        }
    }

    /// Switches between pointer mode and keypad mode and returns whether the
    /// keypad is on afterwards. Nothing else changes.
    pub fn toggle_numlock(&mut self) -> (r: bool)
        ensures
            *final(self) == toggled(*old(self)),
            r == !old(self).numlock,
    {
        self.numlock = !self.numlock;
        self.numlock
    }
}

impl Default for TouchpadState {
    fn default() -> (r: TouchpadState)
        ensures
            r == TouchpadState::spec_default(),
            r.wf(),
    {
        TouchpadState {
            posx: 0,
            posy: 0,
            finger_state: FingerState::Lifted,
            numlock: false,
            cur_key: None,
            tap_started_at: TimeVal { tv_sec: 0, tv_usec: 0 },
            tapped_outside_numlock_bbox: false,
            brightness: Brightness::Half,
        }
    }
}

/// The state with the mode switched.
pub open spec fn toggled(s: TouchpadState) -> TouchpadState {
    TouchpadState { numlock: !s.numlock, ..s }
}

/// What switching the mode orders: on the way to keypad mode the configured
/// brightness and the grab, on the way back no light and the release.
pub open spec fn toggle_commands(s: TouchpadState) -> Seq<CommandView> {
    if s.numlock {
        seq![CommandView::SetBrightness(Brightness::Zero), CommandView::Ungrab]
    } else {
        seq![CommandView::SetBrightness(s.brightness), CommandView::Grab]
    }
}

/// The order that presses `key`.
pub open spec fn key_down(layout: &NumpadLayout, key: u16) -> CommandView {
    if layout.spec_needs_multikey(key) {
        CommandView::MultiKeyDown(layout.spec_multikeys(key))
    } else {
        CommandView::KeyDown(key)
    }
}

/// The order that releases `key`.
pub open spec fn key_up(layout: &NumpadLayout, key: u16) -> CommandView {
    if layout.spec_needs_multikey(key) {
        CommandView::MultiKeyUp(layout.spec_multikeys(key))
    } else {
        CommandView::KeyUp(key)
    }
}

/// Whether a tap that started at `start` has lasted for `hold` at `now`.
pub open spec fn hold_reached(now: TimeVal, start: TimeVal, hold: TimeVal) -> bool {
    now.micros() - start.micros() >= hold.micros()
}

/// Whether a tick at `now` looks at the tap at all: only a tap that may
/// still switch modes, and only in pointer mode.
pub open spec fn tick_applies(s: TouchpadState) -> bool {
    s.finger_state == FingerState::Tapping && !s.tapped_outside_numlock_bbox && !s.numlock
}

/// Whether a tick at `now` switches the mode.
pub open spec fn tick_toggles(
    s: TouchpadState,
    layout: &NumpadLayout,
    now: TimeVal,
    hold: TimeVal,
) -> bool {
    tick_applies(s) && layout.spec_in_numpad_bbox(s.posx, s.posy) && hold_reached(
        now,
        s.tap_started_at,
        hold,
    )
}

/// The state after a sample, before a key is looked for.
pub open spec fn after_event(
    s: TouchpadState,
    layout: &NumpadLayout,
    ev: Event,
    hold: TimeVal,
) -> TouchpadState {
    match ev.kind {
        EventKind::PositionX(x) => TouchpadState { posx: x, ..s },
        EventKind::PositionY(y) => TouchpadState { posy: y, ..s },
        EventKind::ContactEnd => TouchpadState {
            finger_state: FingerState::Lifted,
            cur_key: None,
            ..s
        },
        EventKind::ContactBegin => if s.finger_state == FingerState::Lifted {
            if layout.spec_in_numpad_bbox(s.posx, s.posy) {
                TouchpadState {
                    finger_state: FingerState::Tapping,
                    tap_started_at: ev.time,
                    tapped_outside_numlock_bbox: false,
                    ..s
                }
            } else {
                TouchpadState {
                    finger_state: FingerState::Touching,
                    tap_started_at: ev.time,
                    tapped_outside_numlock_bbox: true,
                    ..s
                }
            }
        } else {
            s
        },
        EventKind::Tick => if !tick_applies(s) {
            s
        } else if !layout.spec_in_numpad_bbox(s.posx, s.posy) {
            TouchpadState { tapped_outside_numlock_bbox: true, ..s }
        } else if hold_reached(ev.time, s.tap_started_at, hold) {
            TouchpadState { numlock: true, tapped_outside_numlock_bbox: true, ..s }
        } else {
            s
        },
        EventKind::Other => s,
    }
}

/// What a sample orders before a key is looked for.
pub open spec fn event_commands(
    s: TouchpadState,
    layout: &NumpadLayout,
    ev: Event,
    hold: TimeVal,
) -> Seq<CommandView> {
    match ev.kind {
        EventKind::ContactEnd => match s.cur_key {
            Some(key) => seq![key_up(layout, key)],
            None => seq![],
        },
        EventKind::Tick => if tick_toggles(s, layout, ev.time, hold) {
            toggle_commands(s)
        } else {
            seq![]
        },
        _ => seq![],
    }
}

/// Whether a key is looked for: in keypad mode, for a contact without one.
pub open spec fn resolves(s: TouchpadState, layout: &NumpadLayout) -> bool {
    s.numlock && s.finger_state == FingerState::Touching && layout.spec_get_key(
        s.posx,
        s.posy,
    ).is_some()
}

/// The state after a key was looked for.
pub open spec fn after_resolve(s: TouchpadState, layout: &NumpadLayout) -> TouchpadState {
    if resolves(s, layout) {
        TouchpadState {
            finger_state: FingerState::Tapping,
            cur_key: layout.spec_get_key(s.posx, s.posy),
            ..s
        }
    } else {
        s
    }
}

/// What looking for a key orders.
pub open spec fn resolve_commands(s: TouchpadState, layout: &NumpadLayout) -> Seq<CommandView> {
    if resolves(s, layout) {
        seq![key_down(layout, layout.spec_get_key(s.posx, s.posy).unwrap())]
    } else {
        seq![]
    }
}

/// The state after one sample. A sample of no known kind changes nothing;
/// after any other a key is looked for.
pub open spec fn step(
    s: TouchpadState,
    layout: &NumpadLayout,
    ev: Event,
    hold: TimeVal,
) -> TouchpadState {
    if ev.kind == EventKind::Other {
        s
    } else {
        after_resolve(after_event(s, layout, ev, hold), layout)
    }
}

/// What one sample orders, in order.
pub open spec fn step_commands(
    s: TouchpadState,
    layout: &NumpadLayout,
    ev: Event,
    hold: TimeVal,
) -> Seq<CommandView> {
    if ev.kind == EventKind::Other {
        seq![]
    } else {
        event_commands(s, layout, ev, hold) + resolve_commands(
            after_event(s, layout, ev, hold),
            layout,
        )
    }
}

/// The state after a run of samples.
pub open spec fn run(
    s: TouchpadState,
    layout: &NumpadLayout,
    evs: Seq<Event>,
    hold: TimeVal,
) -> TouchpadState
    decreases evs.len(),
{
    if evs.len() == 0 {
        s
    } else {
        step(run(s, layout, evs.drop_last(), hold), layout, evs.last(), hold)
    }
}

/// What a run of samples orders, in order.
pub open spec fn run_commands(
    s: TouchpadState,
    layout: &NumpadLayout,
    evs: Seq<Event>,
    hold: TimeVal,
) -> Seq<CommandView>
    decreases evs.len(),
{
    if evs.len() == 0 {
        seq![]
    } else {
        run_commands(s, layout, evs.drop_last(), hold) + step_commands(
            run(s, layout, evs.drop_last(), hold),
            layout,
            evs.last(),
            hold,
        )
    }
}

} // verus!
