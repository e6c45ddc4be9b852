use vstd::prelude::*;
use crate::brightness::Brightness;
use crate::event::{
    after_command, held_after, lemma_held_after_concat, lemma_held_after_one, CommandView, Event,
    EventKind,
};
use crate::layout::{lemma_multikeys_len, NumpadLayout};
use crate::numpad::well_timed;
use crate::state::{
    after_event, event_commands, key_down, key_up, resolve_commands, run, run_commands, step,
    step_commands, tick_toggles, toggle_commands, toggled, FingerState, TouchpadState,
};
use crate::time::TimeVal;

verus! {

/// A sample taken at a well-formed time leads from a well-formed state to a
/// well-formed state.
pub proof fn lemma_step_preserves_wf(
    s: TouchpadState,
    layout: &NumpadLayout,
    ev: Event,
    hold: TimeVal,
)
    requires
        s.wf(),
        ev.time.wf(),
    ensures
        step(s, layout, ev, hold).wf(),
{
}

/// No sample changes the configured brightness, and the mode changes only
/// where a tick switches it: then, and only then, the orders of the switch
/// are given. A contact that can no longer switch modes never does.
pub proof fn lemma_mode_changes_only_by_toggle(
    s: TouchpadState,
    layout: &NumpadLayout,
    ev: Event,
    hold: TimeVal,
)
    ensures
        step(s, layout, ev, hold).brightness == s.brightness,
        step(s, layout, ev, hold).numlock != s.numlock <==> ev.kind == EventKind::Tick
            && tick_toggles(s, layout, ev.time, hold),
        ev.kind == EventKind::Tick && tick_toggles(s, layout, ev.time, hold) ==> step_commands(
            s,
            layout,
            ev,
            hold,
        ) == toggle_commands(s) && step(s, layout, ev, hold) == (TouchpadState {
            tapped_outside_numlock_bbox: true,
            ..toggled(s)
        }),
        s.tapped_outside_numlock_bbox ==> step(s, layout, ev, hold).numlock == s.numlock,
{
    if ev.kind == EventKind::Tick && tick_toggles(s, layout, ev.time, hold) {
        assert(step_commands(s, layout, ev, hold) =~= toggle_commands(s));
    }
}

/// Only the start of a contact on a lifted finger lets a contact switch
/// modes again.
pub proof fn lemma_suppression_ends_only_at_contact_begin(
    s: TouchpadState,
    layout: &NumpadLayout,
    ev: Event,
    hold: TimeVal,
)
    requires
        s.tapped_outside_numlock_bbox,
        !step(s, layout, ev, hold).tapped_outside_numlock_bbox,
    ensures
        ev.kind == EventKind::ContactBegin,
        s.finger_state == FingerState::Lifted,
{
}

/// While a key is down, the end of the contact releases it, once, and no
/// other sample orders anything or changes the key.
pub proof fn lemma_key_released_once(
    s: TouchpadState,
    layout: &NumpadLayout,
    ev: Event,
    hold: TimeVal,
    key: u16,
)
    requires
        s.wf(),
        s.cur_key == Some(key),
    ensures
        ev.kind == EventKind::ContactEnd ==> step_commands(s, layout, ev, hold) == seq![
            key_up(layout, key),
        ] && step(s, layout, ev, hold).cur_key.is_none(),
        ev.kind != EventKind::ContactEnd ==> step_commands(s, layout, ev, hold) == Seq::<
            CommandView,
        >::empty() && step(s, layout, ev, hold).cur_key == Some(key),
{
    if ev.kind == EventKind::ContactEnd {
        assert(step_commands(s, layout, ev, hold) =~= seq![key_up(layout, key)]);
    } else {
        assert(step_commands(s, layout, ev, hold) =~= Seq::<CommandView>::empty());
    }
}

/// While no key is down, a sample orders a key press exactly when it leaves
/// a key down, and then the press of that key is the last thing it orders;
/// it never orders a release.
pub proof fn lemma_key_pressed_once(
    s: TouchpadState,
    layout: &NumpadLayout,
    ev: Event,
    hold: TimeVal,
)
    requires
        s.wf(),
        s.cur_key.is_none(),
    ensures
        forall|i: int|
            0 <= i < step_commands(s, layout, ev, hold).len() ==> !is_release(
                #[trigger] step_commands(s, layout, ev, hold)[i],
            ),
        step(s, layout, ev, hold).cur_key matches Some(key) ==> step_commands(
            s,
            layout,
            ev,
            hold,
        ).len() > 0 && step_commands(s, layout, ev, hold).last() == key_down(layout, key),
        step(s, layout, ev, hold).cur_key.is_none() ==> forall|i: int|
            0 <= i < step_commands(s, layout, ev, hold).len() ==> !is_press(
                #[trigger] step_commands(s, layout, ev, hold)[i],
            ),
{
}

/// Whether the finger stays on the surface throughout: no sample ends the
/// contact.
pub open spec fn contact_lasts(evs: Seq<Event>) -> bool {
    forall|i: int| 0 <= i < evs.len() ==> (#[trigger] evs[i]).kind != EventKind::ContactEnd
}

/// A contact that can no longer switch modes, because it began or was seen
/// outside the switching region or has switched them already, does not
/// switch them for as long as it lasts, whatever is sampled: the finger stays
/// down, the contact stays barred from switching and the mode stays as it is.
pub proof fn lemma_contact_switches_at_most_once(
    s: TouchpadState,
    layout: &NumpadLayout,
    evs: Seq<Event>,
    hold: TimeVal,
)
    requires
        s.finger_state != FingerState::Lifted,
        s.tapped_outside_numlock_bbox,
        contact_lasts(evs),
    ensures
        run(s, layout, evs, hold).numlock == s.numlock,
        run(s, layout, evs, hold).tapped_outside_numlock_bbox,
        run(s, layout, evs, hold).finger_state != FingerState::Lifted,
        forall|i: int|
            0 <= i < run_commands(s, layout, evs, hold).len() ==> !is_switch(
                #[trigger] run_commands(s, layout, evs, hold)[i],
            ),
    decreases evs.len(),
{
    if evs.len() > 0 {
        let before = evs.drop_last();
        assert forall|i: int| 0 <= i < before.len() implies (#[trigger] before[i]).kind
            != EventKind::ContactEnd by {
            assert(before[i] == evs[i]);
        }
        lemma_contact_switches_at_most_once(s, layout, before, hold);
        assert(evs[evs.len() - 1].kind != EventKind::ContactEnd);
        let mid = run(s, layout, before, hold);
        let earlier = run_commands(s, layout, before, hold);
        let last = step_commands(mid, layout, evs.last(), hold);
        assert(event_commands(mid, layout, evs.last(), hold) =~= Seq::<CommandView>::empty());
        assert forall|i: int| 0 <= i < last.len() implies !is_switch(#[trigger] last[i]) by {}
        assert forall|i: int| 0 <= i < (earlier + last).len() implies !is_switch(
            #[trigger] (earlier + last)[i],
        ) by {
            if i < earlier.len() {
                assert((earlier + last)[i] == earlier[i]);
            } else {
                assert((earlier + last)[i] == last[i - earlier.len()]);
            }
        }
    } else {
        assert(run_commands(s, layout, evs, hold) =~= Seq::<CommandView>::empty());
    }
}

/// Whether the command belongs to a switch of modes.
pub open spec fn is_switch(c: CommandView) -> bool {
    c is SetBrightness || c is Grab || c is Ungrab
}

/// Whether the command presses keys.
pub open spec fn is_press(c: CommandView) -> bool {
    c is KeyDown || c is MultiKeyDown
}

/// Whether the command releases keys.
pub open spec fn is_release(c: CommandView) -> bool {
    c is KeyUp || c is MultiKeyUp
}

/// Whether the sample repeats the position that the state already has.
pub open spec fn repeats_position(ev: Event, s: TouchpadState) -> bool {
    ev.kind == EventKind::PositionX(s.posx) || ev.kind == EventKind::PositionY(s.posy)
}

/// The state in which `key` is down for a contact that began at `at`.
pub open spec fn pressed(s: TouchpadState, key: u16, at: TimeVal) -> TouchpadState {
    TouchpadState {
        finger_state: FingerState::Tapping,
        cur_key: Some(key),
        tap_started_at: at,
        tapped_outside_numlock_bbox: true,
        ..s
    }
}

/// In keypad mode, a contact that begins over a key outside the switching
/// region and is followed by any number of position samples that repeat the
/// position has ordered one press of that key and nothing else.
pub proof fn lemma_tap_holds_key(
    s: TouchpadState,
    layout: &NumpadLayout,
    evs: Seq<Event>,
    hold: TimeVal,
    key: u16,
)
    requires
        s.numlock,
        s.finger_state == FingerState::Lifted,
        s.cur_key.is_none(),
        !layout.spec_in_numpad_bbox(s.posx, s.posy),
        layout.spec_get_key(s.posx, s.posy) == Some(key),
        evs.len() >= 1,
        evs[0].kind == EventKind::ContactBegin,
        forall|i: int| 1 <= i < evs.len() ==> repeats_position(#[trigger] evs[i], s),
    ensures
        run(s, layout, evs, hold) == pressed(s, key, evs[0].time),
        run_commands(s, layout, evs, hold) == seq![key_down(layout, key)],
    decreases evs.len(),
{
    let before = evs.drop_last();
    if evs.len() == 1 {
        assert(run(s, layout, before, hold) == s);
        assert(run_commands(s, layout, before, hold) =~= Seq::<CommandView>::empty());
        assert(step_commands(s, layout, evs.last(), hold) =~= seq![key_down(layout, key)]);
        assert(run_commands(s, layout, evs, hold) =~= seq![key_down(layout, key)]);
    } else {
        assert(before[0] == evs[0]);
        assert forall|i: int| 1 <= i < before.len() implies repeats_position(
            #[trigger] before[i],
            s,
        ) by {
            assert(before[i] == evs[i]);
        }
        lemma_tap_holds_key(s, layout, before, hold, key);
        let mid = pressed(s, key, evs[0].time);
        assert(repeats_position(evs[evs.len() - 1], s));
        assert(step(mid, layout, evs.last(), hold) == mid);
        assert(step_commands(mid, layout, evs.last(), hold) =~= Seq::<CommandView>::empty());
        assert(run_commands(s, layout, evs, hold) =~= seq![key_down(layout, key)]);
    }
}

/// In keypad mode, a contact that begins over a key outside the switching
/// region, is followed by any number of position samples that repeat the
/// position, and then ends, has ordered one press of that key and one
/// release of it, in this order, and nothing else. No key is down
/// afterwards and the mode has not changed.
pub proof fn lemma_tap_presses_and_releases_once(
    s: TouchpadState,
    layout: &NumpadLayout,
    evs: Seq<Event>,
    hold: TimeVal,
    key: u16,
)
    requires
        s.numlock,
        s.finger_state == FingerState::Lifted,
        s.cur_key.is_none(),
        !layout.spec_in_numpad_bbox(s.posx, s.posy),
        layout.spec_get_key(s.posx, s.posy) == Some(key),
        evs.len() >= 2,
        evs[0].kind == EventKind::ContactBegin,
        evs.last().kind == EventKind::ContactEnd,
        forall|i: int| 1 <= i < evs.len() - 1 ==> repeats_position(#[trigger] evs[i], s),
    ensures
        run_commands(s, layout, evs, hold) == seq![key_down(layout, key), key_up(layout, key)],
        run(s, layout, evs, hold) == (TouchpadState {
            tap_started_at: evs[0].time,
            tapped_outside_numlock_bbox: true,
            ..s
        }),
{
    let before = evs.drop_last();
    assert(before[0] == evs[0]);
    assert forall|i: int| 1 <= i < before.len() implies repeats_position(
        #[trigger] before[i],
        s,
    ) by {
        assert(before[i] == evs[i]);
    }
    lemma_tap_holds_key(s, layout, before, hold, key);
    let mid = pressed(s, key, evs[0].time);
    assert(step_commands(mid, layout, evs.last(), hold) =~= seq![key_up(layout, key)]);
    assert(run_commands(s, layout, evs, hold) =~= seq![
        key_down(layout, key),
        key_up(layout, key),
    ]);
}

/// The press of a composite key names all of its codes, two or more, in the
/// layout's order, and its release names the same codes; a simple key is
/// pressed and released by itself.
pub proof fn lemma_composite_orders(layout: &NumpadLayout, key: u16)
    requires
        layout.wf(),
    ensures
        layout.spec_needs_multikey(key) ==> key_down(layout, key) == CommandView::MultiKeyDown(
            layout.spec_multikeys(key),
        ) && key_up(layout, key) == CommandView::MultiKeyUp(layout.spec_multikeys(key))
            && layout.spec_multikeys(key).len() >= 2,
        !layout.spec_needs_multikey(key) ==> key_down(layout, key) == CommandView::KeyDown(key)
            && key_up(layout, key) == CommandView::KeyUp(key),
{
    lemma_multikeys_len(layout, key);
}

/// The codes that are down while `cur_key` is the key of the contact.
pub open spec fn codes_down(layout: &NumpadLayout, cur_key: Option<u16>) -> Set<u16> {
    match cur_key {
        Some(key) => layout.spec_multikeys(key).to_set(),
        None => Set::empty(),
    }
}

/// The press of a key on top of nothing leaves exactly its codes down; its
/// release after that leaves nothing down.
pub proof fn lemma_press_release_leaves_nothing_held(layout: &NumpadLayout, key: u16)
    ensures
        held_after(seq![key_down(layout, key)], Set::empty()) == codes_down(layout, Some(key)),
        held_after(seq![key_down(layout, key), key_up(layout, key)], Set::empty())
            == Set::<u16>::empty(),
        after_command(key_up(layout, key), codes_down(layout, Some(key))) == Set::<u16>::empty(),
{
    let none = Set::<u16>::empty();
    let codes = layout.spec_multikeys(key);
    let down = key_down(layout, key);
    let up = key_up(layout, key);
    lemma_held_after_one(down, none);
    if !layout.spec_needs_multikey(key) {
        assert(codes[0] == key);
        assert(codes.to_set() =~= none.insert(key)) by {
            assert forall|c: u16| codes.to_set().contains(c) <==> c == key by {
                if c == key {
                    assert(codes.contains(codes[0]));
                }
            }
        }
    }
    assert(after_command(down, none) =~= codes.to_set());
    assert(after_command(up, codes.to_set()) =~= none);
    assert(seq![down, up] =~= seq![down] + seq![up]);
    lemma_held_after_concat(seq![down], seq![up], none);
    lemma_held_after_one(up, codes.to_set());
}

/// Across one sample, the codes that the orders leave down are those of the
/// key that the state says is down: a press puts all of a key's codes down,
/// a release takes all of them up, and nothing else touches them.
pub proof fn lemma_step_keeps_held_codes(
    s: TouchpadState,
    layout: &NumpadLayout,
    ev: Event,
    hold: TimeVal,
)
    requires
        s.wf(),
    ensures
        held_after(step_commands(s, layout, ev, hold), codes_down(layout, s.cur_key))
            == codes_down(layout, step(s, layout, ev, hold).cur_key),
{
    let none = Set::<u16>::empty();
    let cmds = step_commands(s, layout, ev, hold);
    match s.cur_key {
        Some(key) => {
            lemma_key_released_once(s, layout, ev, hold, key);
            lemma_press_release_leaves_nothing_held(layout, key);
            if ev.kind == EventKind::ContactEnd {
                lemma_held_after_one(key_up(layout, key), codes_down(layout, s.cur_key));
            }
        },
        None => {
            if ev.kind != EventKind::Other {
                let first = event_commands(s, layout, ev, hold);
                let mid = after_event(s, layout, ev, hold);
                let second = resolve_commands(mid, layout);
                lemma_held_after_concat(first, second, none);
                assert(held_after(first, none) == none) by {
                    if first.len() > 0 {
                        let a = first[0];
                        let b = first[1];
                        assert(first =~= seq![a] + seq![b]);
                        lemma_held_after_concat(seq![a], seq![b], none);
                        lemma_held_after_one(a, none);
                        lemma_held_after_one(b, none);
                    }
                }
                if second.len() > 0 {
                    let key = layout.spec_get_key(mid.posx, mid.posy).unwrap();
                    assert(second =~= seq![key_down(layout, key)]);
                    lemma_press_release_leaves_nothing_held(layout, key);
                }
            }
        },
    }
}

/// A run of samples taken at well-formed times leads from a well-formed
/// state to a well-formed state.
pub proof fn lemma_run_preserves_wf(
    s: TouchpadState,
    layout: &NumpadLayout,
    evs: Seq<Event>,
    hold: TimeVal,
)
    requires
        s.wf(),
        well_timed(evs),
    ensures
        run(s, layout, evs, hold).wf(),
    decreases evs.len(),
{
    if evs.len() > 0 {
        let before = evs.drop_last();
        assert forall|i: int| 0 <= i < before.len() implies (#[trigger] before[i]).time.wf() by {
            assert(before[i] == evs[i]);
        }
        lemma_run_preserves_wf(s, layout, before, hold);
        assert(evs[evs.len() - 1].time.wf());
        lemma_step_preserves_wf(run(s, layout, before, hold), layout, evs.last(), hold);
    }
}

/// After any run of samples, the codes that its orders have left down are
/// exactly those of the key that is down in the state: every press has been
/// matched by the release of all of its codes, except that of the key which
/// is still down.
pub proof fn lemma_run_keeps_held_codes(
    s: TouchpadState,
    layout: &NumpadLayout,
    evs: Seq<Event>,
    hold: TimeVal,
)
    requires
        s.wf(),
        well_timed(evs),
    ensures
        held_after(run_commands(s, layout, evs, hold), codes_down(layout, s.cur_key))
            == codes_down(layout, run(s, layout, evs, hold).cur_key),
    decreases evs.len(),
{
    if evs.len() > 0 {
        let before = evs.drop_last();
        assert forall|i: int| 0 <= i < before.len() implies (#[trigger] before[i]).time.wf() by {
            assert(before[i] == evs[i]);
        }
        lemma_run_keeps_held_codes(s, layout, before, hold);
        lemma_run_preserves_wf(s, layout, before, hold);
        let mid = run(s, layout, before, hold);
        lemma_step_keeps_held_codes(mid, layout, evs.last(), hold);
        lemma_held_after_concat(
            run_commands(s, layout, before, hold),
            step_commands(mid, layout, evs.last(), hold),
            codes_down(layout, s.cur_key),
        );
    }
}

/// Switching the mode twice gives the state back. On the way out of keypad
/// mode the light is set to zero and the surface released; on the way back
/// in, the light is set to the configured level, which is above zero, and
/// the surface grabbed.
pub proof fn lemma_toggle_round_trip(s: TouchpadState)
    requires
        s.wf(),
    ensures
        toggled(toggled(s)) == s,
        toggled(s).wf(),
        toggled(s).numlock == !s.numlock,
        toggled(s).brightness == s.brightness,
        s.numlock ==> toggle_commands(s) == seq![
            CommandView::SetBrightness(Brightness::Zero),
            CommandView::Ungrab,
        ] && toggle_commands(toggled(s)) == seq![
            CommandView::SetBrightness(s.brightness),
            CommandView::Grab,
        ],
        !s.numlock ==> toggle_commands(s) == seq![
            CommandView::SetBrightness(s.brightness),
            CommandView::Grab,
        ] && toggle_commands(toggled(s)) == seq![
            CommandView::SetBrightness(Brightness::Zero),
            CommandView::Ungrab,
        ],
        s.brightness != Brightness::Zero,
{
}

} // verus!
