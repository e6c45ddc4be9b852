use vstd::prelude::*;
use crate::brightness::Brightness;
use crate::time::TimeVal;

verus! {

/// Event type of key and button events.
pub const EV_KEY: u32 = 1;

/// Event type of absolute axis events.
pub const EV_ABS: u32 = 3;

/// Event type of miscellaneous events.
pub const EV_MSC: u32 = 4;

/// Axis code of the horizontal position of a contact.
pub const ABS_MT_POSITION_X: u32 = 53;

/// Axis code of the vertical position of a contact.
pub const ABS_MT_POSITION_Y: u32 = 54;

/// Button code that reports a finger on the surface.
pub const BTN_TOOL_FINGER: u32 = 325;

/// Miscellaneous code of the device's own timestamp.
pub const MSC_TIMESTAMP: u32 = 5;

/// What a sample of the touch surface says.
#[derive(Debug, Clone, Copy, PartialEq, Eq, Structural)]
pub enum EventKind {
    /// The contact's horizontal position.
    PositionX(i32),
    /// The contact's vertical position.
    PositionY(i32),
    /// A finger came down on the surface.
    ContactBegin,
    /// The finger left the surface.
    ContactEnd,
    /// Time has passed; nothing else is reported.
    Tick,
    /// Anything else. It is ignored.
    Other,
}

/// The kind of the sample with the given event type, code and value.
pub open spec fn spec_from_raw(ev_type: u32, code: u32, value: i32) -> EventKind {
    if ev_type == EV_ABS && code == ABS_MT_POSITION_X {
        EventKind::PositionX(value)
    } else if ev_type == EV_ABS && code == ABS_MT_POSITION_Y {
        EventKind::PositionY(value)
    } else if ev_type == EV_KEY && code == BTN_TOOL_FINGER && value == 0 {
        EventKind::ContactEnd
    } else if ev_type == EV_KEY && code == BTN_TOOL_FINGER && value == 1 {
        EventKind::ContactBegin
    } else if ev_type == EV_MSC && code == MSC_TIMESTAMP {
        EventKind::Tick
    } else {
        EventKind::Other
    }
}

impl EventKind {
    /// Classifies a raw sample by its event type, code and value.
    pub fn from_raw(ev_type: u32, code: u32, value: i32) -> (r: EventKind)
        ensures
            r == spec_from_raw(ev_type, code, value),
    {
        if ev_type == EV_ABS && code == ABS_MT_POSITION_X {
            EventKind::PositionX(value)
        } else if ev_type == EV_ABS && code == ABS_MT_POSITION_Y {
            EventKind::PositionY(value)
        } else if ev_type == EV_KEY && code == BTN_TOOL_FINGER {
            if value == 0 {
                EventKind::ContactEnd
            } else if value == 1 {
                EventKind::ContactBegin
            } else {
                EventKind::Other
            }
        } else if ev_type == EV_MSC && code == MSC_TIMESTAMP {
            EventKind::Tick
        } else {
            EventKind::Other
        }
    }
}

/// One sample of the touch surface with the time it was taken at.
#[derive(Debug, Clone, Copy, PartialEq, Eq, Structural)]
pub struct Event {
    pub time: TimeVal,
    pub kind: EventKind,
}

/// An order to one of the devices around the touch surface.
#[derive(Debug, Clone, PartialEq, Eq)]
pub enum Command {
    /// Press one key.
    KeyDown(u16),
    /// Release one key.
    KeyUp(u16),
    /// Press these keys together, in this order.
    MultiKeyDown(Vec<u16>),
    /// Release these keys together.
    MultiKeyUp(Vec<u16>),
    /// Light the keypad at this level.
    SetBrightness(Brightness),
    /// Take the touch surface away from the pointer.
    Grab,
    /// Give the touch surface back to the pointer.
    Ungrab,
}

/// A command as contracts speak of it.
pub enum CommandView {
    KeyDown(u16),
    KeyUp(u16),
    MultiKeyDown(Seq<u16>),
    MultiKeyUp(Seq<u16>),
    SetBrightness(Brightness),
    Grab,
    Ungrab,
}

impl View for Command {
    type V = CommandView;

    open spec fn view(&self) -> CommandView {
        match *self {
            Command::KeyDown(k) => CommandView::KeyDown(k),
            Command::KeyUp(k) => CommandView::KeyUp(k),
            Command::MultiKeyDown(ks) => CommandView::MultiKeyDown(ks@),
            Command::MultiKeyUp(ks) => CommandView::MultiKeyUp(ks@),
            Command::SetBrightness(b) => CommandView::SetBrightness(b),
            Command::Grab => CommandView::Grab,
            Command::Ungrab => CommandView::Ungrab,
        }
    }
}

/// The commands of a list as contracts speak of them.
pub open spec fn views(cmds: Seq<Command>) -> Seq<CommandView> {
    Seq::new(cmds.len(), |i: int| cmds[i]@)
}

/// The keys that are down once `c` has been carried out, when `held` were
/// down before.
pub open spec fn after_command(c: CommandView, held: Set<u16>) -> Set<u16> {
    match c {
        CommandView::KeyDown(k) => held.insert(k),
        CommandView::KeyUp(k) => held.remove(k),
        CommandView::MultiKeyDown(ks) => held.union(ks.to_set()),
        CommandView::MultiKeyUp(ks) => held.difference(ks.to_set()),
        _ => held,
    }
}

/// The keys that are down once `cmds` have been carried out, one after
/// another, when `held` were down before.
pub open spec fn held_after(cmds: Seq<CommandView>, held: Set<u16>) -> Set<u16>
    decreases cmds.len(),
{
    if cmds.len() == 0 {
        held
    } else {
        after_command(cmds.last(), held_after(cmds.drop_last(), held))
    }
}

/// Carrying out one list of commands and then another is carrying out the
/// two as one list.
pub proof fn lemma_held_after_concat(a: Seq<CommandView>, b: Seq<CommandView>, held: Set<u16>)
    ensures
        held_after(a + b, held) == held_after(b, held_after(a, held)),
    decreases b.len(),
{
    if b.len() == 0 {
        assert(a + b =~= a);
    } else {
        assert((a + b).drop_last() =~= a + b.drop_last());
        assert((a + b).last() == b.last());
        lemma_held_after_concat(a, b.drop_last(), held);
    }
}

/// One command alone does what `after_command` says.
pub proof fn lemma_held_after_one(c: CommandView, held: Set<u16>)
    ensures
        held_after(seq![c], held) == after_command(c, held),
{
    let one = seq![c];
    assert(one.drop_last() =~= Seq::<CommandView>::empty());
    assert(one.last() == c);
    assert(held_after(one.drop_last(), held) == held);
}

} // verus!
