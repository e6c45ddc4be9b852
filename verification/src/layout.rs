use vstd::prelude::*;

verus! {

/// An axis-aligned rectangle of the touch surface, in the surface's own
/// coordinates. Its edges belong to it.
#[derive(Debug, Clone, Copy, PartialEq, Eq, Structural)]
pub struct Rect {
    pub min_x: i32,
    pub max_x: i32,
    pub min_y: i32,
    pub max_y: i32,
}

impl Rect {
    /// Whether the point lies in the rectangle.
    pub open spec fn spec_contains(self, x: i32, y: i32) -> bool {
        self.min_x <= x <= self.max_x && self.min_y <= y <= self.max_y
    }

    /// Tells whether the point lies in the rectangle.
    pub fn contains(&self, x: i32, y: i32) -> (r: bool)
        ensures
            r == self.spec_contains(x, y),
    {
        self.min_x <= x && x <= self.max_x && self.min_y <= y && y <= self.max_y
    }
}

/// One printed key: the region it occupies and the code it stands for.
#[derive(Debug, Clone, Copy, PartialEq, Eq, Structural)]
pub struct KeyRegion {
    pub area: Rect,
    pub key: u16,
}

/// A key that is reported as several codes pressed together.
#[derive(Debug, Clone, PartialEq, Eq)]
pub struct MultiKey {
    pub key: u16,
    pub codes: Vec<u16>,
}

/// The geometry of one keypad: the region whose long tap switches modes, the
/// regions of the keys, and the keys that are reported as several codes.
///
/// Where regions overlap, the earlier one wins; where a key is listed twice
/// among the composite keys, the earlier entry wins.
#[derive(Debug, Clone, PartialEq, Eq)]
pub struct NumpadLayout {
    pub numpad_bbox: Rect,
    pub keys: Vec<KeyRegion>,
    pub multi: Vec<MultiKey>,
}

/// The first region of `keys`, from index `from` on, that holds the point.
pub open spec fn first_key_at(keys: Seq<KeyRegion>, x: i32, y: i32, from: int) -> Option<u16>
    decreases keys.len() - from,
{
    if from < 0 || from >= keys.len() {
        None
    } else if keys[from].area.spec_contains(x, y) {
        Some(keys[from].key)
    } else {
        first_key_at(keys, x, y, from + 1)
    }
}

/// The index of the first entry of `multi`, from index `from` on, that is for
/// `key`; the length of `multi` if there is none.
pub open spec fn first_multi(multi: Seq<MultiKey>, key: u16, from: int) -> int
    decreases multi.len() - from,
{
    if from < 0 || from >= multi.len() {
        multi.len() as int
    } else if multi[from].key == key {
        from
    } else {
        first_multi(multi, key, from + 1)
    }
}

impl NumpadLayout {
    /// A layout is well formed when every composite key has two codes or
    /// more.
    pub open spec fn wf(&self) -> bool {
        forall|i: int| 0 <= i < self.multi@.len() ==> (#[trigger] self.multi@[i]).codes@.len() >= 2
    }

    /// Whether the point lies in the region whose long tap switches modes.
    pub open spec fn spec_in_numpad_bbox(&self, x: i32, y: i32) -> bool {
        self.numpad_bbox.spec_contains(x, y)
    }

    /// The key at the point, if a key's region holds it.
    pub open spec fn spec_get_key(&self, x: i32, y: i32) -> Option<u16> {
        first_key_at(self.keys@, x, y, 0)
    }

    /// Whether the key is reported as several codes.
    pub open spec fn spec_needs_multikey(&self, key: u16) -> bool {
        first_multi(self.multi@, key, 0) < self.multi@.len()
    }

    /// The codes that the key is reported as, in order: those listed for a
    /// composite key, the key itself otherwise.
    pub open spec fn spec_multikeys(&self, key: u16) -> Seq<u16> {
        if self.spec_needs_multikey(key) {
            self.multi@[first_multi(self.multi@, key, 0)].codes@
        } else {
            seq![key]
        }
    }

    /// Builds a layout, if every composite key has two codes or more.
    pub fn new(numpad_bbox: Rect, keys: Vec<KeyRegion>, multi: Vec<MultiKey>) -> (r: Option<NumpadLayout>)
        ensures
            r.is_some() <==> (forall|i: int|
                0 <= i < multi@.len() ==> (#[trigger] multi@[i]).codes@.len() >= 2),
            r.is_some() ==> r.unwrap().wf() && r.unwrap().numpad_bbox == numpad_bbox
                && r.unwrap().keys == keys && r.unwrap().multi == multi,
    {
        let mut i: usize = 0;
        while i < multi.len()
            invariant
                i <= multi@.len(),
                forall|j: int| 0 <= j < i ==> (#[trigger] multi@[j]).codes@.len() >= 2,
            decreases multi@.len() - i,
        {
            if multi[i].codes.len() < 2 {
                return None;
            }
            i += 1;
        }
        Some(NumpadLayout { numpad_bbox, keys, multi })
    }

    /// Tells whether the point lies in the region whose long tap switches
    /// modes.
    pub fn in_numpad_bbox(&self, x: i32, y: i32) -> (r: bool)
        ensures
            r == self.spec_in_numpad_bbox(x, y),
    {
        self.numpad_bbox.contains(x, y)
    }

    /// Finds the key at the point.
    pub fn get_key(&self, x: i32, y: i32) -> (r: Option<u16>)
        ensures
            r == self.spec_get_key(x, y),
    {
        let mut i: usize = 0;
        while i < self.keys.len()
            invariant
                i <= self.keys@.len(),
                first_key_at(self.keys@, x, y, 0) == first_key_at(self.keys@, x, y, i as int),
            decreases self.keys@.len() - i,
        {
            if self.keys[i].area.contains(x, y) {
                return Some(self.keys[i].key);
            }
            i += 1;
        }
        None
    }

    /// Tells whether the key is reported as several codes.
    pub fn needs_multikey(&self, key: u16) -> (r: bool)
        ensures
            r == self.spec_needs_multikey(key),
    {
        self.find_multi(key) < self.multi.len()
    }

    /// Returns the codes that the key is reported as, in order.
    pub fn multikeys(&self, key: u16) -> (r: Vec<u16>)
        ensures
            r@ == self.spec_multikeys(key),
    {
        let at = self.find_multi(key);
        let mut out: Vec<u16> = Vec::new();
        if at < self.multi.len() {
            let codes = &self.multi[at].codes;
            let mut i: usize = 0;
            while i < codes.len()
                invariant
                    i <= codes@.len(),
                    out@ == codes@.subrange(0, i as int),
                decreases codes@.len() - i,
            {
                out.push(codes[i]);
                proof {
                    assert(out@ =~= codes@.subrange(0, i + 1));
                }
                i += 1;
            }
            proof {
                assert(out@ =~= codes@);
            }
        } else {
            out.push(key);
            proof {
                assert(out@ =~= seq![key]);
            }
        }
        out
    }

    fn find_multi(&self, key: u16) -> (r: usize)
        ensures
            r == first_multi(self.multi@, key, 0),
            r <= self.multi@.len(),
    {
        let mut i: usize = 0;
        while i < self.multi.len()
            invariant
                i <= self.multi@.len(),
                first_multi(self.multi@, key, 0) == first_multi(self.multi@, key, i as int),
            decreases self.multi@.len() - i,
        {
            if self.multi[i].key == key {
                return i;
            }
            i += 1;
        }
        i
    }
}

/// The codes of a key are never empty, and those of a composite key in a
/// well-formed layout are two or more.
pub proof fn lemma_multikeys_len(layout: &NumpadLayout, key: u16)
    requires
        layout.wf(),
    ensures
        layout.spec_multikeys(key).len() >= 1,
        layout.spec_needs_multikey(key) ==> layout.spec_multikeys(key).len() >= 2,
        !layout.spec_needs_multikey(key) ==> layout.spec_multikeys(key) == seq![key],
{
    lemma_first_multi_bounds(layout.multi@, key, 0);
}

/// `first_multi` stays between its starting index and the length; where it
/// is below the length, the entry it names is for `key`.
pub proof fn lemma_first_multi_bounds(multi: Seq<MultiKey>, key: u16, from: int)
    requires
        0 <= from <= multi.len(),
    ensures
        from <= first_multi(multi, key, from) <= multi.len(),
        first_multi(multi, key, from) < multi.len() ==> multi[first_multi(multi, key, from)].key
            == key,
    decreases multi.len() - from,
{
    if from < multi.len() && multi[from].key != key {
        lemma_first_multi_bounds(multi, key, from + 1);
    }
}

} // verus!
