//! The standard-font cache and the decisions of font resolution.
//!
//! Resolving a font reference alternates decisions with outside work
//! (dereferencing the document, reading an asset file, parsing font bytes).
//! The decisions live here: `plan` says what to do next for a font's
//! metadata, and `record` stores the outcome of a standard-font load for
//! good.
use crate::handle::{FontRc, Origin};
use crate::standard::{lookup, slot_of, STANDARD_FONT_COUNT};
use vstd::prelude::*;
use vstd::string::StringExecFns;

verus! {

/// What the document's embedded-data accessor gave for a font.
#[derive(PartialEq, Eq, Structural, Clone, Copy, Debug)]
pub enum Embedded {
    /// The font carries no embedded data.
    Absent,
    /// The font carries embedded bytes.
    Present,
    /// The accessor itself failed.
    Failed,
}

/// The next thing to do to resolve a font.
pub enum Step<T> {
    /// Parse the embedded bytes and wrap them in a fresh handle; nothing is cached.
    ParseEmbedded,
    /// Hand the embedded-data accessor's error to the caller unchanged.
    Fail,
    /// No renderable font: resolution succeeds with nothing.
    NoFont,
    /// The slot was loaded before: this is its permanent outcome.
    Cached(Option<FontRc<T>>),
    /// Read and parse the asset file of this slot, then `record` the outcome.
    Load { slot: usize },
}

/// The outcome of every slot: `None` while the slot has not been loaded,
/// `Some(r)` once it has (`r` itself `None` for a load that failed).
pub type SlotEntries<T> = Seq<Option<Option<FontRc<T>>>>;

/// What to do for a font with declared name `name` and embedded data
/// `embedded`, given the slot outcomes `entries`.
pub open spec fn plan_spec<T>(
    name: Option<Seq<char>>,
    embedded: Embedded,
    entries: SlotEntries<T>,
) -> Step<T> {
    match embedded {
        Embedded::Present => Step::ParseEmbedded,
        Embedded::Failed => Step::Fail,
        Embedded::Absent => match name {
            None => Step::NoFont,
            Some(n) => match slot_of(n) {
                None => Step::NoFont,
                Some(i) => match entries[i] {
                    Some(outcome) => Step::Cached(outcome),
                    None => Step::Load { slot: i as usize },
                },
            },
        },
    }
}

/// Whether the slot outcome `entry` belongs in slot `i`: no outcome yet, a
/// failed load, or a handle whose origin is that slot.
pub open spec fn fits_slot<T>(entry: Option<Option<FontRc<T>>>, i: int) -> bool {
    match entry {
        Some(Some(h)) => h.origin() == Origin::Standard(i as usize),
        _ => true,
    }
}

/// The outcomes of the standard-font slots. Each slot is written at most
/// once; an outcome, failure included, is never replaced. This is the
/// library's own slot store, not a concurrent map: threads that share it
/// put it behind a lock, with a lock per slot around the loads.
pub struct StandardCache<T> {
    slots: Vec<Option<Option<FontRc<T>>>>,
}

impl<T> StandardCache<T> {
    /// The outcome of every slot.
    pub closed spec fn entries(&self) -> SlotEntries<T> {
        self.slots@
    }

    /// One entry per slot, each handle held in the slot it came from.
    pub open spec fn wf(&self) -> bool {
        &&& self.entries().len() == STANDARD_FONT_COUNT
        &&& forall|i: int| 0 <= i < STANDARD_FONT_COUNT ==> fits_slot(#[trigger] self.entries()[i], i)
    }

    /// An empty cache: no slot loaded yet.
    pub fn new() -> (r: Self)
        ensures
            r.wf(),
            forall|i: int| 0 <= i < STANDARD_FONT_COUNT ==> #[trigger] r.entries()[i] is None,
    {
        let mut slots: Vec<Option<Option<FontRc<T>>>> = Vec::new();
        let mut i: usize = 0;
        while i < STANDARD_FONT_COUNT
            invariant
                i <= STANDARD_FONT_COUNT,
                slots@.len() == i,
                forall|j: int| 0 <= j < i ==> #[trigger] slots@[j] is None,
            decreases STANDARD_FONT_COUNT - i,
        {
            slots.push(None);
            i = i + 1;
        }
        StandardCache { slots }
    }

    /// The outcome of `slot`: `None` while it has not been loaded.
    pub fn cached(&self, slot: usize) -> (r: Option<Option<FontRc<T>>>)
        requires
            self.wf(),
            slot < STANDARD_FONT_COUNT,
        ensures
            r == self.entries()[slot as int],
    {
        match &self.slots[slot] {
            None => None,
            Some(None) => Some(None),
            Some(Some(h)) => Some(Some(h.share())),
        }
    }

    /// Stores `parsed`, the outcome of loading `slot`, unless the slot
    /// holds an outcome already; returns the slot's outcome afterwards.
    /// The first outcome stored for a slot is final.
    pub fn record(&mut self, slot: usize, parsed: Option<T>) -> (r: Option<FontRc<T>>)
        requires
            old(self).wf(),
            slot < STANDARD_FONT_COUNT,
        ensures
            record_post(*old(self), slot, parsed, *final(self), r),
    {
        match &self.slots[slot] {
            Some(None) => {
                assert(self.entries().update(slot as int, Some(None)) =~= self.entries());
                return None;
            },
            Some(Some(h)) => {
                let r = Some(h.share());
                assert(self.entries().update(slot as int, Some(r)) =~= self.entries());
                return r;
            },
            None => {},
        }
        let r = match parsed {
            None => None,
            Some(font) => Some(FontRc::standard(slot, font)),
        };
        let stored = match &r {
            None => None,
            Some(h) => Some(h.share()),
        };
        self.slots.set(slot, Some(stored));
        proof {
            let old_c = *old(self);
            assert forall|i: int| 0 <= i < STANDARD_FONT_COUNT implies fits_slot(
                #[trigger] self.entries()[i],
                i,
            ) by {
                if i != slot {
                    assert(self.entries()[i] == old_c.entries()[i]);
                }
            }
        }
        r
    }
}

/// `record` of `parsed` for `slot` took cache `c0` to `c1` and gave `r`.
pub open spec fn record_post<T>(
    c0: StandardCache<T>,
    slot: usize,
    parsed: Option<T>,
    c1: StandardCache<T>,
    r: Option<FontRc<T>>,
) -> bool {
    &&& c1.wf()
    &&& c1.entries() == c0.entries().update(slot as int, Some(r))
    &&& match c0.entries()[slot as int] {
        Some(outcome) => r == outcome && c1 == c0,
        None => match parsed {
            None => r is None,
            Some(font) => r matches Some(h) && h.value() == font && h.origin() == Origin::Standard(
                slot,
            ),
        },
    }
}

/// What to do next to resolve a font with declared name `name`, whose
/// embedded-data accessor gave `embedded`.
pub fn plan<T>(name: Option<&str>, embedded: Embedded, cache: &StandardCache<T>) -> (r: Step<T>)
    requires
        cache.wf(),
    ensures
        r == plan_spec(
            match name {
                Some(n) => Some(n@),
                None => None,
            },
            embedded,
            cache.entries(),
        ),
        r matches Step::Load { slot } ==> slot < STANDARD_FONT_COUNT,
{
    match embedded {
        Embedded::Present => Step::ParseEmbedded,
        Embedded::Failed => Step::Fail,
        Embedded::Absent => match name {
            None => Step::NoFont,
            Some(n) => match lookup(n) {
                None => Step::NoFont,
                Some(slot) => {
                    assert(slot_of(n@) == Some(slot as int));
                    match cache.cached(slot) {
                        Some(outcome) => Step::Cached(outcome),
                        None => Step::Load { slot },
                    }
                },
            },
        },
    }
}

/// The characters of a declared name, if there is one.
pub open spec fn name_view(name: Option<&str>) -> Option<Seq<char>> {
    match name {
        Some(n) => Some(n@),
        None => None,
    }
}

/// The next step where it does not depend on the slots: always for
/// embedded data or its failure, and for a name outside the table; `None`
/// where the slot of the declared name has to be consulted through `plan`.
pub fn plan_before_cache<T>(name: Option<&str>, embedded: Embedded) -> (r: Option<Step<T>>)
    ensures
        match r {
            Some(step) => forall|entries: SlotEntries<T>|
                #[trigger] plan_spec(name_view(name), embedded, entries) == step,
            None => embedded == Embedded::Absent && (name matches Some(n) && slot_of(n@) is Some),
        },
{
    match embedded {
        Embedded::Present => Some(Step::ParseEmbedded),
        Embedded::Failed => Some(Step::Fail),
        Embedded::Absent => match name {
            None => Some(Step::NoFont),
            Some(n) => match lookup(n) {
                None => Some(Step::NoFont),
                Some(_) => None,
            },
        },
    }
}

/// The file that receives the bytes of an embedded font that failed to
/// parse: `font_` followed by the font's declared name, or by `unnamed`.
pub fn dump_file_name(name: Option<&str>) -> (r: String)
    ensures
        r@ == "font_"@ + match name {
            Some(n) => n@,
            None => "unnamed"@,
        },
{
    let stem = match name {
        Some(n) => n,
        None => "unnamed",
    };
    String::from_str("font_").concat(stem)
}

} // verus!
