//! What holds of font resolution across calls.
use crate::cache::{fits_slot, plan_spec, record_post, Embedded, SlotEntries, StandardCache, Step};
use crate::handle::{same_handle_spec, FontRc, Origin};
use crate::standard::{slot_of, STANDARD_FONT_COUNT};
use vstd::prelude::*;

verus! {

/// A slot is loaded at most once. After a `record` for a slot, every
/// resolution of a name in that slot finds the stored outcome and asks for
/// no load; a second `record` for the slot (from a caller that raced to load
/// it too) changes nothing and hands back the first outcome, so every caller
/// sees the same handle, or the same failure.
pub proof fn law_slot_loaded_once<T>(
    c0: StandardCache<T>,
    c1: StandardCache<T>,
    c2: StandardCache<T>,
    slot: usize,
    first: Option<T>,
    second: Option<T>,
    r1: Option<FontRc<T>>,
    r2: Option<FontRc<T>>,
    name: Seq<char>,
)
    requires
        c0.wf(),
        slot < STANDARD_FONT_COUNT,
        slot_of(name) == Some(slot as int),
        record_post(c0, slot, first, c1, r1),
        record_post(c1, slot, second, c2, r2),
    ensures
        r2 == r1,
        c2 == c1,
        plan_spec(Some(name), Embedded::Absent, c1.entries()) == Step::Cached(r1),
        plan_spec(Some(name), Embedded::Absent, c2.entries()) == Step::Cached(r1),
        r1 matches Some(h1) ==> (r2 matches Some(h2) && same_handle_spec(h1, h2)),
{
}

/// A failed load is remembered. When loading a slot that held no outcome
/// failed, the slot records the failure, and a later resolution of a name in
/// that slot yields no font without a new load.
pub proof fn law_failed_load_is_cached<T>(
    c0: StandardCache<T>,
    c1: StandardCache<T>,
    slot: usize,
    r: Option<FontRc<T>>,
    name: Seq<char>,
)
    requires
        c0.wf(),
        slot < STANDARD_FONT_COUNT,
        slot_of(name) == Some(slot as int),
        c0.entries()[slot as int] is None,
        record_post(c0, slot, None, c1, r),
    ensures
        r is None,
        plan_spec(Some(name), Embedded::Absent, c1.entries()) == Step::<T>::Cached(None),
{
}

/// Slot outcomes are permanent: recording any slot leaves every slot that
/// held an outcome as it was.
pub proof fn law_outcomes_are_permanent<T>(
    c0: StandardCache<T>,
    c1: StandardCache<T>,
    slot: usize,
    parsed: Option<T>,
    r: Option<FontRc<T>>,
    other: int,
)
    requires
        c0.wf(),
        slot < STANDARD_FONT_COUNT,
        0 <= other < STANDARD_FONT_COUNT,
        c0.entries()[other] is Some,
        record_post(c0, slot, parsed, c1, r),
    ensures
        c1.entries()[other] == c0.entries()[other],
{
}

/// Embedded data bypasses the table and the cache: whatever the declared
/// name and whatever the slots hold, a font with embedded bytes is parsed
/// from them.
pub proof fn law_embedded_bypasses_table<T>(name: Option<Seq<char>>, entries: SlotEntries<T>)
    ensures
        plan_spec(name, Embedded::Present, entries) == Step::<T>::ParseEmbedded,
{
}

/// Only handles of one origin can be equal. A handle made for an embedded font is unequal to every handle a
/// cache holds, even when the fonts are the same; handles held in two
/// different slots are unequal too.
pub proof fn law_handle_identity<T>(c: StandardCache<T>, h: FontRc<T>, i: int, j: int)
    requires
        c.wf(),
        h.origin() == Origin::Embedded,
        0 <= i < STANDARD_FONT_COUNT,
        0 <= j < STANDARD_FONT_COUNT,
    ensures
        c.entries()[i] matches Some(Some(g)) ==> !same_handle_spec(h, g),
        i != j ==> match (c.entries()[i], c.entries()[j]) {
            (Some(Some(g1)), Some(Some(g2))) => !same_handle_spec(g1, g2),
            _ => true,
        },
{
    assert(fits_slot(c.entries()[i], i));
    assert(fits_slot(c.entries()[j], j));
}

/// Handle equality is an equivalence: every handle equals itself (and so
/// its copies, which `share` and `clone` give equal to it), and equality is
/// symmetric and transitive.
pub proof fn law_equality_is_equivalence<T>(a: FontRc<T>, b: FontRc<T>, c: FontRc<T>)
    ensures
        same_handle_spec(a, a),
        same_handle_spec(a, b) ==> same_handle_spec(b, a),
        same_handle_spec(a, b) && same_handle_spec(b, c) ==> same_handle_spec(a, c),
{
}

/// A font with neither a declared name nor embedded data resolves to no
/// font, without error and without a load.
pub proof fn law_no_name_no_data<T>(entries: SlotEntries<T>)
    ensures
        plan_spec(None, Embedded::Absent, entries) == Step::<T>::NoFont,
{
}

} // verus!
