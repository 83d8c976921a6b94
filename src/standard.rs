//! The table of standard fonts: canonical PostScript names and the asset
//! files that stand in for them. A slot is an index into this table.
use vstd::prelude::*;
use vstd::string::StrSliceExecFns;

verus! {

/// Number of entries in the standard-font table.
pub const STANDARD_FONT_COUNT: usize = 20;

/// The canonical names of the table, by slot.
pub open spec fn standard_names() -> Seq<Seq<char>> {
    seq![
        "Courier"@, "Courier-Bold"@, "Courier-Oblique"@, "Courier-BoldOblique"@,
        "Times-Roman"@, "Times-Bold"@, "Times-Italic"@, "Times-BoldItalic"@,
        "TimesNewRomanPSMT"@, "TimesNewRomanPS-BoldMT"@, "TimesNewRomanPS-BoldItalicMT"@,
        "Helvetica"@, "Helvetica-Bold"@, "Helvetica-Oblique"@, "Helvetica-BoldOblique"@,
        "Symbol"@, "ZapfDingbats"@,
        "Arial-BoldMT"@, "ArialMT"@, "Arial-ItalicMT"@,
    ]
}

/// The asset file names of the table, by slot.
pub open spec fn standard_files() -> Seq<Seq<char>> {
    seq![
        "CourierStd.otf"@, "CourierStd-Bold.otf"@, "CourierStd-Oblique.otf"@,
        "CourierStd-BoldOblique.otf"@,
        "MinionPro-Regular.otf"@, "MinionPro-Bold.otf"@, "MinionPro-It.otf"@,
        "MinionPro-BoldIt.otf"@,
        "TimesNewRomanPSMT.ttf"@, "TimesNewRomanPS-BoldMT.otf"@, "TimesNewRomanPS-BoldMT.otf"@,
        "MyriadPro-Regular.otf"@, "MyriadPro-Bold.otf"@, "MyriadPro-It.otf"@,
        "MyriadPro-BoldIt.otf"@,
        "SY______.PFB"@, "AdobePiStd.otf"@,
        "Arial-BoldMT.otf"@, "ArialMT.ttf"@, "Arial-ItalicMT.otf"@,
    ]
}

/// The first slot at or after `i` whose canonical name is `name`.
pub open spec fn first_slot_from(name: Seq<char>, i: int) -> Option<int>
    decreases STANDARD_FONT_COUNT - i,
{
    if i < 0 || i >= STANDARD_FONT_COUNT {
        None
    } else if standard_names()[i] == name {
        Some(i)
    } else {
        first_slot_from(name, i + 1)
    }
}

/// The slot of the table entry named `name`, if any (the first one, were
/// a name to occur twice).
pub open spec fn slot_of(name: Seq<char>) -> Option<int> {
    first_slot_from(name, 0)
}

/// The canonical name stored in `slot`.
pub fn standard_font_name(slot: usize) -> (r: &'static str)
    requires
        slot < STANDARD_FONT_COUNT,
    ensures
        r@ == standard_names()[slot as int],
{
    match slot {
        0 => "Courier",
        1 => "Courier-Bold",
        2 => "Courier-Oblique",
        3 => "Courier-BoldOblique",
        4 => "Times-Roman",
        5 => "Times-Bold",
        6 => "Times-Italic",
        7 => "Times-BoldItalic",
        8 => "TimesNewRomanPSMT",
        9 => "TimesNewRomanPS-BoldMT",
        10 => "TimesNewRomanPS-BoldItalicMT",
        11 => "Helvetica",
        12 => "Helvetica-Bold",
        13 => "Helvetica-Oblique",
        14 => "Helvetica-BoldOblique",
        15 => "Symbol",
        16 => "ZapfDingbats",
        17 => "Arial-BoldMT",
        18 => "ArialMT",
        _ => "Arial-ItalicMT",
    }
}

/// The asset file that holds the font of `slot`.
pub fn standard_font_file(slot: usize) -> (r: &'static str)
    requires
        slot < STANDARD_FONT_COUNT,
    ensures
        r@ == standard_files()[slot as int],
{
    match slot {
        0 => "CourierStd.otf",
        1 => "CourierStd-Bold.otf",
        2 => "CourierStd-Oblique.otf",
        3 => "CourierStd-BoldOblique.otf",
        4 => "MinionPro-Regular.otf",
        5 => "MinionPro-Bold.otf",
        6 => "MinionPro-It.otf",
        7 => "MinionPro-BoldIt.otf",
        8 => "TimesNewRomanPSMT.ttf",
        9 => "TimesNewRomanPS-BoldMT.otf",
        10 => "TimesNewRomanPS-BoldMT.otf",
        11 => "MyriadPro-Regular.otf",
        12 => "MyriadPro-Bold.otf",
        13 => "MyriadPro-It.otf",
        14 => "MyriadPro-BoldIt.otf",
        15 => "SY______.PFB",
        16 => "AdobePiStd.otf",
        17 => "Arial-BoldMT.otf",
        18 => "ArialMT.ttf",
        _ => "Arial-ItalicMT.otf",
    }
}

/// Whether two strings hold the same characters.
pub fn same_text(a: &str, b: &str) -> (r: bool)
    ensures
        r == (a@ == b@),
{
    let n = a.unicode_len();
    if n != b.unicode_len() {
        return false;
    }
    let mut i: usize = 0;
    while i < n
        invariant
            n == a@.len(),
            n == b@.len(),
            i <= n,
            a@.subrange(0, i as int) == b@.subrange(0, i as int),
        decreases n - i,
    {
        if a.get_char(i) != b.get_char(i) {
            assert(a@[i as int] != b@[i as int]);
            return false;
        }
        assert(a@.subrange(0, i + 1) =~= a@.subrange(0, i as int).push(a@[i as int]));
        assert(b@.subrange(0, i + 1) =~= b@.subrange(0, i as int).push(b@[i as int]));
        i = i + 1;
    }
    assert(a@ =~= a@.subrange(0, n as int));
    assert(b@ =~= b@.subrange(0, n as int));
    true
}

/// Looks a declared font name up in the table by exact match.
pub fn lookup(name: &str) -> (r: Option<usize>)
    ensures
        match r {
            Some(i) => i < STANDARD_FONT_COUNT && slot_of(name@) == Some(i as int),
            None => slot_of(name@) is None,
        },
{
    let mut i: usize = 0;
    while i < STANDARD_FONT_COUNT
        invariant
            i <= STANDARD_FONT_COUNT,
            slot_of(name@) == first_slot_from(name@, i as int),
        decreases STANDARD_FONT_COUNT - i,
    {
        if same_text(standard_font_name(i), name) {
            return Some(i);
        }
        i = i + 1;
    }
    None
}

} // verus!
