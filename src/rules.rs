//! The utility's label conventions: energy-type names, plant names, status
//! remarks and reserve indicators.
use vstd::prelude::*;
use crate::text::{
    before_first, chars_of, contains, contains_chars, copy_range, find_char, first_index,
    replace_all, replaced, same_chars, trim, trim_bounds,
};

verus! {

/// Unit name of the rows that sum up a group of units.
pub open spec fn subtotal_marker() -> Seq<char> {
    seq!['小', '計']
}

/// Marker of privately owned plants in a unit-type label.
pub open spec fn private_marker() -> Seq<char> {
    seq!['民', '營', '電', '廠']
}

/// The private marker with its separator, as it stands before a sub-type.
pub open spec fn private_prefix() -> Seq<char> {
    seq!['民', '營', '電', '廠', '-']
}

/// The shorter tag that replaces `private_prefix`.
pub open spec fn private_tag() -> Seq<char> {
    seq!['民', '營']
}

/// Canonical label of the other renewable sources.
pub open spec fn other_renewable() -> Seq<char> {
    seq!['其', '它', '再', '生', '能', '源']
}

pub open spec fn wind() -> Seq<char> {
    seq!['風', '力']
}

pub open spec fn solar() -> Seq<char> {
    seq!['太', '陽', '能']
}

pub open spec fn hydro() -> Seq<char> {
    seq!['水', '力']
}

pub fn subtotal_chars() -> (r: Vec<char>)
    ensures
        r@ == subtotal_marker(),
{
    let r = vec!['小', '計'];
    assert(r@ =~= subtotal_marker());
    r
}

fn private_marker_chars() -> (r: Vec<char>)
    ensures
        r@ == private_marker(),
{
    let r = vec!['民', '營', '電', '廠'];
    assert(r@ =~= private_marker());
    r
}

fn private_prefix_chars() -> (r: Vec<char>)
    ensures
        r@ == private_prefix(),
{
    let r = vec!['民', '營', '電', '廠', '-'];
    assert(r@ =~= private_prefix());
    r
}

fn other_renewable_chars() -> (r: Vec<char>)
    ensures
        r@ == other_renewable(),
{
    let r = vec!['其', '它', '再', '生', '能', '源'];
    assert(r@ =~= other_renewable());
    r
}

/// The label under which a unit type is aggregated.
pub open spec fn clean_type(t: Seq<char>) -> Seq<char> {
    if contains(t, private_marker()) {
        replaced(t, private_prefix(), private_tag())
    } else if contains(t, other_renewable()) {
        other_renewable()
    } else {
        t
    }
}

/// Whether a unit-type label is counted as private generation.
pub open spec fn is_private_type(t: Seq<char>) -> bool {
    contains(t, private_marker())
}

/// Whether a unit-type label marks private generation.
pub fn is_private(unit_type: &str) -> (r: bool)
    ensures
        r == is_private_type(unit_type@),
{
    contains_chars(&chars_of(unit_type), &private_marker_chars())
}

/// Normalises a unit-type label for aggregation.
pub fn clean_energy_type(energy_type: &str) -> (r: String)
    ensures
        r@ == clean_type(energy_type@),
{
    let v = chars_of(energy_type);
    if contains_chars(&v, &private_marker_chars()) {
        let tag = "民營";
        proof {
            reveal_strlit("民營");
            assert(tag@ =~= private_tag());
        }
        replace_all(energy_type, &private_prefix_chars(), tag)
    } else if contains_chars(&v, &other_renewable_chars()) {
        let label = "其它再生能源";
        proof {
            reveal_strlit("其它再生能源");
            assert(label@ =~= other_renewable());
        }
        String::from_str(label)
    } else {
        String::from_str(energy_type)
    }
}

/// Whether a normalised label belongs to the renewable set.
pub open spec fn renewable_label(t: Seq<char>) -> bool {
    t == wind() || t == solar() || t == hydro() || t == other_renewable()
}

/// Whether a normalised label is one of wind, solar, hydro or other renewables.
pub fn is_renewable(energy_type: &str) -> (r: bool)
    ensures
        r == renewable_label(energy_type@),
{
    let v = chars_of(energy_type);
    let w = vec!['風', '力'];
    let s = vec!['太', '陽', '能'];
    let h = vec!['水', '力'];
    assert(w@ =~= wind());
    assert(s@ =~= solar());
    assert(h@ =~= hydro());
    same_chars(&v, &w) || same_chars(&v, &s) || same_chars(&v, &h) || same_chars(
        &v,
        &other_renewable_chars(),
    )
}

/// The plant a unit belongs to: the text before the unit index `#`; none for
/// a subtotal row; else the text before any `(`, `[` or `#`, trimmed.
pub open spec fn plant_of(n: Seq<char>) -> Option<Seq<char>> {
    match first_index(n, '#') {
        Some(p) => Some(n.take(p)),
        None => if contains(n, subtotal_marker()) {
            None
        } else {
            Some(trim(before_first(before_first(n, '('), '[')))
        },
    }
}

/// Extracts the plant name from a unit name.
pub fn extract_plant_name(unit_name: &str) -> (r: Option<String>)
    ensures
        match r {
            Some(p) => plant_of(unit_name@) == Some(p@),
            None => plant_of(unit_name@) is None,
        },
{
    let v = chars_of(unit_name);
    match find_char(&v, '#') {
        Some(p) => {
            let r = String::from_str(unit_name.substring_char(0, p));
            assert(r@ =~= unit_name@.take(p as int));
            Some(r)
        },
        None => {
            if contains_chars(&v, &subtotal_chars()) {
                None
            } else {
                let h1 = match find_char(&v, '(') {
                    Some(k) => copy_range(&v, 0, k),
                    None => copy_range(&v, 0, v.len()),
                };
                assert(h1@ == before_first(v@, '(')) by {
                    assert(v@.subrange(0, v@.len() as int) =~= v@);
                    if first_index(v@, '(') is Some {
                        assert(v@.subrange(0, first_index(v@, '(')->0) =~= v@.take(
                            first_index(v@, '(')->0,
                        ));
                    }
                }
                let h2 = match find_char(&h1, '[') {
                    Some(k) => copy_range(&h1, 0, k),
                    None => copy_range(&h1, 0, h1.len()),
                };
                assert(h2@ == before_first(h1@, '[')) by {
                    assert(h1@.subrange(0, h1@.len() as int) =~= h1@);
                    if first_index(h1@, '[') is Some {
                        assert(h1@.subrange(0, first_index(h1@, '[')->0) =~= h1@.take(
                            first_index(h1@, '[')->0,
                        ));
                    }
                }
                let (a, b) = trim_bounds(&h2);
                let r = String::from_str(unit_name.substring_char(a, b));
                assert(r@ =~= h2@.subrange(a as int, b as int));
                Some(r)
            }
        },
    }
}


/// What a unit's remark says of its state; the first matching phrase wins.
#[derive(Clone, Copy, Debug, PartialEq, Eq, Structural)]
pub enum UnitStatus {
    /// Environmental or operating restriction.
    Restricted,
    /// Annual overhaul or maintenance.
    Maintenance,
    /// Fault.
    Fault,
    /// None of these.
    Normal,
}

/// The state a remark reports.
pub open spec fn status_of(r: Seq<char>) -> UnitStatus {
    if contains(r, seq!['環', '保', '限', '制']) || contains(r, seq!['運', '轉', '限', '制']) {
        UnitStatus::Restricted
    } else if contains(r, seq!['歲', '修']) || contains(r, seq!['檢', '修']) {
        UnitStatus::Maintenance
    } else if contains(r, seq!['故', '障']) {
        UnitStatus::Fault
    } else {
        UnitStatus::Normal
    }
}

/// Classifies a unit by its remark.
pub fn classify_remark(remark: &str) -> (r: UnitStatus)
    ensures
        r == status_of(remark@),
{
    let v = chars_of(remark);
    let env = vec!['環', '保', '限', '制'];
    let ops = vec!['運', '轉', '限', '制'];
    let overhaul = vec!['歲', '修'];
    let repair = vec!['檢', '修'];
    let fault = vec!['故', '障'];
    assert(env@ =~= seq!['環', '保', '限', '制']);
    assert(ops@ =~= seq!['運', '轉', '限', '制']);
    assert(overhaul@ =~= seq!['歲', '修']);
    assert(repair@ =~= seq!['檢', '修']);
    assert(fault@ =~= seq!['故', '障']);
    if contains_chars(&v, &env) || contains_chars(&v, &ops) {
        UnitStatus::Restricted
    } else if contains_chars(&v, &overhaul) || contains_chars(&v, &repair) {
        UnitStatus::Maintenance
    } else if contains_chars(&v, &fault) {
        UnitStatus::Fault
    } else {
        UnitStatus::Normal
    }
}

/// Qualitative reserve margin, as its one-letter code gives it.
#[derive(Clone, Copy, Debug, PartialEq, Eq, Structural)]
pub enum ReserveLevel {
    Green,
    Yellow,
    Orange,
    Red,
    Unknown,
}

/// The level a reserve-indicator code stands for.
pub open spec fn level_of(s: Seq<char>) -> ReserveLevel {
    if s == seq!['G'] {
        ReserveLevel::Green
    } else if s == seq!['Y'] {
        ReserveLevel::Yellow
    } else if s == seq!['O'] {
        ReserveLevel::Orange
    } else if s == seq!['R'] {
        ReserveLevel::Red
    } else {
        ReserveLevel::Unknown
    }
}

/// Reads a reserve-indicator code.
pub fn reserve_level(indicator: &str) -> (r: ReserveLevel)
    ensures
        r == level_of(indicator@),
{
    let v = chars_of(indicator);
    if v.len() != 1 {
        assert(v@ != seq!['G'] && v@ != seq!['Y'] && v@ != seq!['O'] && v@ != seq!['R']) by {
            if v@ == seq!['G'] || v@ == seq!['Y'] || v@ == seq!['O'] || v@ == seq!['R'] {
                assert(v@.len() == 1);
            }
        }
        return ReserveLevel::Unknown;
    }
    let c = v[0];
    assert(v@ =~= seq![c]);
    if c == 'G' {
        ReserveLevel::Green
    } else if c == 'Y' {
        ReserveLevel::Yellow
    } else if c == 'O' {
        ReserveLevel::Orange
    } else if c == 'R' {
        ReserveLevel::Red
    } else {
        assert(seq![c][0] == c);
        ReserveLevel::Unknown
    }
}

/// The glyph shown for a reserve level.
pub open spec fn glyph_of(l: ReserveLevel) -> Seq<char> {
    match l {
        ReserveLevel::Green => "🟢"@,
        ReserveLevel::Yellow => "🟡"@,
        ReserveLevel::Orange => "🟠"@,
        ReserveLevel::Red => "🔴"@,
        ReserveLevel::Unknown => "⚪"@,
    }
}

/// The glyph for a reserve-indicator code: green, yellow, orange and red for
/// `G`, `Y`, `O` and `R`, a neutral one for anything else.
pub fn get_reserve_indicator_emoji(indicator: &str) -> (r: &'static str)
    ensures
        r@ == glyph_of(level_of(indicator@)),
{
    match reserve_level(indicator) {
        ReserveLevel::Green => "🟢",
        ReserveLevel::Yellow => "🟡",
        ReserveLevel::Orange => "🟠",
        ReserveLevel::Red => "🔴",
        ReserveLevel::Unknown => "⚪",
    }
}

} // verus!
