//! Aggregation of generation-unit records into a `PowerAnalysis`.
use vstd::prelude::*;
use crate::entries::{
    add_entry, add_to, best, best_entry, bounded_by, entries_view, keys_distinct, put, put_entry,
};
use crate::numeric::{numeric_value, parse_mw_value, MAX_MAGNITUDE};
use crate::rules::{
    clean_energy_type, clean_type, classify_remark, extract_plant_name, is_private,
    is_private_type, is_renewable, plant_of, renewable_label, status_of, subtotal_chars,
    subtotal_marker, UnitStatus,
};
use crate::text::{chars_of, contains, contains_chars, same_chars};

verus! {

/// One row of the utility's generation data, fields as published.
#[derive(Clone, Debug)]
pub struct PowerUnit {
    pub unit_type: String,
    pub unit_name: String,
    /// Installed capacity, MW.
    pub capacity: String,
    /// Net generation, MW.
    pub generation: String,
    /// Generation to capacity, percent; not used by the analysis.
    pub ratio: String,
    pub remark: String,
}

/// Running totals over a prefix of the records, as plain values.
pub struct Tally {
    pub total: int,
    pub capacity: int,
    pub by_type: Seq<(Seq<char>, int)>,
    pub plants: Seq<(Seq<char>, int)>,
    pub units: Seq<(Seq<char>, int)>,
    pub restricted: int,
    pub maintenance: int,
    pub faults: int,
    pub renewable: int,
    pub private: int,
}

pub open spec fn empty_tally() -> Tally {
    Tally {
        total: 0,
        capacity: 0,
        by_type: Seq::empty(),
        plants: Seq::empty(),
        units: Seq::empty(),
        restricted: 0,
        maintenance: 0,
        faults: 0,
        renewable: 0,
        private: 0,
    }
}

/// Whether a record is a subtotal row, left out of every aggregate.
pub open spec fn is_subtotal_row(u: PowerUnit) -> bool {
    u.unit_name@ == subtotal_marker()
}

/// The totals after one more record.
pub open spec fn step(t: Tally, u: PowerUnit) -> Tally {
    if is_subtotal_row(u) {
        t
    } else {
        let g = numeric_value(u.generation@);
        let ty = clean_type(u.unit_type@);
        let st = status_of(u.remark@);
        Tally {
            total: t.total + g,
            capacity: t.capacity + numeric_value(u.capacity@),
            by_type: add_to(t.by_type, ty, g),
            plants: match plant_of(u.unit_name@) {
                Some(p) => add_to(t.plants, p, g),
                None => t.plants,
            },
            units: if g > 0 && !contains(u.unit_name@, subtotal_marker()) {
                put(t.units, u.unit_name@, g)
            } else {
                t.units
            },
            restricted: t.restricted + if st == UnitStatus::Restricted { 1int } else { 0 },
            maintenance: t.maintenance + if st == UnitStatus::Maintenance { 1int } else { 0 },
            faults: t.faults + if st == UnitStatus::Fault { 1int } else { 0 },
            renewable: t.renewable + if renewable_label(ty) { g } else { 0 },
            private: t.private + if is_private_type(u.unit_type@) { g } else { 0 },
        }
    }
}

/// The totals over all of `units`, in order.
pub open spec fn tally(units: Seq<PowerUnit>) -> Tally
    decreases units.len(),
{
    if units.len() == 0 {
        empty_tally()
    } else {
        step(tally(units.drop_last()), units.last())
    }
}

/// Name reported when there is nothing to rank.
pub open spec fn unknown_name() -> Seq<char> {
    seq!['未', '知']
}

/// The leading entry of `l`, or the unknown name with zero.
pub open spec fn top_or_unknown(l: Seq<(Seq<char>, int)>) -> (Seq<char>, int) {
    match best(l) {
        Some(b) => b,
        None => (unknown_name(), 0),
    }
}

/// `a / b` rounded toward zero, for `b > 0`.
pub open spec fn div_toward_zero(a: int, b: int) -> int {
    if a >= 0 {
        a / b
    } else {
        -((-a) / b)
    }
}

/// `part` as a share of `whole`, in thousandths of a percent, rounded toward
/// zero; zero when `whole` is not positive.
pub open spec fn share(part: int, whole: int) -> int {
    if whole > 0 {
        div_toward_zero(part * 100 * 1000, whole)
    } else {
        0
    }
}

/// Summary of one batch of generation data. Power figures are in
/// thousandths of a MW, ratios in thousandths of a percent.
#[derive(Debug)]
pub struct PowerAnalysis {
    pub update_time: String,
    pub total_generation: i128,
    pub estimated_max_generation: i128,
    /// Generation per normalised energy type, in order of first appearance.
    pub generation_by_type: Vec<(String, i128)>,
    pub top_plant: (String, i128),
    pub top_unit: (String, i128),
    pub environmental_restrictions: usize,
    pub maintenance_count: usize,
    pub fault_count: usize,
    pub renewable_ratio: i128,
    pub private_ratio: i128,
}

/// What `analyze_power_data` yields for `units` stamped with `time`.
pub open spec fn analysis_matches(a: PowerAnalysis, units: Seq<PowerUnit>, time: Seq<char>) -> bool {
    let t = tally(units);
    &&& a.update_time@ == time
    &&& a.total_generation == t.total
    &&& a.estimated_max_generation == t.capacity
    &&& entries_view(a.generation_by_type@) == t.by_type
    &&& (a.top_plant.0@, a.top_plant.1 as int) == top_or_unknown(t.plants)
    &&& (a.top_unit.0@, a.top_unit.1 as int) == top_or_unknown(t.units)
    &&& a.environmental_restrictions == t.restricted
    &&& a.maintenance_count == t.maintenance
    &&& a.fault_count == t.faults
    &&& a.renewable_ratio == share(t.renewable, t.total)
    &&& a.private_ratio == share(t.private, t.total)
}

fn top_or_unknown_exec(l: &Vec<(String, i128)>) -> (r: (String, i128))
    ensures
        (r.0@, r.1 as int) == top_or_unknown(entries_view(l@)),
{
    match best_entry(l) {
        Some(b) => b,
        None => {
            let name = "未知";
            proof {
                reveal_strlit("未知");
                assert(name@ =~= unknown_name());
            }
            (String::from_str(name), 0)
        },
    }
}

pub fn share_exec(part: i128, whole: i128) -> (r: i128)
    requires
        -0x100_0000_0000_0000_0000_0000_0000 <= part <= 0x100_0000_0000_0000_0000_0000_0000,
    ensures
        r == share(part as int, whole as int),
{
    if whole > 0 {
        if part >= 0 {
            part * 100000 / whole
        } else {
            -((-part) * 100000 / whole)
        }
    } else {
        0
    }
}

/// Aggregates the records: totals, generation per type, top plant and unit,
/// status counts and the renewable and private shares of generation.
pub fn analyze_power_data(units: Vec<PowerUnit>, date_time: String) -> (r: PowerAnalysis)
    ensures
        analysis_matches(r, units@, date_time@),
        -(units@.len() * MAX_MAGNITUDE) <= r.total_generation <= units@.len() * MAX_MAGNITUDE,
        keys_distinct(entries_view(r.generation_by_type@)),
{
    let mut total: i128 = 0;
    let mut capacity: i128 = 0;
    let mut by_type: Vec<(String, i128)> = Vec::new();
    let mut plants: Vec<(String, i128)> = Vec::new();
    let mut unit_gen: Vec<(String, i128)> = Vec::new();
    let mut restricted: usize = 0;
    let mut maintenance: usize = 0;
    let mut faults: usize = 0;
    let mut renewable: i128 = 0;
    let mut private: i128 = 0;
    let subtotal = subtotal_chars();
    let mut i: usize = 0;
    while i < units.len()
        invariant
            i <= units@.len(),
            subtotal@ == subtotal_marker(),
            ({
                let t = tally(units@.take(i as int));
                &&& total == t.total
                &&& capacity == t.capacity
                &&& entries_view(by_type@) == t.by_type
                &&& entries_view(plants@) == t.plants
                &&& entries_view(unit_gen@) == t.units
                &&& restricted == t.restricted
                &&& maintenance == t.maintenance
                &&& faults == t.faults
                &&& renewable == t.renewable
                &&& private == t.private
            }),
            -(i * MAX_MAGNITUDE) <= total <= i * MAX_MAGNITUDE,
            -(i * MAX_MAGNITUDE) <= capacity <= i * MAX_MAGNITUDE,
            -(i * MAX_MAGNITUDE) <= renewable <= i * MAX_MAGNITUDE,
            -(i * MAX_MAGNITUDE) <= private <= i * MAX_MAGNITUDE,
            keys_distinct(entries_view(by_type@)),
            keys_distinct(entries_view(plants@)),
            keys_distinct(entries_view(unit_gen@)),
            bounded_by(entries_view(by_type@), i * MAX_MAGNITUDE),
            bounded_by(entries_view(plants@), i * MAX_MAGNITUDE),
            bounded_by(entries_view(unit_gen@), i * MAX_MAGNITUDE),
            restricted <= i,
            maintenance <= i,
            faults <= i,
        decreases units.len() - i,
    {
        let ghost before = tally(units@.take(i as int));
        assert(units@.take(i + 1).drop_last() =~= units@.take(i as int));
        let u = &units[i];
        let name = chars_of(u.unit_name.as_str());
        if !same_chars(&name, &subtotal) {
            let g = parse_mw_value(u.generation.as_str());
            let c = parse_mw_value(u.capacity.as_str());
            total = total + g;
            capacity = capacity + c;
            let ty = clean_energy_type(u.unit_type.as_str());
            if is_renewable(ty.as_str()) {
                renewable = renewable + g;
            }
            if is_private(u.unit_type.as_str()) {
                private = private + g;
            }
            add_entry(&mut by_type, ty, g, Ghost(i * MAX_MAGNITUDE));
            match extract_plant_name(u.unit_name.as_str()) {
                Some(p) => {
                    add_entry(&mut plants, p, g, Ghost(i * MAX_MAGNITUDE));
                },
                None => {},
            }
            if g > 0 && !contains_chars(&name, &subtotal) {
                put_entry(&mut unit_gen, u.unit_name.clone(), g);
            }
            match classify_remark(u.remark.as_str()) {
                UnitStatus::Restricted => {
                    restricted = restricted + 1;
                },
                UnitStatus::Maintenance => {
                    maintenance = maintenance + 1;
                },
                UnitStatus::Fault => {
                    faults = faults + 1;
                },
                UnitStatus::Normal => {},
            }
        }
        proof {
            assert(bounded_by(entries_view(by_type@), (i + 1) * MAX_MAGNITUDE));
            assert(bounded_by(entries_view(plants@), (i + 1) * MAX_MAGNITUDE));
            assert(bounded_by(entries_view(unit_gen@), (i + 1) * MAX_MAGNITUDE));
        }
        i = i + 1;
    }
    assert(units@.take(units@.len() as int) =~= units@);
    let top_plant = top_or_unknown_exec(&plants);
    let top_unit = top_or_unknown_exec(&unit_gen);
    let renewable_ratio = share_exec(renewable, total);
    let private_ratio = share_exec(private, total);
    PowerAnalysis {
        update_time: date_time,
        total_generation: total,
        estimated_max_generation: capacity,
        generation_by_type: by_type,
        top_plant,
        top_unit,
        environmental_restrictions: restricted,
        maintenance_count: maintenance,
        fault_count: faults,
        renewable_ratio,
        private_ratio,
    }
}


/// A subtotal row, wherever it stands among the records, changes none of
/// the aggregates: the totals are those of the records without it.
pub proof fn subtotal_rows_are_ignored(a: Seq<PowerUnit>, b: Seq<PowerUnit>, s: PowerUnit)
    requires
        is_subtotal_row(s),
    ensures
        tally(a + seq![s] + b) == tally(a + b),
    decreases b.len(),
{
    if b.len() == 0 {
        assert((a + seq![s] + b).drop_last() =~= a);
        assert(a + b =~= a);
    } else {
        subtotal_rows_are_ignored(a, b.drop_last(), s);
        assert((a + seq![s] + b).drop_last() =~= a + seq![s] + b.drop_last());
        assert((a + b).drop_last() =~= a + b.drop_last());
    }
}

proof fn lemma_zero_generation_total(units: Seq<PowerUnit>)
    requires
        forall|i: int| 0 <= i < units.len() ==> numeric_value(#[trigger] units[i].generation@) == 0,
    ensures
        tally(units).total == 0,
    decreases units.len(),
{
    if units.len() > 0 {
        lemma_zero_generation_total(units.drop_last());
        assert(numeric_value(units[units.len() - 1].generation@) == 0);
    }
}

/// When every record's generation reads as zero, the renewable and private
/// shares are exactly zero.
pub proof fn zero_generation_gives_zero_shares(units: Seq<PowerUnit>, a: PowerAnalysis, time: Seq<char>)
    requires
        analysis_matches(a, units, time),
        forall|i: int| 0 <= i < units.len() ==> numeric_value(#[trigger] units[i].generation@) == 0,
    ensures
        a.total_generation == 0,
        a.renewable_ratio == 0,
        a.private_ratio == 0,
{
    lemma_zero_generation_total(units);
}

} // verus!
