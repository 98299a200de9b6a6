//! The shapes in which the utility publishes generation data, and their
//! resolution into unit records.
use vstd::prelude::*;
use crate::analysis::PowerUnit;
use crate::json::{get_member, member, Json};

verus! {

/// The text of member `k`, when it is a string.
pub open spec fn str_member(fields: Seq<(String, Json)>, k: Seq<char>) -> Option<Seq<char>> {
    match member(fields, k) {
        Some(Json::Str(s)) => Some(s@),
        _ => None,
    }
}

/// Whether `j` is an object with all six text fields of a unit row.
pub open spec fn is_unit(j: Json) -> bool {
    match j {
        Json::Object(f) => {
            &&& str_member(f@, "機組類型"@) is Some
            &&& str_member(f@, "機組名稱"@) is Some
            &&& str_member(f@, "裝置容量(MW)"@) is Some
            &&& str_member(f@, "淨發電量(MW)"@) is Some
            &&& str_member(f@, "淨發電量/裝置容量比(%)"@) is Some
            &&& str_member(f@, "備註"@) is Some
        },
        _ => false,
    }
}

/// Whether `u` holds the fields of the unit row `j`.
pub open spec fn decodes_unit(j: Json, u: PowerUnit) -> bool {
    match j {
        Json::Object(f) => {
            &&& str_member(f@, "機組類型"@) == Some(u.unit_type@)
            &&& str_member(f@, "機組名稱"@) == Some(u.unit_name@)
            &&& str_member(f@, "裝置容量(MW)"@) == Some(u.capacity@)
            &&& str_member(f@, "淨發電量(MW)"@) == Some(u.generation@)
            &&& str_member(f@, "淨發電量/裝置容量比(%)"@) == Some(u.ratio@)
            &&& str_member(f@, "備註"@) == Some(u.remark@)
        },
        _ => false,
    }
}

pub open spec fn all_units(items: Seq<Json>) -> bool {
    forall|i: int| 0 <= i < items.len() ==> is_unit(#[trigger] items[i])
}

/// Whether `us` holds, one for one, the unit rows `items`.
pub open spec fn decodes_units(items: Seq<Json>, us: Seq<PowerUnit>) -> bool {
    items.len() == us.len() && forall|i: int| 0 <= i < items.len() ==> decodes_unit(#[trigger] items[i], us[i])
}

/// The stamped shape: an object with a `DateTime` text and an `aaData` array of rows.
pub open spec fn standard_parts(j: Json) -> Option<(Seq<char>, Seq<Json>)> {
    match j {
        Json::Object(f) => match (str_member(f@, "DateTime"@), member(f@, "aaData"@)) {
            (Some(t), Some(Json::Array(items))) => if all_units(items@) {
                Some((t, items@))
            } else {
                None
            },
            _ => None,
        },
        _ => None,
    }
}

/// The `datas` shape: an object with a `datas` array of rows.
pub open spec fn alternative_items(j: Json) -> Option<Seq<Json>> {
    match j {
        Json::Object(f) => match member(f@, "datas"@) {
            Some(Json::Array(items)) => if all_units(items@) {
                Some(items@)
            } else {
                None
            },
            _ => None,
        },
        _ => None,
    }
}

/// The bare-array shape: an array of rows.
pub open spec fn bare_items(j: Json) -> Option<Seq<Json>> {
    match j {
        Json::Array(items) => if all_units(items@) {
            Some(items@)
        } else {
            None
        },
        _ => None,
    }
}

/// Generation data stamped by the utility.
#[derive(Debug)]
pub struct PowerData {
    pub date_time: String,
    pub aa_data: Vec<PowerUnit>,
}

/// Generation data without a timestamp.
#[derive(Debug)]
pub struct AlternativePowerData {
    pub datas: Vec<PowerUnit>,
}

/// A generation body resolved into one of its three shapes.
#[derive(Debug)]
pub enum GenerationBody {
    Standard(PowerData),
    Alternative(AlternativePowerData),
    Units(Vec<PowerUnit>),
}

/// The text of member `k`, when it is a string.
pub fn str_field(fields: &Vec<(String, Json)>, k: &str) -> (r: Option<String>)
    ensures
        match r {
            Some(s) => str_member(fields@, k@) == Some(s@),
            None => str_member(fields@, k@) is None,
        },
{
    match get_member(fields, k) {
        Some(Json::Str(s)) => Some(s.clone()),
        _ => None,
    }
}

/// Reads one unit row.
pub fn decode_unit(j: &Json) -> (r: Option<PowerUnit>)
    ensures
        match r {
            Some(u) => decodes_unit(*j, u),
            None => !is_unit(*j),
        },
{
    match j {
        Json::Object(f) => {
            let unit_type = match str_field(f, "機組類型") {
                Some(s) => s,
                None => {
                    return None;
                },
            };
            let unit_name = match str_field(f, "機組名稱") {
                Some(s) => s,
                None => {
                    return None;
                },
            };
            let capacity = match str_field(f, "裝置容量(MW)") {
                Some(s) => s,
                None => {
                    return None;
                },
            };
            let generation = match str_field(f, "淨發電量(MW)") {
                Some(s) => s,
                None => {
                    return None;
                },
            };
            let ratio = match str_field(f, "淨發電量/裝置容量比(%)") {
                Some(s) => s,
                None => {
                    return None;
                },
            };
            let remark = match str_field(f, "備註") {
                Some(s) => s,
                None => {
                    return None;
                },
            };
            Some(PowerUnit { unit_type, unit_name, capacity, generation, ratio, remark })
        },
        _ => None,
    }
}

/// Reads an array of unit rows; `None` when any element is not one.
pub fn decode_units(items: &Vec<Json>) -> (r: Option<Vec<PowerUnit>>)
    ensures
        match r {
            Some(us) => all_units(items@) && decodes_units(items@, us@),
            None => !all_units(items@),
        },
{
    let mut us: Vec<PowerUnit> = Vec::new();
    let mut i: usize = 0;
    while i < items.len()
        invariant
            i <= items@.len(),
            us@.len() == i,
            forall|k: int| 0 <= k < i ==> is_unit(#[trigger] items@[k]),
            forall|k: int| 0 <= k < i ==> decodes_unit(#[trigger] items@[k], us@[k]),
        decreases items.len() - i,
    {
        match decode_unit(&items[i]) {
            Some(u) => {
                assert(is_unit(items@[i as int]));
                us.push(u);
            },
            None => {
                return None;
            },
        }
        i = i + 1;
    }
    Some(us)
}

/// Resolves a generation body: the stamped shape first, then the `datas`
/// shape, then a bare array; the first that matches wins, and `None` when
/// none does.
pub fn resolve_units(body: &Json) -> (r: Option<GenerationBody>)
    ensures
        match r {
            Some(GenerationBody::Standard(d)) => match standard_parts(*body) {
                Some((t, items)) => t == d.date_time@ && decodes_units(items, d.aa_data@),
                None => false,
            },
            Some(GenerationBody::Alternative(d)) => standard_parts(*body) is None && match alternative_items(*body) {
                Some(items) => decodes_units(items, d.datas@),
                None => false,
            },
            Some(GenerationBody::Units(us)) => standard_parts(*body) is None && alternative_items(*body) is None
                && match bare_items(*body) {
                Some(items) => decodes_units(items, us@),
                None => false,
            },
            None => standard_parts(*body) is None && alternative_items(*body) is None && bare_items(*body) is None,
        },
{
    match body {
        Json::Object(f) => {
            let stamp = str_field(f, "DateTime");
            match (stamp, get_member(f, "aaData")) {
                (Some(t), Some(Json::Array(items))) => {
                    match decode_units(items) {
                        Some(us) => {
                            return Some(GenerationBody::Standard(PowerData { date_time: t, aa_data: us }));
                        },
                        None => {},
                    }
                },
                _ => {},
            }
            match get_member(f, "datas") {
                Some(Json::Array(items)) => match decode_units(items) {
                    Some(us) => Some(GenerationBody::Alternative(AlternativePowerData { datas: us })),
                    None => None,
                },
                _ => None,
            }
        },
        Json::Array(items) => match decode_units(items) {
            Some(us) => Some(GenerationBody::Units(us)),
            None => None,
        },
        _ => None,
    }
}

} // verus!
