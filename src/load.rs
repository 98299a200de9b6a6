//! The load and reserve body, and its summary.
use vstd::prelude::*;
use crate::json::{get_member, member, Json};
use crate::numeric::{numeric_value, parse_mw_value};
use crate::schema::{str_field, str_member};

verus! {

/// The text of an optional member: `Some(None)` when it is absent or null,
/// `None` when it holds something other than text.
pub open spec fn opt_str_member(fields: Seq<(String, Json)>, k: Seq<char>) -> Option<Option<Seq<char>>> {
    match member(fields, k) {
        None => Some(None),
        Some(Json::Null) => Some(None),
        Some(Json::Str(s)) => Some(Some(s@)),
        _ => None,
    }
}

pub open spec fn opt_view(o: Option<String>) -> Option<Seq<char>> {
    match o {
        Some(s) => Some(s@),
        None => None,
    }
}

fn opt_str_field(fields: &Vec<(String, Json)>, k: &str) -> (r: Option<Option<String>>)
    ensures
        match r {
            Some(o) => opt_str_member(fields@, k@) == Some(opt_view(o)),
            None => opt_str_member(fields@, k@) is None,
        },
{
    match get_member(fields, k) {
        None => Some(None),
        Some(Json::Null) => Some(None),
        Some(Json::Str(s)) => Some(Some(s.clone())),
        _ => None,
    }
}

/// One row of load and reserve data; every field may be missing.
#[derive(Debug)]
pub struct LoadRecord {
    pub current_load: Option<String>,
    pub current_util_rate: Option<String>,
    pub forecast_max_supply_capacity: Option<String>,
    pub forecast_peak_demand_load: Option<String>,
    pub forecast_peak_reserve_capacity: Option<String>,
    pub forecast_peak_reserve_rate: Option<String>,
    pub forecast_peak_reserve_indicator: Option<String>,
    pub forecast_peak_hour_range: Option<String>,
    pub publish_time: Option<String>,
    pub yesterday_date: Option<String>,
    pub yesterday_max_supply_capacity: Option<String>,
    pub yesterday_peak_demand_load: Option<String>,
    pub yesterday_peak_reserve_capacity: Option<String>,
    pub yesterday_peak_reserve_rate: Option<String>,
    pub yesterday_peak_reserve_indicator: Option<String>,
    pub real_hour_max_supply_capacity: Option<String>,
    pub real_hour_peak_time: Option<String>,
}

/// Whether `j` is an object whose record fields are each text, null or absent.
pub open spec fn is_record(j: Json) -> bool {
    match j {
        Json::Object(f) => {
            &&& opt_str_member(f@, "curr_load"@) is Some
            &&& opt_str_member(f@, "curr_util_rate"@) is Some
            &&& opt_str_member(f@, "fore_maxi_sply_capacity"@) is Some
            &&& opt_str_member(f@, "fore_peak_dema_load"@) is Some
            &&& opt_str_member(f@, "fore_peak_resv_capacity"@) is Some
            &&& opt_str_member(f@, "fore_peak_resv_rate"@) is Some
            &&& opt_str_member(f@, "fore_peak_resv_indicator"@) is Some
            &&& opt_str_member(f@, "fore_peak_hour_range"@) is Some
            &&& opt_str_member(f@, "publish_time"@) is Some
            &&& opt_str_member(f@, "yday_date"@) is Some
            &&& opt_str_member(f@, "yday_maxi_sply_capacity"@) is Some
            &&& opt_str_member(f@, "yday_peak_dema_load"@) is Some
            &&& opt_str_member(f@, "yday_peak_resv_capacity"@) is Some
            &&& opt_str_member(f@, "yday_peak_resv_rate"@) is Some
            &&& opt_str_member(f@, "yday_peak_resv_indicator"@) is Some
            &&& opt_str_member(f@, "real_hr_maxi_sply_capacity"@) is Some
            &&& opt_str_member(f@, "real_hr_peak_time"@) is Some
        },
        _ => false,
    }
}

/// Whether `r` holds the fields of the record `j`.
pub open spec fn decodes_record(j: Json, r: LoadRecord) -> bool {
    match j {
        Json::Object(f) => {
            &&& opt_str_member(f@, "curr_load"@) == Some(opt_view(r.current_load))
            &&& opt_str_member(f@, "curr_util_rate"@) == Some(opt_view(r.current_util_rate))
            &&& opt_str_member(f@, "fore_maxi_sply_capacity"@) == Some(opt_view(r.forecast_max_supply_capacity))
            &&& opt_str_member(f@, "fore_peak_dema_load"@) == Some(opt_view(r.forecast_peak_demand_load))
            &&& opt_str_member(f@, "fore_peak_resv_capacity"@) == Some(opt_view(r.forecast_peak_reserve_capacity))
            &&& opt_str_member(f@, "fore_peak_resv_rate"@) == Some(opt_view(r.forecast_peak_reserve_rate))
            &&& opt_str_member(f@, "fore_peak_resv_indicator"@) == Some(opt_view(r.forecast_peak_reserve_indicator))
            &&& opt_str_member(f@, "fore_peak_hour_range"@) == Some(opt_view(r.forecast_peak_hour_range))
            &&& opt_str_member(f@, "publish_time"@) == Some(opt_view(r.publish_time))
            &&& opt_str_member(f@, "yday_date"@) == Some(opt_view(r.yesterday_date))
            &&& opt_str_member(f@, "yday_maxi_sply_capacity"@) == Some(opt_view(r.yesterday_max_supply_capacity))
            &&& opt_str_member(f@, "yday_peak_dema_load"@) == Some(opt_view(r.yesterday_peak_demand_load))
            &&& opt_str_member(f@, "yday_peak_resv_capacity"@) == Some(opt_view(r.yesterday_peak_reserve_capacity))
            &&& opt_str_member(f@, "yday_peak_resv_rate"@) == Some(opt_view(r.yesterday_peak_reserve_rate))
            &&& opt_str_member(f@, "yday_peak_resv_indicator"@) == Some(opt_view(r.yesterday_peak_reserve_indicator))
            &&& opt_str_member(f@, "real_hr_maxi_sply_capacity"@) == Some(opt_view(r.real_hour_max_supply_capacity))
            &&& opt_str_member(f@, "real_hr_peak_time"@) == Some(opt_view(r.real_hour_peak_time))
        },
        _ => false,
    }
}

pub open spec fn all_records(items: Seq<Json>) -> bool {
    forall|i: int| 0 <= i < items.len() ==> is_record(#[trigger] items[i])
}

pub open spec fn decodes_records(items: Seq<Json>, rs: Seq<LoadRecord>) -> bool {
    items.len() == rs.len() && forall|i: int| 0 <= i < items.len() ==> decodes_record(#[trigger] items[i], rs[i])
}

/// Reads one record.
pub fn decode_record(j: &Json) -> (r: Option<LoadRecord>)
    ensures
        match r {
            Some(rec) => decodes_record(*j, rec),
            None => !is_record(*j),
        },
{
    match j {
        Json::Object(fields) => {
            let current_load = match opt_str_field(fields, "curr_load") {
                Some(o) => o,
                None => {
                    return None;
                },
            };
            let current_util_rate = match opt_str_field(fields, "curr_util_rate") {
                Some(o) => o,
                None => {
                    return None;
                },
            };
            let forecast_max_supply_capacity = match opt_str_field(fields, "fore_maxi_sply_capacity") {
                Some(o) => o,
                None => {
                    return None;
                },
            };
            let forecast_peak_demand_load = match opt_str_field(fields, "fore_peak_dema_load") {
                Some(o) => o,
                None => {
                    return None;
                },
            };
            let forecast_peak_reserve_capacity = match opt_str_field(fields, "fore_peak_resv_capacity") {
                Some(o) => o,
                None => {
                    return None;
                },
            };
            let forecast_peak_reserve_rate = match opt_str_field(fields, "fore_peak_resv_rate") {
                Some(o) => o,
                None => {
                    return None;
                },
            };
            let forecast_peak_reserve_indicator = match opt_str_field(fields, "fore_peak_resv_indicator") {
                Some(o) => o,
                None => {
                    return None;
                },
            };
            let forecast_peak_hour_range = match opt_str_field(fields, "fore_peak_hour_range") {
                Some(o) => o,
                None => {
                    return None;
                },
            };
            let publish_time = match opt_str_field(fields, "publish_time") {
                Some(o) => o,
                None => {
                    return None;
                },
            };
            let yesterday_date = match opt_str_field(fields, "yday_date") {
                Some(o) => o,
                None => {
                    return None;
                },
            };
            let yesterday_max_supply_capacity = match opt_str_field(fields, "yday_maxi_sply_capacity") {
                Some(o) => o,
                None => {
                    return None;
                },
            };
            let yesterday_peak_demand_load = match opt_str_field(fields, "yday_peak_dema_load") {
                Some(o) => o,
                None => {
                    return None;
                },
            };
            let yesterday_peak_reserve_capacity = match opt_str_field(fields, "yday_peak_resv_capacity") {
                Some(o) => o,
                None => {
                    return None;
                },
            };
            let yesterday_peak_reserve_rate = match opt_str_field(fields, "yday_peak_resv_rate") {
                Some(o) => o,
                None => {
                    return None;
                },
            };
            let yesterday_peak_reserve_indicator = match opt_str_field(fields, "yday_peak_resv_indicator") {
                Some(o) => o,
                None => {
                    return None;
                },
            };
            let real_hour_max_supply_capacity = match opt_str_field(fields, "real_hr_maxi_sply_capacity") {
                Some(o) => o,
                None => {
                    return None;
                },
            };
            let real_hour_peak_time = match opt_str_field(fields, "real_hr_peak_time") {
                Some(o) => o,
                None => {
                    return None;
                },
            };
            Some(LoadRecord {
                current_load,
                current_util_rate,
                forecast_max_supply_capacity,
                forecast_peak_demand_load,
                forecast_peak_reserve_capacity,
                forecast_peak_reserve_rate,
                forecast_peak_reserve_indicator,
                forecast_peak_hour_range,
                publish_time,
                yesterday_date,
                yesterday_max_supply_capacity,
                yesterday_peak_demand_load,
                yesterday_peak_reserve_capacity,
                yesterday_peak_reserve_rate,
                yesterday_peak_reserve_indicator,
                real_hour_max_supply_capacity,
                real_hour_peak_time,
            })
        },
        _ => None,
    }
}

/// The `result` member of the load envelope.
#[derive(Debug)]
pub struct LoadResult {
    pub resource_id: String,
}

/// The load envelope.
#[derive(Debug)]
pub struct LoadDataResponse {
    pub success: String,
    pub result: LoadResult,
    pub records: Vec<LoadRecord>,
}

/// The parts of a load envelope: `success` text, the `resource_id` text of
/// the `result` object, and the `records` array; `None` when any is missing
/// or of another kind.
pub open spec fn load_parts(j: Json) -> Option<(Seq<char>, Seq<char>, Seq<Json>)> {
    match j {
        Json::Object(f) => match (str_member(f@, "success"@), member(f@, "result"@), member(f@, "records"@)) {
            (Some(s), Some(Json::Object(rf)), Some(Json::Array(items))) => match str_member(rf@, "resource_id"@) {
                Some(id) => if all_records(items@) {
                    Some((s, id, items@))
                } else {
                    None
                },
                None => None,
            },
            _ => None,
        },
        _ => None,
    }
}

/// Resolves a load body; `None` when it is not a well-formed envelope.
pub fn resolve_load(body: &Json) -> (r: Option<LoadDataResponse>)
    ensures
        match r {
            Some(resp) => match load_parts(*body) {
                Some((s, id, items)) => s == resp.success@ && id == resp.result.resource_id@
                    && decodes_records(items, resp.records@),
                None => false,
            },
            None => load_parts(*body) is None,
        },
{
    let f = match body {
        Json::Object(f) => f,
        _ => {
            return None;
        },
    };
    let success = match str_field(f, "success") {
        Some(s) => s,
        None => {
            return None;
        },
    };
    let resource_id = match get_member(f, "result") {
        Some(Json::Object(rf)) => match str_field(rf, "resource_id") {
            Some(id) => id,
            None => {
                return None;
            },
        },
        _ => {
            return None;
        },
    };
    let items = match get_member(f, "records") {
        Some(Json::Array(items)) => items,
        _ => {
            return None;
        },
    };
    let mut records: Vec<LoadRecord> = Vec::new();
    let mut i: usize = 0;
    assert(load_parts(*body) is None <==> !all_records(items@));
    while i < items.len()
        invariant
            load_parts(*body) is None <==> !all_records(items@),
            !all_records(items@) || load_parts(*body) == Some((success@, resource_id@, items@)),
            i <= items@.len(),
            records@.len() == i,
            forall|k: int| 0 <= k < i ==> is_record(#[trigger] items@[k]),
            forall|k: int| 0 <= k < i ==> decodes_record(#[trigger] items@[k], records@[k]),
        decreases items.len() - i,
    {
        match decode_record(&items[i]) {
            Some(rec) => {
                records.push(rec);
            },
            None => {
                assert(!all_records(items@)) by {
                    assert(!is_record(items@[i as int]));
                }
                return None;
            },
        }
        i = i + 1;
    }
    Some(LoadDataResponse { success, result: LoadResult { resource_id }, records })
}

/// Load and reserve figures with missing fields defaulted: numbers in
/// thousandths (of ten MW for loads, of a percent for rates), zero when
/// missing; texts empty when missing.
#[derive(Debug)]
pub struct LoadData {
    pub current_load: i128,
    pub current_util_rate: i128,
    pub forecast_max_supply_capacity: i128,
    pub forecast_peak_demand_load: i128,
    pub forecast_peak_reserve_capacity: i128,
    pub forecast_peak_reserve_rate: i128,
    pub forecast_peak_reserve_indicator: String,
    pub forecast_peak_hour_range: String,
    pub publish_time: String,
    pub yesterday_max_supply_capacity: i128,
    pub yesterday_peak_demand_load: i128,
    pub yesterday_peak_reserve_capacity: i128,
    pub yesterday_peak_reserve_rate: i128,
    pub yesterday_peak_reserve_indicator: String,
    pub real_hour_max_supply_capacity: i128,
    pub real_hour_peak_time: String,
}

/// The summary fields as plain values.
pub struct LoadModel {
    pub current_load: int,
    pub current_util_rate: int,
    pub forecast_max_supply_capacity: int,
    pub forecast_peak_demand_load: int,
    pub forecast_peak_reserve_capacity: int,
    pub forecast_peak_reserve_rate: int,
    pub forecast_peak_reserve_indicator: Seq<char>,
    pub forecast_peak_hour_range: Seq<char>,
    pub publish_time: Seq<char>,
    pub yesterday_max_supply_capacity: int,
    pub yesterday_peak_demand_load: int,
    pub yesterday_peak_reserve_capacity: int,
    pub yesterday_peak_reserve_rate: int,
    pub yesterday_peak_reserve_indicator: Seq<char>,
    pub real_hour_max_supply_capacity: int,
    pub real_hour_peak_time: Seq<char>,
}

pub open spec fn load_view(d: LoadData) -> LoadModel {
    LoadModel {
        current_load: d.current_load as int,
        current_util_rate: d.current_util_rate as int,
        forecast_max_supply_capacity: d.forecast_max_supply_capacity as int,
        forecast_peak_demand_load: d.forecast_peak_demand_load as int,
        forecast_peak_reserve_capacity: d.forecast_peak_reserve_capacity as int,
        forecast_peak_reserve_rate: d.forecast_peak_reserve_rate as int,
        forecast_peak_reserve_indicator: d.forecast_peak_reserve_indicator@,
        forecast_peak_hour_range: d.forecast_peak_hour_range@,
        publish_time: d.publish_time@,
        yesterday_max_supply_capacity: d.yesterday_max_supply_capacity as int,
        yesterday_peak_demand_load: d.yesterday_peak_demand_load as int,
        yesterday_peak_reserve_capacity: d.yesterday_peak_reserve_capacity as int,
        yesterday_peak_reserve_rate: d.yesterday_peak_reserve_rate as int,
        yesterday_peak_reserve_indicator: d.yesterday_peak_reserve_indicator@,
        real_hour_max_supply_capacity: d.real_hour_max_supply_capacity as int,
        real_hour_peak_time: d.real_hour_peak_time@,
    }
}

pub open spec fn empty_model() -> LoadModel {
    LoadModel {
        current_load: 0,
        current_util_rate: 0,
        forecast_max_supply_capacity: 0,
        forecast_peak_demand_load: 0,
        forecast_peak_reserve_capacity: 0,
        forecast_peak_reserve_rate: 0,
        forecast_peak_reserve_indicator: Seq::empty(),
        forecast_peak_hour_range: Seq::empty(),
        publish_time: Seq::empty(),
        yesterday_max_supply_capacity: 0,
        yesterday_peak_demand_load: 0,
        yesterday_peak_reserve_capacity: 0,
        yesterday_peak_reserve_rate: 0,
        yesterday_peak_reserve_indicator: Seq::empty(),
        real_hour_max_supply_capacity: 0,
        real_hour_peak_time: Seq::empty(),
    }
}

/// The summary after one more record: each field it holds replaces the earlier value.
pub open spec fn load_step(m: LoadModel, r: LoadRecord) -> LoadModel {
    LoadModel {
        current_load: match r.current_load {
            Some(s) => numeric_value(s@),
            None => m.current_load,
        },
        current_util_rate: match r.current_util_rate {
            Some(s) => numeric_value(s@),
            None => m.current_util_rate,
        },
        forecast_max_supply_capacity: match r.forecast_max_supply_capacity {
            Some(s) => numeric_value(s@),
            None => m.forecast_max_supply_capacity,
        },
        forecast_peak_demand_load: match r.forecast_peak_demand_load {
            Some(s) => numeric_value(s@),
            None => m.forecast_peak_demand_load,
        },
        forecast_peak_reserve_capacity: match r.forecast_peak_reserve_capacity {
            Some(s) => numeric_value(s@),
            None => m.forecast_peak_reserve_capacity,
        },
        forecast_peak_reserve_rate: match r.forecast_peak_reserve_rate {
            Some(s) => numeric_value(s@),
            None => m.forecast_peak_reserve_rate,
        },
        forecast_peak_reserve_indicator: match r.forecast_peak_reserve_indicator {
            Some(s) => s@,
            None => m.forecast_peak_reserve_indicator,
        },
        forecast_peak_hour_range: match r.forecast_peak_hour_range {
            Some(s) => s@,
            None => m.forecast_peak_hour_range,
        },
        publish_time: match r.publish_time {
            Some(s) => s@,
            None => m.publish_time,
        },
        yesterday_max_supply_capacity: match r.yesterday_max_supply_capacity {
            Some(s) => numeric_value(s@),
            None => m.yesterday_max_supply_capacity,
        },
        yesterday_peak_demand_load: match r.yesterday_peak_demand_load {
            Some(s) => numeric_value(s@),
            None => m.yesterday_peak_demand_load,
        },
        yesterday_peak_reserve_capacity: match r.yesterday_peak_reserve_capacity {
            Some(s) => numeric_value(s@),
            None => m.yesterday_peak_reserve_capacity,
        },
        yesterday_peak_reserve_rate: match r.yesterday_peak_reserve_rate {
            Some(s) => numeric_value(s@),
            None => m.yesterday_peak_reserve_rate,
        },
        yesterday_peak_reserve_indicator: match r.yesterday_peak_reserve_indicator {
            Some(s) => s@,
            None => m.yesterday_peak_reserve_indicator,
        },
        real_hour_max_supply_capacity: match r.real_hour_max_supply_capacity {
            Some(s) => numeric_value(s@),
            None => m.real_hour_max_supply_capacity,
        },
        real_hour_peak_time: match r.real_hour_peak_time {
            Some(s) => s@,
            None => m.real_hour_peak_time,
        },
    }
}

/// The summary of `rs`: for each field, the last record that holds it.
pub open spec fn load_model(rs: Seq<LoadRecord>) -> LoadModel
    decreases rs.len(),
{
    if rs.len() == 0 {
        empty_model()
    } else {
        load_step(load_model(rs.drop_last()), rs.last())
    }
}

/// Summarises the records: for each field, the last record that holds it
/// gives its value, numbers read as `parse_mw_value` reads them.
pub fn normalize_load(records: &Vec<LoadRecord>) -> (r: LoadData)
    ensures
        load_view(r) == load_model(records@),
{
    let mut current_load: i128 = 0;
    let mut current_util_rate: i128 = 0;
    let mut forecast_max_supply_capacity: i128 = 0;
    let mut forecast_peak_demand_load: i128 = 0;
    let mut forecast_peak_reserve_capacity: i128 = 0;
    let mut forecast_peak_reserve_rate: i128 = 0;
    let mut forecast_peak_reserve_indicator: String = String::new();
    let mut forecast_peak_hour_range: String = String::new();
    let mut publish_time: String = String::new();
    let mut yesterday_max_supply_capacity: i128 = 0;
    let mut yesterday_peak_demand_load: i128 = 0;
    let mut yesterday_peak_reserve_capacity: i128 = 0;
    let mut yesterday_peak_reserve_rate: i128 = 0;
    let mut yesterday_peak_reserve_indicator: String = String::new();
    let mut real_hour_max_supply_capacity: i128 = 0;
    let mut real_hour_peak_time: String = String::new();
    let mut i: usize = 0;
    while i < records.len()
        invariant
            i <= records@.len(),
            load_model(records@.take(i as int)) == (LoadModel {
                current_load: current_load as int,
                current_util_rate: current_util_rate as int,
                forecast_max_supply_capacity: forecast_max_supply_capacity as int,
                forecast_peak_demand_load: forecast_peak_demand_load as int,
                forecast_peak_reserve_capacity: forecast_peak_reserve_capacity as int,
                forecast_peak_reserve_rate: forecast_peak_reserve_rate as int,
                forecast_peak_reserve_indicator: forecast_peak_reserve_indicator@,
                forecast_peak_hour_range: forecast_peak_hour_range@,
                publish_time: publish_time@,
                yesterday_max_supply_capacity: yesterday_max_supply_capacity as int,
                yesterday_peak_demand_load: yesterday_peak_demand_load as int,
                yesterday_peak_reserve_capacity: yesterday_peak_reserve_capacity as int,
                yesterday_peak_reserve_rate: yesterday_peak_reserve_rate as int,
                yesterday_peak_reserve_indicator: yesterday_peak_reserve_indicator@,
                real_hour_max_supply_capacity: real_hour_max_supply_capacity as int,
                real_hour_peak_time: real_hour_peak_time@,
            }),
        decreases records.len() - i,
    {
        assert(records@.take(i + 1).drop_last() =~= records@.take(i as int));
        let rec = &records[i];
        if let Some(s) = &rec.current_load {
            current_load = parse_mw_value(s.as_str());
        }
        if let Some(s) = &rec.current_util_rate {
            current_util_rate = parse_mw_value(s.as_str());
        }
        if let Some(s) = &rec.forecast_max_supply_capacity {
            forecast_max_supply_capacity = parse_mw_value(s.as_str());
        }
        if let Some(s) = &rec.forecast_peak_demand_load {
            forecast_peak_demand_load = parse_mw_value(s.as_str());
        }
        if let Some(s) = &rec.forecast_peak_reserve_capacity {
            forecast_peak_reserve_capacity = parse_mw_value(s.as_str());
        }
        if let Some(s) = &rec.forecast_peak_reserve_rate {
            forecast_peak_reserve_rate = parse_mw_value(s.as_str());
        }
        if let Some(s) = &rec.forecast_peak_reserve_indicator {
            forecast_peak_reserve_indicator = s.clone();
        }
        if let Some(s) = &rec.forecast_peak_hour_range {
            forecast_peak_hour_range = s.clone();
        }
        if let Some(s) = &rec.publish_time {
            publish_time = s.clone();
        }
        if let Some(s) = &rec.yesterday_max_supply_capacity {
            yesterday_max_supply_capacity = parse_mw_value(s.as_str());
        }
        if let Some(s) = &rec.yesterday_peak_demand_load {
            yesterday_peak_demand_load = parse_mw_value(s.as_str());
        }
        if let Some(s) = &rec.yesterday_peak_reserve_capacity {
            yesterday_peak_reserve_capacity = parse_mw_value(s.as_str());
        }
        if let Some(s) = &rec.yesterday_peak_reserve_rate {
            yesterday_peak_reserve_rate = parse_mw_value(s.as_str());
        }
        if let Some(s) = &rec.yesterday_peak_reserve_indicator {
            yesterday_peak_reserve_indicator = s.clone();
        }
        if let Some(s) = &rec.real_hour_max_supply_capacity {
            real_hour_max_supply_capacity = parse_mw_value(s.as_str());
        }
        if let Some(s) = &rec.real_hour_peak_time {
            real_hour_peak_time = s.clone();
        }
        i = i + 1;
    }
    assert(records@.take(records@.len() as int) =~= records@);
    LoadData {
        current_load,
        current_util_rate,
        forecast_max_supply_capacity,
        forecast_peak_demand_load,
        forecast_peak_reserve_capacity,
        forecast_peak_reserve_rate,
        forecast_peak_reserve_indicator,
        forecast_peak_hour_range,
        publish_time,
        yesterday_max_supply_capacity,
        yesterday_peak_demand_load,
        yesterday_peak_reserve_capacity,
        yesterday_peak_reserve_rate,
        yesterday_peak_reserve_indicator,
        real_hour_max_supply_capacity,
        real_hour_peak_time,
    }
}

} // verus!
