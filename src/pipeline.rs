//! One run of the pipeline as decisions over fetch outcomes: the caller
//! performs each fetch and hands back what came of it.
use vstd::prelude::*;
use crate::analysis::{analysis_matches, analyze_power_data, PowerAnalysis};
use crate::json::Json;
use crate::load::{load_model, load_parts, load_view, normalize_load, resolve_load, LoadData};
use crate::schema::{
    alternative_items, bare_items, decodes_units, resolve_units, standard_parts,
    AlternativePowerData, GenerationBody, PowerData,
};

verus! {

/// The text chrono gives for a UTC instant, `YYYY-MM-DD HH:MM:SS`, or
/// `None` when the instant is out of chrono's range.
pub uninterp spec fn utc_label_of(secs: i64, nanos: u32) -> Option<Seq<char>>;

#[verifier::external_type_specification]
#[verifier::external_body]
pub struct ExSystemTime(std::time::SystemTime);

/// Relies on std's `SystemTime::now`: a reading of the system clock.
/// Nothing is known of the value.
#[verifier::external_body]
fn system_now() -> (r: std::time::SystemTime) {
    std::time::SystemTime::now()
}

/// Relies on std's `SystemTime::duration_since(UNIX_EPOCH)`: whole seconds
/// and the nanoseconds past them since the epoch (under one billion, as
/// `Duration::subsec_nanos` documents), `None` when `t` is before it.
#[verifier::external_body]
fn since_epoch(t: &std::time::SystemTime) -> (r: Option<(u64, u32)>)
    ensures
        r matches Some(x) ==> x.1 < 1_000_000_000,
{
    match t.duration_since(std::time::UNIX_EPOCH) {
        Ok(d) => Some((d.as_secs(), d.subsec_nanos())),
        Err(_) => None,
    }
}

/// Relies on chrono's `DateTime::from_timestamp` (`None` when the instant is
/// out of its range) and `format("%Y-%m-%d %H:%M:%S")`: the text of the
/// instant, which depends on the two numbers alone.
#[verifier::external_body]
fn utc_label(secs: i64, nanos: u32) -> (r: Option<String>)
    ensures
        match r {
            Some(s) => utc_label_of(secs, nanos) == Some(s@),
            None => utc_label_of(secs, nanos) is None,
        },
{
    match chrono::DateTime::from_timestamp(secs, nanos) {
        Some(d) => Some(d.format("%Y-%m-%d %H:%M:%S").to_string()),
        None => None,
    }
}

/// Stamp used when the clock cannot be read or written out.
pub open spec fn unknown_stamp() -> Seq<char> {
    seq!['未', '知']
}

/// Whether `t` is a stamp the clock can give: chrono's text of some instant
/// at or after the epoch, or the unknown stamp.
pub open spec fn is_clock_stamp(t: Seq<char>) -> bool {
    t == unknown_stamp() || exists|secs: i64, nanos: u32|
        0 <= secs && nanos < 1_000_000_000 && utc_label_of(secs, nanos) == Some(t)
}

/// The stamp of an instant: chrono's text for it, or the unknown stamp when
/// the seconds do not fit an `i64` or chrono cannot write it out.
pub open spec fn stamp_text(secs: int, nanos: u32) -> Seq<char> {
    if secs <= i64::MAX {
        match utc_label_of(secs as i64, nanos) {
            Some(t) => t,
            None => unknown_stamp(),
        }
    } else {
        unknown_stamp()
    }
}

/// The stamp for an instant given as seconds and nanoseconds since the
/// epoch: its text, or the unknown stamp when it cannot be written out.
pub fn stamp_of_instant(secs: u64, nanos: u32) -> (r: String)
    ensures
        r@ == stamp_text(secs as int, nanos),
{
    let unknown = "未知";
    proof {
        reveal_strlit("未知");
        assert(unknown@ =~= unknown_stamp());
    }
    if secs > i64::MAX as u64 {
        return String::from_str(unknown);
    }
    match utc_label(secs as i64, nanos) {
        Some(s) => s,
        None => String::from_str(unknown),
    }
}

/// The current UTC time as a stamp; the unknown stamp when the clock reads
/// before the epoch or beyond what can be written out.
fn current_stamp() -> (r: String)
    ensures
        is_clock_stamp(r@),
{
    let now = system_now();
    match since_epoch(&now) {
        Some((secs, nanos)) => {
            let r = stamp_of_instant(secs, nanos);
            proof {
                if r@ != unknown_stamp() {
                    assert(utc_label_of(secs as i64, nanos) == Some(r@));
                }
            }
            r
        },
        None => {
            let unknown = "未知";
            proof {
                reveal_strlit("未知");
                assert(unknown@ =~= unknown_stamp());
            }
            String::from_str(unknown)
        },
    }
}

/// Analyses data that carries its own timestamp.
pub fn analyze_power_data_from_standard(data: PowerData) -> (r: PowerAnalysis)
    ensures
        analysis_matches(r, data.aa_data@, data.date_time@),
{
    analyze_power_data(data.aa_data, data.date_time)
}

/// Analyses data without a timestamp, stamped with the current UTC time
/// (the unknown stamp when the clock cannot give one).
pub fn analyze_power_data_from_alternative(data: AlternativePowerData) -> (r: PowerAnalysis)
    ensures
        analysis_matches(r, data.datas@, r.update_time@),
        is_clock_stamp(r.update_time@),
{
    let date_time = current_stamp();
    analyze_power_data(data.datas, date_time)
}

/// Analyses a resolved body; unstamped data is stamped with the current UTC time.
pub fn analyze_body(body: GenerationBody) -> (r: PowerAnalysis)
    ensures
        match body {
            GenerationBody::Standard(d) => analysis_matches(r, d.aa_data@, d.date_time@),
            GenerationBody::Alternative(d) => analysis_matches(r, d.datas@, r.update_time@)
                && is_clock_stamp(r.update_time@),
            GenerationBody::Units(us) => analysis_matches(r, us@, r.update_time@) && is_clock_stamp(
                r.update_time@,
            ),
        },
{
    match body {
        GenerationBody::Standard(d) => analyze_power_data_from_standard(d),
        GenerationBody::Alternative(d) => analyze_power_data_from_alternative(d),
        GenerationBody::Units(us) => {
            let date_time = current_stamp();
            analyze_power_data(us, date_time)
        },
    }
}

/// Number of generation endpoints, tried in order.
pub const GENERATION_ENDPOINT_COUNT: usize = 3;

/// The generation endpoint tried at position `i`.
pub fn generation_endpoint(i: usize) -> (r: &'static str)
    requires
        i < GENERATION_ENDPOINT_COUNT,
    ensures
        i == 0 ==> r@ == "https://www.taipower.com.tw/d006/loadGraph/loadGraph/data/genloadareaperc.json"@,
        i == 1 ==> r@ == "https://service.taipower.com.tw/data/opendata/apply/file/d006001/001.json"@,
        i == 2 ==> r@ == "https://www.taipower.com.tw/d006/loadGraph/loadGraph/data/genary.json"@,
{
    if i == 0 {
        "https://www.taipower.com.tw/d006/loadGraph/loadGraph/data/genloadareaperc.json"
    } else if i == 1 {
        "https://service.taipower.com.tw/data/opendata/apply/file/d006001/001.json"
    } else {
        "https://www.taipower.com.tw/d006/loadGraph/loadGraph/data/genary.json"
    }
}

/// The load and reserve endpoint.
pub fn load_endpoint() -> (r: &'static str)
    ensures
        r@ == "https://service.taipower.com.tw/data/opendata/apply/file/d006020/001.json"@,
{
    "https://service.taipower.com.tw/data/opendata/apply/file/d006020/001.json"
}

/// What came of one fetch.
#[derive(Debug)]
pub enum FetchOutcome {
    /// The request failed in transport or timed out.
    NetworkFailure,
    /// The server answered with a status outside 2xx.
    StatusFailure(u16),
    /// The body is not JSON.
    Malformed,
    /// The body, decoded.
    Body(Json),
}

/// What to do next in the generation fetch.
#[derive(Debug)]
pub enum FetchStep {
    /// Fetch the endpoint at this position.
    Fetch(usize),
    /// An endpoint gave a resolvable body; here is its analysis.
    Done(PowerAnalysis),
    /// Every endpoint failed.
    Exhausted,
}

/// The first step: the first endpoint.
pub fn first_step() -> (r: FetchStep)
    ensures
        r matches FetchStep::Fetch(0),
{
    FetchStep::Fetch(0)
}

/// The step after a failure at endpoint `i`.
pub open spec fn after_failure(i: int) -> Option<int> {
    if i + 1 < GENERATION_ENDPOINT_COUNT {
        Some(i + 1)
    } else {
        None
    }
}

/// Whether `b` resolves a generation body.
pub open spec fn resolvable(b: Json) -> bool {
    standard_parts(b) is Some || alternative_items(b) is Some || bare_items(b) is Some
}

/// The analysis of a body in the first of the stamped, `datas` and bare-array
/// shapes that it matches; unstamped shapes with the stamp `a` carries, one
/// that the clock can give.
pub open spec fn analysis_of_body(a: PowerAnalysis, b: Json) -> bool {
    match standard_parts(b) {
        Some((t, items)) => exists|us: Seq<crate::analysis::PowerUnit>|
            decodes_units(items, us) && analysis_matches(a, us, t),
        None => match alternative_items(b) {
            Some(items) => is_clock_stamp(a.update_time@) && exists|us: Seq<crate::analysis::PowerUnit>|
                decodes_units(items, us) && analysis_matches(a, us, a.update_time@),
            None => match bare_items(b) {
                Some(items) => is_clock_stamp(a.update_time@) && exists|
                    us: Seq<crate::analysis::PowerUnit>,
                | decodes_units(items, us) && analysis_matches(a, us, a.update_time@),
                None => false,
            },
        },
    }
}

/// Decides the next step after fetching endpoint `i`: a body that resolves
/// ends the fetch with its analysis; anything else moves on to the next
/// endpoint, or gives up after the last.
pub fn next_step(i: usize, outcome: FetchOutcome) -> (r: FetchStep)
    requires
        i < GENERATION_ENDPOINT_COUNT,
    ensures
        match outcome {
            FetchOutcome::Body(b) if resolvable(b) => match r {
                FetchStep::Done(a) => analysis_of_body(a, b),
                _ => false,
            },
            _ => match after_failure(i as int) {
                Some(n) => r matches FetchStep::Fetch(k) && k == n,
                None => r matches FetchStep::Exhausted,
            },
        },
{
    match outcome {
        FetchOutcome::Body(b) => {
            match resolve_units(&b) {
                Some(body) => {
                    let a = analyze_body(body);
                    return FetchStep::Done(a);
                },
                None => {},
            }
        },
        _ => {},
    }
    if i + 1 < GENERATION_ENDPOINT_COUNT {
        FetchStep::Fetch(i + 1)
    } else {
        FetchStep::Exhausted
    }
}

/// The load summary from the one load fetch: present exactly when the body
/// is a well-formed load envelope.
pub fn load_from_outcome(outcome: FetchOutcome) -> (r: Option<LoadData>)
    ensures
        match outcome {
            FetchOutcome::Body(b) => match load_parts(b) {
                Some((_, _, items)) => r matches Some(d) && exists|rs: Seq<crate::load::LoadRecord>|
                    crate::load::decodes_records(items, rs) && load_view(d) == load_model(rs),
                None => r is None,
            },
            _ => r is None,
        },
{
    match outcome {
        FetchOutcome::Body(b) => match resolve_load(&b) {
            Some(resp) => Some(normalize_load(&resp.records)),
            None => None,
        },
        _ => None,
    }
}

} // verus!
