use power_report::analysis::{analyze_power_data, PowerUnit};
use power_report::json::Json;
use power_report::load::{normalize_load, resolve_load, LoadRecord};
use power_report::pipeline::{
    analyze_power_data_from_alternative, first_step, generation_endpoint, load_endpoint,
    load_from_outcome, next_step, stamp_of_instant, FetchOutcome, FetchStep,
};
use power_report::report::{format_combined_power_message, sorted_by_generation, CombinedPowerData};
use power_report::schema::{resolve_units, AlternativePowerData, GenerationBody};

fn unit(t: &str, name: &str, cap: &str, gen: &str, remark: &str) -> PowerUnit {
    PowerUnit {
        unit_type: t.to_string(),
        unit_name: name.to_string(),
        capacity: cap.to_string(),
        generation: gen.to_string(),
        ratio: "0".to_string(),
        remark: remark.to_string(),
    }
}

fn s(x: &str) -> Json {
    Json::Str(x.to_string())
}

fn unit_json(t: &str, name: &str, cap: &str, gen: &str) -> Json {
    Json::Object(vec![
        ("機組類型".to_string(), s(t)),
        ("機組名稱".to_string(), s(name)),
        ("裝置容量(MW)".to_string(), s(cap)),
        ("淨發電量(MW)".to_string(), s(gen)),
        ("淨發電量/裝置容量比(%)".to_string(), s("50%")),
        ("備註".to_string(), s("")),
    ])
}

#[test]
fn subtotal_row_excluded() {
    let a = analyze_power_data(
        vec![unit("燃煤", "台中#1", "550", "500", ""), unit("燃煤", "小計", "550", "500", "故障")],
        "t".to_string(),
    );
    assert_eq!(a.total_generation, 500_000);
    assert_eq!(a.estimated_max_generation, 550_000);
    assert_eq!(a.generation_by_type, vec![("燃煤".to_string(), 500_000)]);
    assert_eq!(a.fault_count, 0);
    assert_eq!(a.top_unit, ("台中#1".to_string(), 500_000));
}

#[test]
fn zero_generation_ratios() {
    let a = analyze_power_data(
        vec![unit("風力", "彰工#1", "10", "0", ""), unit("民營電廠-燃氣", "星元#1", "10", "-", "")],
        "t".to_string(),
    );
    assert_eq!(a.total_generation, 0);
    assert_eq!(a.renewable_ratio, 0);
    assert_eq!(a.private_ratio, 0);
    assert_eq!(a.top_unit, ("未知".to_string(), 0));
}

#[test]
fn empty_input_defaults() {
    let a = analyze_power_data(vec![], "t".to_string());
    assert_eq!(a.top_plant, ("未知".to_string(), 0));
    assert_eq!(a.top_unit, ("未知".to_string(), 0));
    assert!(a.generation_by_type.is_empty());
    assert_eq!(a.update_time, "t");
}

#[test]
fn top_plant_and_unit() {
    let a = analyze_power_data(
        vec![unit("燃煤", "A#1", "10", "10", ""), unit("燃煤", "B#1", "20", "20", "")],
        "t".to_string(),
    );
    assert_eq!(a.top_plant, ("B".to_string(), 20_000));
    assert_eq!(a.top_unit, ("B#1".to_string(), 20_000));
}

#[test]
fn plant_generation_accumulates() {
    let a = analyze_power_data(
        vec![
            unit("燃煤", "A#1", "10", "15", ""),
            unit("燃煤", "B#1", "20", "20", ""),
            unit("燃煤", "A#2", "10", "15", ""),
        ],
        "t".to_string(),
    );
    assert_eq!(a.top_plant, ("A".to_string(), 30_000));
    assert_eq!(a.top_unit, ("B#1".to_string(), 20_000));
}

#[test]
fn status_counts_and_private_share() {
    let a = analyze_power_data(
        vec![
            unit("民營電廠-燃煤", "麥寮#1", "600", "300", "環保限制"),
            unit("燃煤", "台中#2", "550", "100", "歲修"),
            unit("燃氣", "大潭#1", "500", "0", "故障"),
            unit("太陽能", "太陽能", "100", "100", ""),
        ],
        "t".to_string(),
    );
    assert_eq!(a.environmental_restrictions, 1);
    assert_eq!(a.maintenance_count, 1);
    assert_eq!(a.fault_count, 1);
    assert_eq!(a.private_ratio, 60_000);
    assert_eq!(a.renewable_ratio, 20_000);
    assert_eq!(
        a.generation_by_type,
        vec![
            ("民營燃煤".to_string(), 300_000),
            ("燃煤".to_string(), 100_000),
            ("燃氣".to_string(), 0),
            ("太陽能".to_string(), 100_000),
        ]
    );
}

#[test]
fn later_duplicate_unit_overwrites() {
    let a = analyze_power_data(
        vec![unit("燃煤", "X", "10", "30", ""), unit("燃煤", "X", "10", "5", "")],
        "t".to_string(),
    );
    assert_eq!(a.top_unit, ("X".to_string(), 5_000));
    assert_eq!(a.top_plant, ("X".to_string(), 35_000));
}

#[test]
fn standard_shape_wins() {
    let body = Json::Object(vec![
        ("DateTime".to_string(), s("2024-01-01 10:00")),
        ("aaData".to_string(), Json::Array(vec![unit_json("風力", "W#1", "10", "5")])),
        ("datas".to_string(), Json::Array(vec![])),
    ]);
    match resolve_units(&body) {
        Some(GenerationBody::Standard(d)) => {
            assert_eq!(d.date_time, "2024-01-01 10:00");
            assert_eq!(d.aa_data.len(), 1);
            assert_eq!(d.aa_data[0].generation, "5");
        }
        other => panic!("unexpected {:?}", other),
    }
}

#[test]
fn bare_array_shape_resolves() {
    let body = Json::Array(vec![unit_json("風力", "W#1", "10", "5")]);
    assert!(matches!(resolve_units(&body), Some(GenerationBody::Units(us)) if us.len() == 1));
}

#[test]
fn unresolvable_shapes() {
    assert!(resolve_units(&Json::Null).is_none());
    let bad_row = Json::Array(vec![Json::Object(vec![("機組類型".to_string(), s("風力"))])]);
    assert!(resolve_units(&bad_row).is_none());
    let no_stamp = Json::Object(vec![("aaData".to_string(), Json::Array(vec![]))]);
    assert!(resolve_units(&no_stamp).is_none());
}

#[test]
fn fallback_to_second_endpoint() {
    assert!(matches!(first_step(), FetchStep::Fetch(0)));
    let step = next_step(0, FetchOutcome::Malformed);
    assert!(matches!(step, FetchStep::Fetch(1)));
    let body = Json::Object(vec![(
        "datas".to_string(),
        Json::Array(vec![unit_json("風力", "W#1", "10", "5"), unit_json("燃煤", "C#1", "20", "15")]),
    )]);
    match next_step(1, FetchOutcome::Body(body)) {
        FetchStep::Done(a) => {
            assert_eq!(a.total_generation, 20_000);
            assert_eq!(a.renewable_ratio, 25_000);
            assert_eq!(
                a.generation_by_type,
                vec![("風力".to_string(), 5_000), ("燃煤".to_string(), 15_000)]
            );
        }
        other => panic!("unexpected {:?}", other),
    }
}

#[test]
fn all_endpoints_exhausted() {
    assert!(matches!(next_step(0, FetchOutcome::NetworkFailure), FetchStep::Fetch(1)));
    assert!(matches!(next_step(1, FetchOutcome::StatusFailure(404)), FetchStep::Fetch(2)));
    assert!(matches!(next_step(2, FetchOutcome::Body(Json::Bool(true))), FetchStep::Exhausted));
}

#[test]
fn clock_stamp_for_unstamped_data() {
    let a = analyze_power_data_from_alternative(AlternativePowerData {
        datas: vec![unit("風力", "W#1", "10", "5", "")],
    });
    assert_eq!(a.update_time.chars().count(), 19);
    assert_eq!(&a.update_time[4..5], "-");
    assert_eq!(a.total_generation, 5_000);
}

fn record(load: Option<&str>, ind: Option<&str>) -> LoadRecord {
    LoadRecord {
        current_load: load.map(|x| x.to_string()),
        current_util_rate: None,
        forecast_max_supply_capacity: None,
        forecast_peak_demand_load: None,
        forecast_peak_reserve_capacity: None,
        forecast_peak_reserve_rate: None,
        forecast_peak_reserve_indicator: ind.map(|x| x.to_string()),
        forecast_peak_hour_range: None,
        publish_time: None,
        yesterday_date: None,
        yesterday_max_supply_capacity: None,
        yesterday_peak_demand_load: None,
        yesterday_peak_reserve_capacity: None,
        yesterday_peak_reserve_rate: None,
        yesterday_peak_reserve_indicator: None,
        real_hour_max_supply_capacity: None,
        real_hour_peak_time: None,
    }
}

#[test]
fn load_fields_default_and_last_wins() {
    let d = normalize_load(&vec![record(Some("3,000.5"), Some("G")), record(None, Some("R"))]);
    assert_eq!(d.current_load, 3_000_500);
    assert_eq!(d.forecast_peak_reserve_indicator, "R");
    assert_eq!(d.current_util_rate, 0);
    assert_eq!(d.publish_time, "");
}

#[test]
fn load_envelope_resolution() {
    let body = Json::Object(vec![
        ("success".to_string(), s("true")),
        ("result".to_string(), Json::Object(vec![("resource_id".to_string(), s("x"))])),
        (
            "records".to_string(),
            Json::Array(vec![Json::Object(vec![
                ("curr_load".to_string(), s("2800")),
                ("publish_time".to_string(), Json::Null),
            ])]),
        ),
    ]);
    let r = resolve_load(&body).unwrap();
    assert_eq!(r.records.len(), 1);
    assert_eq!(r.records[0].current_load, Some("2800".to_string()));
    assert_eq!(r.records[0].publish_time, None);
    let d = load_from_outcome(FetchOutcome::Body(body)).unwrap();
    assert_eq!(d.current_load, 2_800_000);
    let bad = Json::Object(vec![("records".to_string(), Json::Array(vec![]))]);
    assert!(resolve_load(&bad).is_none());
}

#[test]
fn load_failure_keeps_generation_report() {
    assert!(load_from_outcome(FetchOutcome::StatusFailure(500)).is_none());
    let a = analyze_power_data(vec![unit("燃煤", "A#1", "40", "10", "")], "2024".to_string());
    let msg = format_combined_power_message(&CombinedPowerData { power_analysis: a, load_data: None });
    assert!(!msg.contains("電力供需資訊"));
    assert!(msg.contains("發電機組資訊"));
    assert!(msg.contains("**總發電量**: 10.0 MW"));
    assert!(msg.contains("**發電占比**: 25.0%"));
    assert!(msg.contains("   • 燃煤: 10.0 MW\n"));
    assert!(msg.contains("A (10.0 MW)"));
}

#[test]
fn report_with_load_section() {
    let mut r = record(Some("2800.25"), Some("R"));
    r.forecast_peak_reserve_rate = Some("6.789".to_string());
    r.real_hour_max_supply_capacity = Some("0".to_string());
    let d = normalize_load(&vec![r]);
    let a = analyze_power_data(
        vec![unit("燃煤", "A#1", "40", "10", ""), unit("風力", "W#1", "40", "30", "")],
        "2024".to_string(),
    );
    let msg = format_combined_power_message(&CombinedPowerData { power_analysis: a, load_data: Some(d) });
    assert!(msg.contains("**目前用電量**: 2800.2 萬瓩"));
    assert!(msg.contains("🔴 **預估今日尖峰備轉容量率**: 6.78%"));
    assert!(!msg.contains("即時尖峰資訊"));
    let wind = msg.find("• 風力").unwrap();
    let coal = msg.find("• 燃煤").unwrap();
    assert!(wind < coal);
    assert!(msg.contains("**再生能源占比**: 75.0%"));
}

#[test]
fn sort_is_descending_and_stable() {
    let l = vec![("a".to_string(), 1), ("b".to_string(), 3), ("c".to_string(), 1), ("d".to_string(), 2)];
    let names: Vec<String> = sorted_by_generation(&l).into_iter().map(|e| e.0).collect();
    assert_eq!(names, vec!["b", "d", "a", "c"]);
}

#[test]
fn stamp_of_epoch_instant() {
    assert_eq!(stamp_of_instant(0, 0), "1970-01-01 00:00:00");
    assert_eq!(stamp_of_instant(1_700_000_000, 5), "2023-11-14 22:13:20");
}

#[test]
fn stamp_out_of_range_is_unknown() {
    assert_eq!(stamp_of_instant(u64::MAX, 0), "未知");
    assert_eq!(stamp_of_instant(i64::MAX as u64, 0), "未知");
}

#[test]
fn endpoints_in_order() {
    assert!(generation_endpoint(0).ends_with("genloadareaperc.json"));
    assert!(generation_endpoint(1).ends_with("d006001/001.json"));
    assert!(generation_endpoint(2).ends_with("genary.json"));
    assert!(load_endpoint().ends_with("d006020/001.json"));
}
