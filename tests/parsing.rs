use power_report::numeric::parse_mw_value;
use power_report::rules::{
    classify_remark, clean_energy_type, extract_plant_name, get_reserve_indicator_emoji,
    is_renewable, UnitStatus,
};

#[test]
fn parse_thousands_separator() {
    assert_eq!(parse_mw_value("1,234"), 1_234_000);
}

#[test]
fn parse_parenthetical_note() {
    assert_eq!(parse_mw_value("5(note)"), 5_000);
}

#[test]
fn parse_placeholders_are_zero() {
    assert_eq!(parse_mw_value("-"), 0);
    assert_eq!(parse_mw_value(""), 0);
    assert_eq!(parse_mw_value("N/A"), 0);
}

#[test]
fn parse_malformed_is_zero() {
    assert_eq!(parse_mw_value("abc"), 0);
    assert_eq!(parse_mw_value("1.2.3"), 0);
    assert_eq!(parse_mw_value("."), 0);
    assert_eq!(parse_mw_value("+"), 0);
}

#[test]
fn parse_fractions_and_signs() {
    assert_eq!(parse_mw_value("-2.5"), -2_500);
    assert_eq!(parse_mw_value("+7"), 7_000);
    assert_eq!(parse_mw_value("1.23456"), 1_234);
    assert_eq!(parse_mw_value(".5"), 500);
    assert_eq!(parse_mw_value("12."), 12_000);
    assert_eq!(parse_mw_value("1,234.5(註)"), 1_234_500);
}

#[test]
fn parse_out_of_range_is_zero() {
    assert_eq!(parse_mw_value("1000000000"), 1_000_000_000_000);
    assert_eq!(parse_mw_value("1000000000.001"), 0);
    assert_eq!(parse_mw_value("99999999999999999999999999999999999999999"), 0);
}

#[test]
fn clean_private_plant_label() {
    assert_eq!(clean_energy_type("民營電廠-燃煤"), "民營燃煤");
}

#[test]
fn clean_other_renewable_label() {
    assert_eq!(clean_energy_type("其它再生能源(生質能)"), "其它再生能源");
}

#[test]
fn clean_plain_label_unchanged() {
    assert_eq!(clean_energy_type("燃氣"), "燃氣");
}

#[test]
fn renewable_set() {
    assert!(is_renewable("風力"));
    assert!(is_renewable("太陽能"));
    assert!(is_renewable("水力"));
    assert!(is_renewable("其它再生能源"));
    assert!(!is_renewable("燃煤"));
    assert!(!is_renewable("風力發電"));
}

#[test]
fn plant_name_before_unit_index() {
    assert_eq!(extract_plant_name("台中#1"), Some("台中".to_string()));
}

#[test]
fn plant_name_of_subtotal_is_none() {
    assert_eq!(extract_plant_name("燃煤小計"), None);
}

#[test]
fn plant_name_before_brackets_trimmed() {
    assert_eq!(extract_plant_name(" 大潭 (CC)"), Some("大潭".to_string()));
    assert_eq!(extract_plant_name("麥寮[1]"), Some("麥寮".to_string()));
    assert_eq!(extract_plant_name("核三"), Some("核三".to_string()));
}

#[test]
fn remark_classification_order() {
    assert_eq!(classify_remark("環保限制"), UnitStatus::Restricted);
    assert_eq!(classify_remark("運轉限制(歲修)"), UnitStatus::Restricted);
    assert_eq!(classify_remark("歲修"), UnitStatus::Maintenance);
    assert_eq!(classify_remark("檢修"), UnitStatus::Maintenance);
    assert_eq!(classify_remark("故障"), UnitStatus::Fault);
    assert_eq!(classify_remark(" "), UnitStatus::Normal);
}

#[test]
fn reserve_glyph_critical() {
    assert_eq!(get_reserve_indicator_emoji("R"), "🔴");
}

#[test]
fn reserve_glyph_unknown() {
    assert_eq!(get_reserve_indicator_emoji("X"), "⚪");
    assert_eq!(get_reserve_indicator_emoji(""), "⚪");
    assert_eq!(get_reserve_indicator_emoji("GG"), "⚪");
}

#[test]
fn reserve_glyph_others() {
    assert_eq!(get_reserve_indicator_emoji("G"), "🟢");
    assert_eq!(get_reserve_indicator_emoji("Y"), "🟡");
    assert_eq!(get_reserve_indicator_emoji("O"), "🟠");
}
