//! The text report: load and reserve figures when present, then the
//! generation summary.
use vstd::prelude::*;
use crate::analysis::{share, share_exec, PowerAnalysis};
use crate::entries::entries_view;
use crate::format::{fixed1, fixed2, nat_text, push_fixed1, push_fixed2, push_nat};
use crate::load::LoadData;
use crate::rules::{get_reserve_indicator_emoji, glyph_of, level_of};
use crate::text::{contains, lemma_contains_adjacent, lemma_contains_extend};

verus! {

/// A generation summary with the load summary, when one could be had.
#[derive(Debug)]
pub struct CombinedPowerData {
    pub power_analysis: PowerAnalysis,
    pub load_data: Option<LoadData>,
}

/// The load and reserve figures.
pub open spec fn load_text(d: LoadData) -> Seq<char> {
        "⚡ **電力供需資訊**\n📊 **目前用電量**: "@
        + fixed1(d.current_load as int)
        + " 萬瓩\n📈 **目前使用率**: "@
        + fixed1(d.current_util_rate as int)
        + "%\n🔌 **預估今日最大供電能力**: "@
        + fixed1(d.forecast_max_supply_capacity as int)
        + " 萬瓩\n⬆️ **預估今日最高用電**: "@
        + fixed1(d.forecast_peak_demand_load as int)
        + " 萬瓩\n🔋 **預估今日尖峰備轉容量**: "@
        + fixed1(d.forecast_peak_reserve_capacity as int)
        + " 萬瓩\n"@
        + glyph_of(level_of(d.forecast_peak_reserve_indicator@))
        + " **預估今日尖峰備轉容量率**: "@
        + fixed2(d.forecast_peak_reserve_rate as int)
        + "%\n🕐 **預估尖峰用電時段**: "@
        + d.forecast_peak_hour_range@
        + "\n📅 **資料更新時間**: "@
        + d.publish_time@
        + "\n\n📊 **昨日電力資訊**\n🔌 **最大供電能力**: "@
        + fixed1(d.yesterday_max_supply_capacity as int)
        + " 萬瓩\n⬆️ **尖峰用電量**: "@
        + fixed1(d.yesterday_peak_demand_load as int)
        + " 萬瓩\n🔋 **尖峰備轉容量**: "@
        + fixed1(d.yesterday_peak_reserve_capacity as int)
        + " 萬瓩\n"@
        + glyph_of(level_of(d.yesterday_peak_reserve_indicator@))
        + " **尖峰備轉容量率**: "@
        + fixed2(d.yesterday_peak_reserve_rate as int)
        + "%\n\n"@
}

/// The real-time peak figures.
pub open spec fn peak_text(d: LoadData) -> Seq<char> {
        "⏰ **即時尖峰資訊**\n🔌 **即時最大供電能力**: "@
        + fixed1(d.real_hour_max_supply_capacity as int)
        + " 萬瓩\n🕰️ **尖峰時間**: "@
        + d.real_hour_peak_time@
        + "\n\n"@
}

/// Generation totals, before the per-type lines.
pub open spec fn generation_head_text(a: PowerAnalysis) -> Seq<char> {
        "🏭 **發電機組資訊**\n📅 **更新時間**: "@
        + a.update_time@
        + "\n⚡ **總發電量**: "@
        + fixed1(a.total_generation as int)
        + " MW\n🔄 **裝置容量**: "@
        + fixed1(a.estimated_max_generation as int)
        + " MW\n📊 **發電占比**: "@
        + fixed1(share(a.total_generation as int, a.estimated_max_generation as int))
        + "%\n\n🏭 **各能源發電量**:\n"@
}

/// Top plant and unit, status counts and shares.
pub open spec fn generation_tail_text(a: PowerAnalysis) -> Seq<char> {
        "\n🏆 **發電量最高電廠**: "@
        + a.top_plant.0@
        + " ("@
        + fixed1(a.top_plant.1 as int)
        + " MW)\n🥇 **發電量最高機組**: "@
        + a.top_unit.0@
        + " ("@
        + fixed1(a.top_unit.1 as int)
        + " MW)\n\n📋 **運轉狀態統計**:\n   🌱 環保限制/運轉限制: "@
        + nat_text(a.environmental_restrictions as nat)
        + " 部\n   🔧 歲修/檢修: "@
        + nat_text(a.maintenance_count as nat)
        + " 部\n   ⚠️ 故障: "@
        + nat_text(a.fault_count as nat)
        + " 部\n\n🌿 **再生能源占比**: "@
        + fixed1(a.renewable_ratio as int)
        + "%\n🏢 **民營電廠+購電占比**: "@
        + fixed1(a.private_ratio as int)
        + "%\n\n📊 資料來源: [台電公司開放資料](<https://data.gov.tw/dataset/8931>)\n⚠️本資料可能會有錯誤或延遲，造成損失與我們無關"@
}

/// One per-type line.
pub open spec fn type_line_text(e: (Seq<char>, int)) -> Seq<char> {
        "   • "@
        + e.0
        + ": "@
        + fixed1(e.1)
        + " MW\n"@
}

/// The per-type lines, in order.
pub open spec fn type_lines_text(l: Seq<(Seq<char>, int)>) -> Seq<char>
    decreases l.len(),
{
    if l.len() == 0 {
        Seq::empty()
    } else {
        type_lines_text(l.drop_last()) + type_line_text(l.last())
    }
}

/// `e` placed in the descending list `s` after every entry at least as large.
pub open spec fn insert_desc(s: Seq<(Seq<char>, int)>, e: (Seq<char>, int)) -> Seq<(Seq<char>, int)>
    decreases s.len(),
{
    if s.len() == 0 {
        seq![e]
    } else if s[0].1 < e.1 {
        seq![e] + s
    } else {
        seq![s[0]] + insert_desc(s.drop_first(), e)
    }
}

/// `l` sorted by descending value; equal values keep their order.
pub open spec fn sort_desc(l: Seq<(Seq<char>, int)>) -> Seq<(Seq<char>, int)>
    decreases l.len(),
{
    if l.len() == 0 {
        l
    } else {
        insert_desc(sort_desc(l.drop_last()), l.last())
    }
}

proof fn lemma_insert_desc(s: Seq<(Seq<char>, int)>, e: (Seq<char>, int), p: int)
    requires
        0 <= p <= s.len(),
        forall|j: int| 0 <= j < p ==> s[j].1 >= e.1,
        p < s.len() ==> s[p].1 < e.1,
    ensures
        insert_desc(s, e) == s.insert(p, e),
    decreases s.len(),
{
    if s.len() == 0 {
        assert(s.insert(p, e) =~= seq![e]);
    } else if p == 0 {
        assert(s.insert(p, e) =~= seq![e] + s);
    } else {
        let t = s.drop_first();
        assert forall|j: int| 0 <= j < p - 1 implies t[j].1 >= e.1 by {
            assert(t[j] == s[j + 1]);
        }
        lemma_insert_desc(t, e, p - 1);
        assert(s.insert(p, e) =~= seq![s[0]] + t.insert(p - 1, e));
    }
}

/// The entries sorted by descending value, equal values in their order.
pub fn sorted_by_generation(l: &Vec<(String, i128)>) -> (r: Vec<(String, i128)>)
    ensures
        entries_view(r@) == sort_desc(entries_view(l@)),
{
    let ghost e = entries_view(l@);
    let mut r: Vec<(String, i128)> = Vec::new();
    let mut i: usize = 0;
    assert(e.take(0) =~= Seq::<(Seq<char>, int)>::empty());
    while i < l.len()
        invariant
            e == entries_view(l@),
            i <= l@.len(),
            entries_view(r@) == sort_desc(e.take(i as int)),
        decreases l.len() - i,
    {
        let ghost rv = entries_view(r@);
        let v = l[i].1;
        let mut p: usize = 0;
        while p < r.len() && r[p].1 >= v
            invariant
                rv == entries_view(r@),
                p <= r@.len(),
                forall|j: int| 0 <= j < p ==> rv[j].1 >= v,
            decreases r.len() - p,
        {
            assert(rv[p as int].1 >= v);
            p = p + 1;
        }
        proof {
            lemma_insert_desc(rv, e[i as int], p as int);
            assert(e.take(i + 1).drop_last() =~= e.take(i as int));
        }
        r.insert(p, (l[i].0.clone(), v));
        assert(entries_view(r@) =~= rv.insert(p as int, e[i as int]));
        i = i + 1;
    }
    assert(e.take(l@.len() as int) =~= e);
    r
}

fn type_lines(l: &Vec<(String, i128)>) -> (r: String)
    ensures
        r@ == type_lines_text(entries_view(l@)),
{
    let ghost ev = entries_view(l@);
    let mut out = String::new();
    let mut i: usize = 0;
    assert(ev.take(0) =~= Seq::<(Seq<char>, int)>::empty());
    while i < l.len()
        invariant
            ev == entries_view(l@),
            i <= l@.len(),
            out@ == type_lines_text(ev.take(i as int)),
        decreases l.len() - i,
    {
        let e = &l[i];
        assert(ev.take(i + 1).drop_last() =~= ev.take(i as int));
        assert(ev[i as int] == (e.0@, e.1 as int));
        let ghost prev = out@;
        out.append("   • ");
        out.append(e.0.as_str());
        out.append(": ");
        push_fixed1(&mut out, e.1);
        out.append(" MW\n");
        assert(out@ =~= prev + type_line_text(ev[i as int]));
        i = i + 1;
    }
    assert(ev.take(l@.len() as int) =~= ev);
    out
}

fn load_section(d: &LoadData) -> (r: String)
    ensures
        r@ == load_text(*d),
{
    let mut out = String::from_str("⚡ **電力供需資訊**\n📊 **目前用電量**: ");
    push_fixed1(&mut out, d.current_load);
    out.append(" 萬瓩\n📈 **目前使用率**: ");
    push_fixed1(&mut out, d.current_util_rate);
    out.append("%\n🔌 **預估今日最大供電能力**: ");
    push_fixed1(&mut out, d.forecast_max_supply_capacity);
    out.append(" 萬瓩\n⬆️ **預估今日最高用電**: ");
    push_fixed1(&mut out, d.forecast_peak_demand_load);
    out.append(" 萬瓩\n🔋 **預估今日尖峰備轉容量**: ");
    push_fixed1(&mut out, d.forecast_peak_reserve_capacity);
    out.append(" 萬瓩\n");
    out.append(get_reserve_indicator_emoji(d.forecast_peak_reserve_indicator.as_str()));
    out.append(" **預估今日尖峰備轉容量率**: ");
    push_fixed2(&mut out, d.forecast_peak_reserve_rate);
    out.append("%\n🕐 **預估尖峰用電時段**: ");
    out.append(d.forecast_peak_hour_range.as_str());
    out.append("\n📅 **資料更新時間**: ");
    out.append(d.publish_time.as_str());
    out.append("\n\n📊 **昨日電力資訊**\n🔌 **最大供電能力**: ");
    push_fixed1(&mut out, d.yesterday_max_supply_capacity);
    out.append(" 萬瓩\n⬆️ **尖峰用電量**: ");
    push_fixed1(&mut out, d.yesterday_peak_demand_load);
    out.append(" 萬瓩\n🔋 **尖峰備轉容量**: ");
    push_fixed1(&mut out, d.yesterday_peak_reserve_capacity);
    out.append(" 萬瓩\n");
    out.append(get_reserve_indicator_emoji(d.yesterday_peak_reserve_indicator.as_str()));
    out.append(" **尖峰備轉容量率**: ");
    push_fixed2(&mut out, d.yesterday_peak_reserve_rate);
    out.append("%\n\n");
    out
}

fn peak_section(d: &LoadData) -> (r: String)
    ensures
        r@ == peak_text(*d),
{
    let mut out = String::from_str("⏰ **即時尖峰資訊**\n🔌 **即時最大供電能力**: ");
    push_fixed1(&mut out, d.real_hour_max_supply_capacity);
    out.append(" 萬瓩\n🕰️ **尖峰時間**: ");
    out.append(d.real_hour_peak_time.as_str());
    out.append("\n\n");
    out
}

fn generation_head_section(a: &PowerAnalysis) -> (r: String)
    requires
        -0x100_0000_0000_0000_0000_0000_0000 <= a.total_generation <= 0x100_0000_0000_0000_0000_0000_0000,
    ensures
        r@ == generation_head_text(*a),
{
    let mut out = String::from_str("🏭 **發電機組資訊**\n📅 **更新時間**: ");
    out.append(a.update_time.as_str());
    out.append("\n⚡ **總發電量**: ");
    push_fixed1(&mut out, a.total_generation);
    out.append(" MW\n🔄 **裝置容量**: ");
    push_fixed1(&mut out, a.estimated_max_generation);
    out.append(" MW\n📊 **發電占比**: ");
    push_fixed1(&mut out, share_exec(a.total_generation, a.estimated_max_generation));
    out.append("%\n\n🏭 **各能源發電量**:\n");
    out
}

fn generation_tail_section(a: &PowerAnalysis) -> (r: String)
    ensures
        r@ == generation_tail_text(*a),
{
    let mut out = String::from_str("\n🏆 **發電量最高電廠**: ");
    out.append(a.top_plant.0.as_str());
    out.append(" (");
    push_fixed1(&mut out, a.top_plant.1);
    out.append(" MW)\n🥇 **發電量最高機組**: ");
    out.append(a.top_unit.0.as_str());
    out.append(" (");
    push_fixed1(&mut out, a.top_unit.1);
    out.append(" MW)\n\n📋 **運轉狀態統計**:\n   🌱 環保限制/運轉限制: ");
    push_nat(&mut out, a.environmental_restrictions as u128);
    out.append(" 部\n   🔧 歲修/檢修: ");
    push_nat(&mut out, a.maintenance_count as u128);
    out.append(" 部\n   ⚠️ 故障: ");
    push_nat(&mut out, a.fault_count as u128);
    out.append(" 部\n\n🌿 **再生能源占比**: ");
    push_fixed1(&mut out, a.renewable_ratio);
    out.append("%\n🏢 **民營電廠+購電占比**: ");
    push_fixed1(&mut out, a.private_ratio);
    out.append("%\n\n📊 資料來源: [台電公司開放資料](<https://data.gov.tw/dataset/8931>)\n⚠️本資料可能會有錯誤或延遲，造成損失與我們無關");
    out
}

/// The whole report.
pub open spec fn report_text(data: CombinedPowerData) -> Seq<char> {
    let head = "🔋 **台電即時電力資訊** 🔋\n\n"@;
    let load = match data.load_data {
        Some(d) => load_text(d) + if d.real_hour_max_supply_capacity > 0 {
            peak_text(d)
        } else {
            Seq::empty()
        },
        None => Seq::empty(),
    };
    let a = data.power_analysis;
    head + load + generation_head_text(a) + type_lines_text(sort_desc(entries_view(a.generation_by_type@)))
        + generation_tail_text(a)
}

/// Renders the report: the load section only when load data is present,
/// its real-time peak part only when that capacity is positive, then the
/// generation section with per-type lines by descending generation.
pub fn format_combined_power_message(data: &CombinedPowerData) -> (r: String)
    requires
        -0x100_0000_0000_0000_0000_0000_0000 <= data.power_analysis.total_generation
            <= 0x100_0000_0000_0000_0000_0000_0000,
    ensures
        r@ == report_text(*data),
        data.load_data matches Some(d) ==> contains(
            r@,
            glyph_of(level_of(d.forecast_peak_reserve_indicator@)) + " **預估今日尖峰備轉容量率**: "@,
        ),
{
    let mut out = String::from_str("🔋 **台電即時電力資訊** 🔋\n\n");
    let ghost head = out@;
    match &data.load_data {
        Some(d) => {
            out.append(load_section(d).as_str());
            if d.real_hour_max_supply_capacity > 0 {
                out.append(peak_section(d).as_str());
            } else {
                assert(out@ =~= out@ + Seq::<char>::empty());
            }
        },
        None => {
            assert(out@ =~= out@ + Seq::<char>::empty());
        },
    }
    let a = &data.power_analysis;
    out.append(generation_head_section(a).as_str());
    let sorted = sorted_by_generation(&a.generation_by_type);
    out.append(type_lines(&sorted).as_str());
    out.append(generation_tail_section(a).as_str());
    assert(out@ =~= report_text(*data));
    proof {
        if data.load_data is Some {
            forecast_glyph_precedes_rate(*data);
        }
    }
    out
}


/// With load data present, the report shows the glyph of the forecast
/// reserve indicator right before the forecast reserve-rate label: the red
/// glyph for `R`, the neutral one for a code it does not know.
pub proof fn forecast_glyph_precedes_rate(data: CombinedPowerData)
    requires
        data.load_data is Some,
    ensures
        contains(
            report_text(data),
            glyph_of(level_of(data.load_data->0.forecast_peak_reserve_indicator@)) + " **預估今日尖峰備轉容量率**: "@,
        ),
{
    let d = data.load_data->0;
    let m = glyph_of(level_of(d.forecast_peak_reserve_indicator@)) + " **預估今日尖峰備轉容量率**: "@;
    let lead = "⚡ **電力供需資訊**\n📊 **目前用電量**: "@
        + fixed1(d.current_load as int)
        + " 萬瓩\n📈 **目前使用率**: "@
        + fixed1(d.current_util_rate as int)
        + "%\n🔌 **預估今日最大供電能力**: "@
        + fixed1(d.forecast_max_supply_capacity as int)
        + " 萬瓩\n⬆️ **預估今日最高用電**: "@
        + fixed1(d.forecast_peak_demand_load as int)
        + " 萬瓩\n🔋 **預估今日尖峰備轉容量**: "@
        + fixed1(d.forecast_peak_reserve_capacity as int)
        + " 萬瓩\n"@;
    lemma_contains_adjacent(lead, glyph_of(level_of(d.forecast_peak_reserve_indicator@)), " **預估今日尖峰備轉容量率**: "@);
    let mut t = lead + glyph_of(level_of(d.forecast_peak_reserve_indicator@)) + " **預估今日尖峰備轉容量率**: "@;
    lemma_contains_extend(t, fixed2(d.forecast_peak_reserve_rate as int), m);
    t = t + fixed2(d.forecast_peak_reserve_rate as int);
    lemma_contains_extend(t, "%\n🕐 **預估尖峰用電時段**: "@, m);
    t = t + "%\n🕐 **預估尖峰用電時段**: "@;
    lemma_contains_extend(t, d.forecast_peak_hour_range@, m);
    t = t + d.forecast_peak_hour_range@;
    lemma_contains_extend(t, "\n📅 **資料更新時間**: "@, m);
    t = t + "\n📅 **資料更新時間**: "@;
    lemma_contains_extend(t, d.publish_time@, m);
    t = t + d.publish_time@;
    lemma_contains_extend(t, "\n\n📊 **昨日電力資訊**\n🔌 **最大供電能力**: "@, m);
    t = t + "\n\n📊 **昨日電力資訊**\n🔌 **最大供電能力**: "@;
    lemma_contains_extend(t, fixed1(d.yesterday_max_supply_capacity as int), m);
    t = t + fixed1(d.yesterday_max_supply_capacity as int);
    lemma_contains_extend(t, " 萬瓩\n⬆️ **尖峰用電量**: "@, m);
    t = t + " 萬瓩\n⬆️ **尖峰用電量**: "@;
    lemma_contains_extend(t, fixed1(d.yesterday_peak_demand_load as int), m);
    t = t + fixed1(d.yesterday_peak_demand_load as int);
    lemma_contains_extend(t, " 萬瓩\n🔋 **尖峰備轉容量**: "@, m);
    t = t + " 萬瓩\n🔋 **尖峰備轉容量**: "@;
    lemma_contains_extend(t, fixed1(d.yesterday_peak_reserve_capacity as int), m);
    t = t + fixed1(d.yesterday_peak_reserve_capacity as int);
    lemma_contains_extend(t, " 萬瓩\n"@, m);
    t = t + " 萬瓩\n"@;
    lemma_contains_extend(t, glyph_of(level_of(d.yesterday_peak_reserve_indicator@)), m);
    t = t + glyph_of(level_of(d.yesterday_peak_reserve_indicator@));
    lemma_contains_extend(t, " **尖峰備轉容量率**: "@, m);
    t = t + " **尖峰備轉容量率**: "@;
    lemma_contains_extend(t, fixed2(d.yesterday_peak_reserve_rate as int), m);
    t = t + fixed2(d.yesterday_peak_reserve_rate as int);
    lemma_contains_extend(t, "%\n\n"@, m);
    t = t + "%\n\n"@;
    assert(t == load_text(d));
    let peak = if d.real_hour_max_supply_capacity > 0 {
        peak_text(d)
    } else {
        Seq::empty()
    };
    lemma_contains_extend(t, peak, m);
    let head = "🔋 **台電即時電力資訊** 🔋\n\n"@;
    lemma_contains_extend(t + peak, head, m);
    let a = data.power_analysis;
    let u = head + (t + peak);
    lemma_contains_extend(u, generation_head_text(a), m);
    let u = u + generation_head_text(a);
    let lines = type_lines_text(sort_desc(entries_view(a.generation_by_type@)));
    lemma_contains_extend(u, lines, m);
    let u = u + lines;
    lemma_contains_extend(u, generation_tail_text(a), m);
}

} // verus!
