//! What the configuration and dashboard pages show and read: form fields,
//! the dashboard's state, its KPI cards, and how raw engine flows are
//! grouped into chartable series.

use vstd::prelude::*;
use crate::config::{ConnectionConfigData, GridSpecData, ProjectData, StorageSpecData};
use crate::text::{
    decimal_text, is_ascii_digit, is_white_space, lemma_decimal_text_value, trim_end_spec,
    trim_start_spec, chars_of, contains_text, ends_with, has_infix, has_prefix, has_suffix, i64_text_value,
    parse_i64_chars, starts_with, string_from_chars, trim_bounds, trimmed,
};

verus! {

broadcast use vstd::string::group_string_axioms;

// ---------------------------------------------------------------------
// Form fields
// ---------------------------------------------------------------------
/// An optional integer field: blank (after trimming) is unset, and text
/// that is not an `i64` is unset too.
pub open spec fn opt_i64_spec(s: Seq<char>) -> Option<i64> {
    if trimmed(s).len() == 0 {
        None
    } else {
        i64_text_value(trimmed(s))
    }
}

/// Reading an integer field: any number written in decimal, bare or with
/// a `+` or `-` sign, reads as that number when it fits in an `i64` and as
/// unset when it does not; and whatever reads as a number is, once
/// trimmed, decimal digits with at most a leading sign.
pub proof fn lemma_integer_field_reads_decimals(n: nat, s: Seq<char>)
    ensures
        opt_i64_spec(decimal_text(n)) == (if n <= i64::MAX {
            Some(n as i64)
        } else {
            None
        }),
        opt_i64_spec(seq!['+'] + decimal_text(n)) == (if n <= i64::MAX {
            Some(n as i64)
        } else {
            None
        }),
        opt_i64_spec(seq!['-'] + decimal_text(n)) == (if n <= 0x8000_0000_0000_0000 {
            Some((-n) as i64)
        } else {
            None
        }),
        match opt_i64_spec(s) {
            Some(_) => trimmed(s).len() > 0 && forall|k: int|
                0 <= k < trimmed(s).len() ==> (48 <= (#[trigger] trimmed(s)[k]) as u32 <= 57 || (
                k == 0 && (trimmed(s)[k] == '+' || trimmed(s)[k] == '-'))),
            None => true,
        },
{
    lemma_decimal_text_value(n);
    let d = decimal_text(n);
    let plus = seq!['+'] + d;
    let minus = seq!['-'] + d;
    assert(plus.drop_first() =~= d);
    assert(minus.drop_first() =~= d);
    assert(d[0] == d[0] && is_ascii_digit(d[0]) && is_ascii_digit(d[d.len() - 1]));
    lemma_trimmed_unchanged(d);
    assert(plus[plus.len() - 1] == d[d.len() - 1]);
    assert(minus[minus.len() - 1] == d[d.len() - 1]);
    lemma_trimmed_unchanged(plus);
    lemma_trimmed_unchanged(minus);
    let t = trimmed(s);
    if opt_i64_spec(s) is Some {
        if t.len() > 0 && (t[0] == '+' || t[0] == '-') {
            assert forall|k: int| 0 <= k < t.len() implies (48 <= (#[trigger] t[k]) as u32 <= 57
                || (k == 0 && (t[k] == '+' || t[k] == '-'))) by {
                if k > 0 {
                    assert(t[k] == t.drop_first()[k - 1]);
                }
            }
        }
    }
}

/// A text whose first and last characters are not white space is left as
/// it is by trimming.
proof fn lemma_trimmed_unchanged(s: Seq<char>)
    requires
        s.len() > 0,
        !is_white_space(s[0]),
        !is_white_space(s[s.len() - 1]),
    ensures
        trimmed(s) == s,
{
    assert(trim_start_spec(s) == s);
    assert(trim_end_spec(s) == s);
}

/// Reads an optional integer form field.
pub fn parse_opt_i64(s: &str) -> (r: Option<i64>)
    ensures
        r == opt_i64_spec(s@),
{
    let cs = chars_of(s);
    let (i, j) = trim_bounds(&cs);
    if i == j {
        None
    } else {
        parse_i64_chars(&cs, i, j)
    }
}

/// The trimmed text of a field, unless it is blank.
pub fn non_blank(s: &str) -> (r: Option<String>)
    ensures
        match r {
            Some(t) => t@ == trimmed(s@) && t@.len() > 0,
            None => trimmed(s@).len() == 0,
        },
{
    let cs = chars_of(s);
    let (i, j) = trim_bounds(&cs);
    if i == j {
        None
    } else {
        Some(string_from_chars(&cs, i, j))
    }
}

/// The configuration form as posted: a checkbox is present when ticked,
/// every other field is text.
#[derive(Debug, Clone)]
pub struct ConfigForm {
    pub objective: String,
    pub consumption_enabled: Option<String>,
    pub production_enabled: Option<String>,
    pub storage_enabled: Option<String>,
    pub production_to_consumption: Option<String>,
    pub production_to_grid: Option<String>,
    pub production_to_storage: Option<String>,
    pub grid_to_consumption: Option<String>,
    pub grid_to_storage: Option<String>,
    pub storage_to_consumption: Option<String>,
    pub storage_to_grid: Option<String>,
    pub time_period: String,
}

/// The numbers of the configuration form, each read from its field (a
/// blank or unreadable number is unset; an unreadable series is unset).
#[derive(Debug, Clone)]
pub struct FormNumbers {
    pub time_step: Option<u64>,
    pub consumption_values: Option<Vec<u64>>,
    pub production_values: Option<Vec<u64>>,
    pub storage: StorageSpecData,
    pub grid: GridSpecData,
}

impl ProjectData {
    /// The configuration a posted form describes: its objective, a component
    /// or connection for each ticked box, the period read as an integer, and
    /// the numbers as read.
    pub fn from_form(form: &ConfigForm, numbers: FormNumbers) -> (r: ProjectData)
        ensures
            r.objective == Some(form.objective),
            r.consumption_enabled == form.consumption_enabled is Some,
            r.production_enabled == form.production_enabled is Some,
            r.storage_enabled == form.storage_enabled is Some,
            r.connections == (ConnectionConfigData {
                production_to_consumption: form.production_to_consumption is Some,
                production_to_grid: form.production_to_grid is Some,
                production_to_storage: form.production_to_storage is Some,
                grid_to_consumption: form.grid_to_consumption is Some,
                grid_to_storage: form.grid_to_storage is Some,
                storage_to_consumption: form.storage_to_consumption is Some,
                storage_to_grid: form.storage_to_grid is Some,
            }),
            r.time_period == opt_i64_spec(form.time_period@),
            r.time_step == numbers.time_step,
            r.consumption_values == numbers.consumption_values,
            r.production_values == numbers.production_values,
            r.storage == numbers.storage,
            r.grid == numbers.grid,
    {
        ProjectData {
            objective: Some(form.objective.clone()),
            consumption_enabled: form.consumption_enabled.is_some(),
            production_enabled: form.production_enabled.is_some(),
            storage_enabled: form.storage_enabled.is_some(),
            connections: ConnectionConfigData {
                production_to_consumption: form.production_to_consumption.is_some(),
                production_to_grid: form.production_to_grid.is_some(),
                production_to_storage: form.production_to_storage.is_some(),
                grid_to_consumption: form.grid_to_consumption.is_some(),
                grid_to_storage: form.grid_to_storage.is_some(),
                storage_to_consumption: form.storage_to_consumption.is_some(),
                storage_to_grid: form.storage_to_grid.is_some(),
            },
            time_period: parse_opt_i64(form.time_period.as_str()),
            time_step: numbers.time_step,
            consumption_values: numbers.consumption_values,
            production_values: numbers.production_values,
            storage: numbers.storage,
            grid: numbers.grid,
        }
    }
}

// ---------------------------------------------------------------------
// Dashboard state
// ---------------------------------------------------------------------
/// One KPI as shown: its label and formatted value.
#[derive(Debug, Clone)]
pub struct KpiCard {
    pub label: String,
    pub value: String,
}

/// What the dashboard shows: an error, results, or nothing yet.
#[derive(Debug)]
pub struct DashboardFields {
    pub show_error: bool,
    pub error_message: String,
    pub show_results: bool,
    pub show_soc_chart: bool,
    pub kpi_cards: Vec<KpiCard>,
    pub time_json: String,
    pub flows_json: String,
    pub soc_json: String,
}

/// Nothing to show: no error, no results, empty series.
pub open spec fn shows_nothing_else(f: DashboardFields) -> bool {
    &&& !f.show_results
    &&& !f.show_soc_chart
    &&& f.kpi_cards@.len() == 0
    &&& f.time_json@ == "[]"@
    &&& f.flows_json@ == "{}"@
    &&& f.soc_json@ == "null"@
}

impl DashboardFields {
    /// The dashboard before any solve.
    pub fn empty() -> (r: Self)
        ensures
            !r.show_error,
            r.error_message@.len() == 0,
            shows_nothing_else(r),
    {
        DashboardFields {
            show_error: false,
            error_message: String::new(),
            show_results: false,
            show_soc_chart: false,
            kpi_cards: Vec::new(),
            time_json: String::from_str("[]"),
            flows_json: String::from_str("{}"),
            soc_json: String::from_str("null"),
        }
    }

    /// The dashboard showing only `message` as an error.
    pub fn error(message: String) -> (r: Self)
        ensures
            r.show_error,
            r.error_message == message,
            shows_nothing_else(r),
    {
        DashboardFields { show_error: true, error_message: message, ..Self::empty() }
    }

    /// The error shown when a solve is asked for an incomplete configuration.
    pub fn incomplete_configuration() -> (r: Self)
        ensures
            r.show_error,
            r.error_message@ == "La configuracion esta incompleta."@,
            shows_nothing_else(r),
    {
        Self::error(String::from_str("La configuracion esta incompleta."))
    }

    /// The guard before a solve: the incomplete-configuration error when
    /// the configuration still misses something, else `None` and the solve
    /// goes ahead.
    pub fn refuse_incomplete(data: &ProjectData) -> (r: Option<Self>)
        ensures
            r is None <==> data.is_complete(),
            match r {
                Some(f) => f.show_error && f.error_message@ == "La configuracion esta incompleta."@
                    && shows_nothing_else(f),
                None => true,
            },
    {
        let missing = data.missing();
        if missing.len() == 0 {
            None
        } else {
            Some(Self::incomplete_configuration())
        }
    }

    /// The dashboard showing a solve's results.
    pub fn results(
        show_soc_chart: bool,
        kpi_cards: Vec<KpiCard>,
        time_json: String,
        flows_json: String,
        soc_json: String,
    ) -> (r: Self)
        ensures
            !r.show_error,
            r.error_message@.len() == 0,
            r.show_results,
            r.show_soc_chart == show_soc_chart,
            r.kpi_cards@ == kpi_cards@,
            r.time_json == time_json,
            r.flows_json == flows_json,
            r.soc_json == soc_json,
    {
        DashboardFields {
            show_error: false,
            error_message: String::new(),
            show_results: true,
            show_soc_chart,
            kpi_cards,
            time_json,
            flows_json,
            soc_json,
        }
    }
}

// ---------------------------------------------------------------------
// KPI cards
// ---------------------------------------------------------------------
/// How one KPI is shown: the solve's key for it, its label, and how many
/// decimals and what unit its value is written with.
#[derive(Debug)]
pub struct KpiSlot {
    pub key: String,
    pub label: String,
    pub decimals: u8,
    pub unit: String,
}

impl Clone for KpiSlot {
    fn clone(&self) -> (r: Self)
        ensures
            r == *self,
    {
        KpiSlot {
            key: self.key.clone(),
            label: self.label.clone(),
            decimals: self.decimals,
            unit: self.unit.clone(),
        }
    }
}

pub open spec fn slot_view(s: KpiSlot) -> (Seq<char>, Seq<char>, u8, Seq<char>) {
    (s.key@, s.label@, s.decimals, s.unit@)
}

/// The KPIs the dashboard knows, in the order it shows them.
pub open spec fn kpi_table() -> Seq<(Seq<char>, Seq<char>, u8, Seq<char>)> {
    seq![
        ("total_consumption_kwh"@, "Consumo total"@, 0u8, " kWh"@),
        ("total_production_kwh"@, "Produccion total"@, 0u8, " kWh"@),
        ("self_consumption_pct"@, "Autoconsumo"@, 1u8, "%"@),
        ("total_grid_import_kwh"@, "Importacion red"@, 0u8, " kWh"@),
        ("total_grid_export_kwh"@, "Exportacion red"@, 0u8, " kWh"@),
        ("battery_soh_pct"@, "SoH bateria"@, 1u8, "%"@),
        ("total_energy_cost"@, "Coste (provisional)"@, 2u8, ""@),
    ]
}

fn slot(key: &str, label: &str, decimals: u8, unit: &str) -> (r: KpiSlot)
    ensures
        slot_view(r) == (key@, label@, decimals, unit@),
{
    KpiSlot {
        key: String::from_str(key),
        label: String::from_str(label),
        decimals,
        unit: String::from_str(unit),
    }
}

fn kpi_table_exec() -> (r: Vec<KpiSlot>)
    ensures
        r@.map_values(|s: KpiSlot| slot_view(s)) == kpi_table(),
{
    let mut t: Vec<KpiSlot> = Vec::new();
    t.push(slot("total_consumption_kwh", "Consumo total", 0, " kWh"));
    t.push(slot("total_production_kwh", "Produccion total", 0, " kWh"));
    t.push(slot("self_consumption_pct", "Autoconsumo", 1, "%"));
    t.push(slot("total_grid_import_kwh", "Importacion red", 0, " kWh"));
    t.push(slot("total_grid_export_kwh", "Exportacion red", 0, " kWh"));
    t.push(slot("battery_soh_pct", "SoH bateria", 1, "%"));
    t.push(slot("total_energy_cost", "Coste (provisional)", 2, ""));
    assert(t@.map_values(|s: KpiSlot| slot_view(s)) =~= kpi_table());
    t
}

fn contains_key(keys: &Vec<String>, key: &String) -> (r: bool)
    ensures
        r == keys.deep_view().contains(key@),
{
    let mut k: usize = 0;
    while k < keys.len()
        invariant
            k <= keys.len(),
            forall|i: int| 0 <= i < k ==> keys@[i]@ != key@,
        decreases keys.len() - k,
    {
        if keys[k] == *key {
            assert(keys.deep_view()[k as int] == key@);
            return true;
        }
        k = k + 1;
    }
    proof {
        if keys.deep_view().contains(key@) {
            let i = choose|i: int| 0 <= i < keys.deep_view().len() && keys.deep_view()[i] == key@;
            assert(keys@[i]@ == key@);
        }
    }
    false
}

/// The KPI cards to show for a solve whose KPIs have the keys `present`:
/// the known KPIs that are present, in the dashboard's order.
pub fn kpi_slots(present: &Vec<String>) -> (r: Vec<KpiSlot>)
    ensures
        r@.map_values(|s: KpiSlot| slot_view(s)) == kpi_table().filter(
            |e: (Seq<char>, Seq<char>, u8, Seq<char>)| present.deep_view().contains(e.0),
        ),
{
    let table = kpi_table_exec();
    let ghost keep = |e: (Seq<char>, Seq<char>, u8, Seq<char>)| present.deep_view().contains(e.0);
    let mut r: Vec<KpiSlot> = Vec::new();
    let mut k: usize = 0;
    while k < table.len()
        invariant
            k <= table.len(),
            table@.map_values(|s: KpiSlot| slot_view(s)) == kpi_table(),
            keep == (|e: (Seq<char>, Seq<char>, u8, Seq<char>)| present.deep_view().contains(e.0)),
            r@.map_values(|s: KpiSlot| slot_view(s)) == kpi_table().take(k as int).filter(keep),
        decreases table.len() - k,
    {
        let ghost prev = kpi_table().take(k as int);
        let ghost next = kpi_table().take(k + 1);
        assert(next.drop_last() =~= prev);
        assert(next.last() == slot_view(table@[k as int]));
        reveal_with_fuel(Seq::filter, 1);
        let ghost before = r@.map_values(|s: KpiSlot| slot_view(s));
        if contains_key(present, &table[k].key) {
            r.push(table[k].clone());
            assert(r@.map_values(|s: KpiSlot| slot_view(s)) =~= before.push(slot_view(table@[k as int])));
        }
        k = k + 1;
    }
    assert(kpi_table().take(table.len() as int) =~= kpi_table());
    r
}

/// Every entry kept by a filter is an entry of the sequence.
proof fn lemma_filter_entries_from<A>(s: Seq<A>, p: spec_fn(A) -> bool)
    ensures
        forall|i: int|
            0 <= i < s.filter(p).len() ==> exists|j: int|
                0 <= j < s.len() && s[j] == #[trigger] s.filter(p)[i],
    decreases s.len(),
{
    reveal_with_fuel(Seq::filter, 1);
    if s.len() > 0 {
        let s0 = s.drop_last();
        lemma_filter_entries_from(s0, p);
        assert forall|i: int| 0 <= i < s.filter(p).len() implies exists|j: int|
            0 <= j < s.len() && s[j] == #[trigger] s.filter(p)[i] by {
            if i < s0.filter(p).len() {
                let j = choose|j: int| 0 <= j < s0.len() && s0[j] == s0.filter(p)[i];
                assert(s[j] == s0[j]);
                assert(s.filter(p)[i] == s0.filter(p)[i]);
            } else {
                assert(s.filter(p)[i] == s[s.len() - 1]);
            }
        }
    }
}

/// A filter keeps the order of what it keeps.
proof fn lemma_filter_keeps_order<A>(s: Seq<A>, p: spec_fn(A) -> bool, f: spec_fn(A) -> int)
    requires
        forall|i: int, j: int| 0 <= i < j < s.len() ==> f(#[trigger] s[i]) < f(#[trigger] s[j]),
    ensures
        forall|i: int, j: int|
            0 <= i < j < s.filter(p).len() ==> f(#[trigger] s.filter(p)[i]) < f(
                #[trigger] s.filter(p)[j],
            ),
    decreases s.len(),
{
    reveal_with_fuel(Seq::filter, 1);
    if s.len() > 0 {
        let s0 = s.drop_last();
        assert forall|i: int, j: int| 0 <= i < j < s0.len() implies f(#[trigger] s0[i]) < f(
            #[trigger] s0[j],
        ) by {
            assert(s0[i] == s[i] && s0[j] == s[j]);
        }
        lemma_filter_keeps_order(s0, p, f);
        lemma_filter_entries_from(s0, p);
        let t = s.filter(p);
        let t0 = s0.filter(p);
        assert forall|i: int, j: int| 0 <= i < j < t.len() implies f(#[trigger] t[i]) < f(
            #[trigger] t[j],
        ) by {
            if j < t0.len() {
                assert(t[i] == t0[i] && t[j] == t0[j]);
            } else {
                assert(t[j] == s[s.len() - 1]);
                assert(t[i] == t0[i]);
                let k = choose|k: int| 0 <= k < s0.len() && s0[k] == t0[i];
                assert(s[k] == s0[k]);
            }
        }
    }
}

/// The place of a KPI on the dashboard: consumption, production,
/// self-consumption, grid import, grid export, battery health, cost.
pub open spec fn kpi_position(key: Seq<char>) -> int {
    if key == "total_consumption_kwh"@ {
        0
    } else if key == "total_production_kwh"@ {
        1
    } else if key == "self_consumption_pct"@ {
        2
    } else if key == "total_grid_import_kwh"@ {
        3
    } else if key == "total_grid_export_kwh"@ {
        4
    } else if key == "battery_soh_pct"@ {
        5
    } else if key == "total_energy_cost"@ {
        6
    } else {
        7
    }
}

/// How each known KPI is shown, key by key: total consumption as
/// "Consumo total" in whole kWh, total production as "Produccion total" in
/// whole kWh, self-consumption as "Autoconsumo" in percent with one
/// decimal, grid import as "Importacion red" and grid export as
/// "Exportacion red" in whole kWh, battery health as "SoH bateria" in
/// percent with one decimal, and the energy cost as "Coste (provisional)"
/// with two decimals and no unit.
pub open spec fn shown_as_known_kpi(e: (Seq<char>, Seq<char>, u8, Seq<char>)) -> bool {
    ||| e == ("total_consumption_kwh"@, "Consumo total"@, 0u8, " kWh"@)
    ||| e == ("total_production_kwh"@, "Produccion total"@, 0u8, " kWh"@)
    ||| e == ("self_consumption_pct"@, "Autoconsumo"@, 1u8, "%"@)
    ||| e == ("total_grid_import_kwh"@, "Importacion red"@, 0u8, " kWh"@)
    ||| e == ("total_grid_export_kwh"@, "Exportacion red"@, 0u8, " kWh"@)
    ||| e == ("battery_soh_pct"@, "SoH bateria"@, 1u8, "%"@)
    ||| e == ("total_energy_cost"@, "Coste (provisional)"@, 2u8, ""@)
}

/// The cards shown for a solve whose KPIs have the keys `present`: each is
/// shown as its key prescribes and only for a present key, every known KPI
/// that is present gets a card, and the cards come in the dashboard's
/// order.
pub proof fn lemma_kpi_cards_by_key(present: Seq<Seq<char>>)
    ensures
        ({
            let r = kpi_table().filter(
                |e: (Seq<char>, Seq<char>, u8, Seq<char>)| present.contains(e.0),
            );
            &&& forall|i: int|
                0 <= i < r.len() ==> shown_as_known_kpi(#[trigger] r[i]) && present.contains(
                    r[i].0,
                )
            &&& forall|k: Seq<char>|
                present.contains(k) && kpi_position(k) < 7 ==> exists|i: int|
                    0 <= i < r.len() && (#[trigger] r[i]).0 == k
            &&& forall|i: int, j: int|
                0 <= i < j < r.len() ==> kpi_position((#[trigger] r[i]).0) < kpi_position(
                    (#[trigger] r[j]).0,
                )
        }),
{
    reveal_strlit("total_consumption_kwh");
    reveal_strlit("total_production_kwh");
    reveal_strlit("self_consumption_pct");
    reveal_strlit("total_grid_import_kwh");
    reveal_strlit("total_grid_export_kwh");
    reveal_strlit("battery_soh_pct");
    reveal_strlit("total_energy_cost");
    let t = kpi_table();
    let keep = |e: (Seq<char>, Seq<char>, u8, Seq<char>)| present.contains(e.0);
    let pos = |e: (Seq<char>, Seq<char>, u8, Seq<char>)| kpi_position(e.0);
    let r = t.filter(keep);
    assert(t.len() == 7);
    assert("total_consumption_kwh"@[6] != "total_production_kwh"@[6]);
    assert("total_consumption_kwh"@[0] != "self_consumption_pct"@[0]);
    assert("total_consumption_kwh"@[6] != "total_grid_import_kwh"@[6]);
    assert("total_consumption_kwh"@[6] != "total_grid_export_kwh"@[6]);
    assert("total_consumption_kwh"@[0] != "battery_soh_pct"@[0]);
    assert("total_consumption_kwh"@[6] != "total_energy_cost"@[6]);
    assert("total_production_kwh"@[0] != "self_consumption_pct"@[0]);
    assert("total_production_kwh"@[6] != "total_grid_import_kwh"@[6]);
    assert("total_production_kwh"@[6] != "total_grid_export_kwh"@[6]);
    assert("total_production_kwh"@[0] != "battery_soh_pct"@[0]);
    assert("total_production_kwh"@[6] != "total_energy_cost"@[6]);
    assert("self_consumption_pct"@[0] != "total_grid_import_kwh"@[0]);
    assert("self_consumption_pct"@[0] != "total_grid_export_kwh"@[0]);
    assert("self_consumption_pct"@[0] != "battery_soh_pct"@[0]);
    assert("self_consumption_pct"@[0] != "total_energy_cost"@[0]);
    assert("total_grid_import_kwh"@[11] != "total_grid_export_kwh"@[11]);
    assert("total_grid_import_kwh"@[0] != "battery_soh_pct"@[0]);
    assert("total_grid_import_kwh"@[6] != "total_energy_cost"@[6]);
    assert("total_grid_export_kwh"@[0] != "battery_soh_pct"@[0]);
    assert("total_grid_export_kwh"@[6] != "total_energy_cost"@[6]);
    assert("battery_soh_pct"@[0] != "total_energy_cost"@[0]);
    assert(pos(t[0]) == 0);
    assert(pos(t[1]) == 1);
    assert(pos(t[2]) == 2);
    assert(pos(t[3]) == 3);
    assert(pos(t[4]) == 4);
    assert(pos(t[5]) == 5);
    assert(pos(t[6]) == 6);
    assert forall|j: int| 0 <= j < t.len() implies shown_as_known_kpi(#[trigger] t[j]) && pos(t[j])
        == j by {}
    assert forall|i: int, j: int| 0 <= i < j < t.len() implies pos(#[trigger] t[i]) < pos(
        #[trigger] t[j],
    ) by {}
    lemma_filter_keeps_order(t, keep, pos);
    lemma_filter_entries_from(t, keep);
    t.filter_lemma(keep);
    assert forall|i: int| 0 <= i < r.len() implies shown_as_known_kpi(#[trigger] r[i])
        && present.contains(r[i].0) by {
        let j = choose|j: int| 0 <= j < t.len() && t[j] == r[i];
        assert(keep(r[i]));
    }
    assert forall|k: Seq<char>| present.contains(k) && kpi_position(k) < 7 implies exists|i: int|
        0 <= i < r.len() && (#[trigger] r[i]).0 == k by {
        let j = kpi_position(k);
        assert(t[j].0 == k);
        assert(keep(t[j]));
        assert(r.contains(t[j]));
    }
    assert forall|i: int, j: int| 0 <= i < j < r.len() implies kpi_position((#[trigger] r[i]).0)
        < kpi_position((#[trigger] r[j]).0) by {
        assert(pos(r[i]) < pos(r[j]));
    }
}

// ---------------------------------------------------------------------
// Flow series
// ---------------------------------------------------------------------
/// The state-of-charge series, charted on its own.
pub open spec fn soc_series_name() -> Seq<char> {
    "storage_soc_pct"@
}

pub open spec fn label_if(cond: bool, label: Seq<char>) -> Seq<Seq<char>> {
    if cond {
        seq![label]
    } else {
        seq![]
    }
}

/// The chart series a raw per-connection flow is added into, matched by
/// name pattern: flows into consumers are consumption, flows out of
/// producers production, flows out of and into the grid import and
/// export, flows into and out of storage charge and discharge. A flow may
/// count towards several series; the state of charge towards none.
pub open spec fn flow_labels_spec(name: Seq<char>) -> Seq<Seq<char>> {
    if name == soc_series_name() {
        seq![]
    } else {
        label_if(has_suffix(name, "_2_consumer_power"@), "Consumo"@) + label_if(
            has_infix(name, "producer_2_"@),
            "Produccion"@,
        ) + label_if(has_prefix(name, "grid_2_"@), "Red importacion"@) + label_if(
            has_suffix(name, "_2_grid_power"@),
            "Red exportacion"@,
        ) + label_if(has_suffix(name, "_2_storage_power"@), "Bateria carga"@) + label_if(
            has_prefix(name, "storage_2_"@),
            "Bateria descarga"@,
        )
    }
}

fn push_label_if(out: &mut Vec<String>, cond: bool, label: &str)
    ensures
        final(out).deep_view() == old(out).deep_view() + label_if(cond, label@),
{
    let ghost before = out.deep_view();
    if cond {
        out.push(String::from_str(label));
    }
    assert(final(out).deep_view() =~= before + label_if(cond, label@));
}

/// The chart series the flow `name` counts towards.
pub fn flow_labels(name: &str) -> (r: Vec<String>)
    ensures
        r.deep_view() == flow_labels_spec(name@),
{
    let mut out: Vec<String> = Vec::new();
    if String::from_str(name) == String::from_str("storage_soc_pct") {
        return out;
    }
    let n = chars_of(name);
    push_label_if(&mut out, ends_with(&n, &chars_of("_2_consumer_power")), "Consumo");
    assert(out.deep_view() =~= label_if(has_suffix(name@, "_2_consumer_power"@), "Consumo"@));
    push_label_if(&mut out, contains_text(&n, &chars_of("producer_2_")), "Produccion");
    push_label_if(&mut out, starts_with(&n, &chars_of("grid_2_")), "Red importacion");
    push_label_if(&mut out, ends_with(&n, &chars_of("_2_grid_power")), "Red exportacion");
    push_label_if(&mut out, ends_with(&n, &chars_of("_2_storage_power")), "Bateria carga");
    push_label_if(&mut out, starts_with(&n, &chars_of("storage_2_")), "Bateria descarga");
    out
}

proof fn lemma_append_label(prefix: Seq<Seq<char>>, cond: bool, label: Seq<char>)
    requires
        prefix.no_duplicates(),
        !prefix.contains(label),
    ensures
        (prefix + label_if(cond, label)).no_duplicates(),
        forall|x: Seq<char>|
            #[trigger] (prefix + label_if(cond, label)).contains(x) <==> (prefix.contains(x) || (
            cond && x == label)),
{
    let t = prefix + label_if(cond, label);
    if cond {
        assert(t =~= prefix.push(label));
        assert forall|x: Seq<char>| #[trigger] t.contains(x) <==> (prefix.contains(x) || x == label) by {
            if t.contains(x) {
                let i = choose|i: int| 0 <= i < t.len() && t[i] == x;
                if i < prefix.len() {
                    assert(prefix[i] == x);
                }
            }
            if prefix.contains(x) {
                let i = choose|i: int| 0 <= i < prefix.len() && prefix[i] == x;
                assert(t[i] == x);
            }
            if x == label {
                assert(t[prefix.len() as int] == x);
            }
        }
        assert forall|i: int, j: int| 0 <= i < j < t.len() implies t[i] != t[j] by {
            if j == prefix.len() {
                assert(prefix[i] == t[i]);
            } else {
                assert(prefix[i] == t[i] && prefix[j] == t[j]);
            }
        }
    } else {
        assert(t =~= prefix);
    }
}

/// How raw flows are grouped: the state of charge goes into no series;
/// any other flow goes into consumption when its name ends in
/// `_2_consumer_power`, into production when its name holds `producer_2_`,
/// into grid import when it starts with `grid_2_`, into grid export when
/// it ends in `_2_grid_power`, into battery charge when it ends in
/// `_2_storage_power` (whatever it comes from), and into battery discharge
/// when it starts with `storage_2_`; into each series at most once, and
/// into no other.
pub proof fn lemma_flow_labels_by_pattern(name: Seq<char>)
    ensures
        name == "storage_soc_pct"@ ==> flow_labels_spec(name).len() == 0,
        name != "storage_soc_pct"@ ==> {
            &&& flow_labels_spec(name).contains("Consumo"@) <==> has_suffix(
                name,
                "_2_consumer_power"@,
            )
            &&& flow_labels_spec(name).contains("Produccion"@) <==> has_infix(
                name,
                "producer_2_"@,
            )
            &&& flow_labels_spec(name).contains("Red importacion"@) <==> has_prefix(
                name,
                "grid_2_"@,
            )
            &&& flow_labels_spec(name).contains("Red exportacion"@) <==> has_suffix(
                name,
                "_2_grid_power"@,
            )
            &&& flow_labels_spec(name).contains("Bateria carga"@) <==> has_suffix(
                name,
                "_2_storage_power"@,
            )
            &&& flow_labels_spec(name).contains("Bateria descarga"@) <==> has_prefix(
                name,
                "storage_2_"@,
            )
        },
        forall|i: int|
            0 <= i < flow_labels_spec(name).len() ==> {
                let l = #[trigger] flow_labels_spec(name)[i];
                ||| l == "Consumo"@
                ||| l == "Produccion"@
                ||| l == "Red importacion"@
                ||| l == "Red exportacion"@
                ||| l == "Bateria carga"@
                ||| l == "Bateria descarga"@
            },
        flow_labels_spec(name).no_duplicates(),
{
    reveal_strlit("storage_soc_pct");
    reveal_strlit("Consumo");
    reveal_strlit("Produccion");
    reveal_strlit("Red importacion");
    reveal_strlit("Red exportacion");
    reveal_strlit("Bateria carga");
    reveal_strlit("Bateria descarga");
    let l1 = "Consumo"@;
    let l2 = "Produccion"@;
    let l3 = "Red importacion"@;
    let l4 = "Red exportacion"@;
    let l5 = "Bateria carga"@;
    let l6 = "Bateria descarga"@;
    assert(l1 != l2 && l1 != l3 && l1 != l4 && l1 != l5 && l1 != l6) by {
        assert(l1.len() != l2.len() && l1.len() != l3.len() && l1.len() != l5.len() && l1.len()
            != l6.len());
        assert(l1.len() != l4.len());
    }
    assert(l2 != l3 && l2 != l4 && l2 != l5 && l2 != l6) by {
        assert(l2.len() != l3.len() && l2.len() != l4.len() && l2.len() != l5.len() && l2.len()
            != l6.len());
    }
    assert(l3 != l4) by {
        assert(l3[4] != l4[4]);
    }
    assert(l3 != l5 && l3 != l6 && l4 != l5 && l4 != l6 && l5 != l6) by {
        assert(l3.len() != l5.len() && l3.len() != l6.len() && l4.len() != l5.len() && l4.len()
            != l6.len() && l5.len() != l6.len());
    }
    if name != soc_series_name() {
        let c1 = has_suffix(name, "_2_consumer_power"@);
        let c2 = has_infix(name, "producer_2_"@);
        let c3 = has_prefix(name, "grid_2_"@);
        let c4 = has_suffix(name, "_2_grid_power"@);
        let c5 = has_suffix(name, "_2_storage_power"@);
        let c6 = has_prefix(name, "storage_2_"@);
        let p0 = Seq::<Seq<char>>::empty();
        lemma_append_label(p0, c1, l1);
        let p1 = p0 + label_if(c1, l1);
        lemma_append_label(p1, c2, l2);
        let p2 = p1 + label_if(c2, l2);
        lemma_append_label(p2, c3, l3);
        let p3 = p2 + label_if(c3, l3);
        lemma_append_label(p3, c4, l4);
        let p4 = p3 + label_if(c4, l4);
        lemma_append_label(p4, c5, l5);
        let p5 = p4 + label_if(c5, l5);
        lemma_append_label(p5, c6, l6);
        let p6 = p5 + label_if(c6, l6);
        assert(p1 =~= label_if(c1, l1));
        assert(p6 =~= flow_labels_spec(name));
        assert forall|i: int| 0 <= i < p6.len() implies {
            let l = #[trigger] p6[i];
            ||| l == l1
            ||| l == l2
            ||| l == l3
            ||| l == l4
            ||| l == l5
            ||| l == l6
        } by {
            assert(p6.contains(p6[i]));
        }
    }
}

} // verus!
