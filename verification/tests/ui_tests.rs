use optistor::config::{GridSpecData, ProjectData, StorageSpecData};
use optistor::ui::{
    flow_labels, kpi_slots, non_blank, parse_opt_i64, ConfigForm, DashboardFields, FormNumbers,
    KpiCard,
};

#[test]
fn parse_opt_i64_reads_trimmed_integers() {
    assert_eq!(parse_opt_i64(" 42 "), Some(42));
    assert_eq!(parse_opt_i64("-7"), Some(-7));
    assert_eq!(parse_opt_i64("+8"), Some(8));
    assert_eq!(parse_opt_i64(""), None);
    assert_eq!(parse_opt_i64("   "), None);
    assert_eq!(parse_opt_i64("1.5"), None);
    assert_eq!(parse_opt_i64("abc"), None);
    assert_eq!(parse_opt_i64("-"), None);
    assert_eq!(parse_opt_i64("9223372036854775807"), Some(i64::MAX));
    assert_eq!(parse_opt_i64("-9223372036854775808"), Some(i64::MIN));
    assert_eq!(parse_opt_i64("9223372036854775808"), None);
    assert_eq!(parse_opt_i64("-9223372036854775809"), None);
    assert_eq!(parse_opt_i64("00012"), Some(12));
}

#[test]
fn parse_opt_i64_agrees_with_std() {
    for s in ["0", "-0", "+0", "12a", "a12", "1 2", "99999999999999999999", "-42", "+-1", " -5\t"] {
        let expected = if s.trim().is_empty() { None } else { s.trim().parse::<i64>().ok() };
        assert_eq!(parse_opt_i64(s), expected, "input {s:?}");
    }
}

#[test]
fn non_blank_trims() {
    assert_eq!(non_blank("  1.5 "), Some("1.5".to_string()));
    assert_eq!(non_blank(" \t"), None);
}

#[test]
fn dashboard_states() {
    let e = DashboardFields::empty();
    assert!(!e.show_error && !e.show_results && !e.show_soc_chart);
    assert_eq!(e.time_json, "[]");
    assert_eq!(e.flows_json, "{}");
    assert_eq!(e.soc_json, "null");
    assert!(e.kpi_cards.is_empty());

    let err = DashboardFields::error("boom".to_string());
    assert!(err.show_error);
    assert_eq!(err.error_message, "boom");
    assert!(!err.show_results);

    let inc = DashboardFields::incomplete_configuration();
    assert_eq!(inc.error_message, "La configuracion esta incompleta.");

    let r = DashboardFields::results(
        true,
        vec![KpiCard { label: "x".into(), value: "1".into() }],
        "[0]".into(),
        "{}".into(),
        "[1]".into(),
    );
    assert!(r.show_results && r.show_soc_chart && !r.show_error);
    assert_eq!(r.kpi_cards.len(), 1);
}

#[test]
fn kpi_slots_follow_dashboard_order() {
    let present = vec![
        "total_energy_cost".to_string(),
        "self_consumption_pct".to_string(),
        "unrelated".to_string(),
        "total_consumption_kwh".to_string(),
    ];
    let slots = kpi_slots(&present);
    let labels: Vec<&str> = slots.iter().map(|s| s.label.as_str()).collect();
    assert_eq!(labels, vec!["Consumo total", "Autoconsumo", "Coste (provisional)"]);
    assert_eq!(slots[0].decimals, 0);
    assert_eq!(slots[0].unit, " kWh");
    assert_eq!(slots[1].decimals, 1);
    assert_eq!(slots[1].unit, "%");
    assert_eq!(slots[2].decimals, 2);
    assert_eq!(slots[2].unit, "");
    assert!(kpi_slots(&vec![]).is_empty());
}

#[test]
fn flows_group_by_name_pattern() {
    assert_eq!(flow_labels("grid_2_consumer_power"), vec!["Consumo", "Red importacion"]);
    assert_eq!(flow_labels("pv_producer_2_grid_power"), vec!["Produccion", "Red exportacion"]);
    assert_eq!(flow_labels("storage_2_consumer_power"), vec!["Consumo", "Bateria descarga"]);
    assert_eq!(flow_labels("grid_2_storage_power"), vec!["Red importacion", "Bateria carga"]);
    assert!(flow_labels("storage_soc_pct").is_empty());
    assert!(flow_labels("something_else").is_empty());
}

#[test]
fn form_builds_configuration() {
    let form = ConfigForm {
        objective: "cost".to_string(),
        consumption_enabled: Some("on".to_string()),
        production_enabled: None,
        storage_enabled: Some("on".to_string()),
        production_to_consumption: None,
        production_to_grid: Some("on".to_string()),
        production_to_storage: None,
        grid_to_consumption: Some("on".to_string()),
        grid_to_storage: None,
        storage_to_consumption: None,
        storage_to_grid: None,
        time_period: " 24 ".to_string(),
    };
    let numbers = FormNumbers {
        time_step: Some(1.0f64.to_bits()),
        consumption_values: Some(vec![5.0f64.to_bits()]),
        production_values: None,
        storage: StorageSpecData::default(),
        grid: GridSpecData::default(),
    };
    let d = ProjectData::from_form(&form, numbers);
    assert_eq!(d.objective.as_deref(), Some("cost"));
    assert!(d.consumption_enabled && !d.production_enabled && d.storage_enabled);
    assert!(d.connections.production_to_grid && d.connections.grid_to_consumption);
    assert!(!d.connections.production_to_consumption && !d.connections.storage_to_grid);
    assert_eq!(d.time_period, Some(24));
    assert_eq!(d.time_step, Some(1.0f64.to_bits()));
}

#[test]
fn solving_is_refused_until_the_configuration_is_complete() {
    let refusal = DashboardFields::refuse_incomplete(&ProjectData::default()).unwrap();
    assert!(refusal.show_error);
    assert_eq!(refusal.error_message, "La configuracion esta incompleta.");
    assert!(!refusal.show_results);

    let mut data = ProjectData {
        objective: Some("energy".to_string()),
        time_period: Some(2),
        time_step: Some(1.0f64.to_bits()),
        grid: GridSpecData { export_max: Some(0), import_max: Some(0) },
        ..ProjectData::default()
    };
    data.consumption_enabled = false;
    data.production_enabled = false;
    data.storage_enabled = false;
    assert!(DashboardFields::refuse_incomplete(&data).is_none());
}
