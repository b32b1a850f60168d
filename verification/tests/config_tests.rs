use optistor::config::{
    default_true, invalid_number_message, series_text, ConnectionConfigData, GridSpecData,
    ProjectData, Requirement, StorageSpecData,
};
use optistor::text::series_tokens;

fn bits(x: f64) -> u64 {
    x.to_bits()
}

/// Reads a typed series the way the configuration form does: split into
/// entries, each a number.
fn read_series(raw: &str) -> Result<Vec<f64>, String> {
    series_tokens(raw)
        .iter()
        .map(|s| s.parse::<f64>().map_err(|_| invalid_number_message(s)))
        .collect()
}

#[test]
fn parse_series_handles_commas_newlines_and_blank_entries() {
    assert_eq!(read_series("1, 2,3\n4  5").unwrap(), vec![1.0, 2.0, 3.0, 4.0, 5.0]);
    assert_eq!(read_series("").unwrap(), Vec::<f64>::new());
    assert_eq!(read_series("  ").unwrap(), Vec::<f64>::new());
}

#[test]
fn parse_series_rejects_non_numeric_entries() {
    assert!(read_series("1, abc, 3").is_err());
    assert_eq!(read_series("1, abc, 3").unwrap_err(), "'abc' no es un numero valido");
}

#[test]
fn fresh_project_is_missing_everything() {
    let data = ProjectData::default();
    let missing = data.missing();
    // objective, time, consumption, production, 3 storage items, grid = 8
    assert_eq!(missing.len(), 8);
}

#[test]
fn disabling_a_component_removes_its_requirement() {
    let mut data = ProjectData {
        objective: Some("cost".to_string()),
        time_period: Some(7),
        time_step: Some(bits(1.0)),
        grid: GridSpecData { export_max: Some(bits(200.0)), import_max: Some(bits(200.0)) },
        ..ProjectData::default()
    };
    data.consumption_enabled = false;
    data.production_enabled = false;
    data.storage_enabled = false;

    assert!(data.missing().is_empty());
}

#[test]
fn complete_configuration_has_nothing_missing() {
    let data = ProjectData {
        objective: Some("cost".to_string()),
        consumption_enabled: true,
        production_enabled: true,
        storage_enabled: true,
        connections: ConnectionConfigData::default(),
        time_period: Some(7),
        time_step: Some(bits(1.0)),
        consumption_values: Some(vec![bits(100.0), bits(120.0)]),
        production_values: Some(vec![bits(0.0), bits(10.0)]),
        storage: StorageSpecData {
            charge_max: Some(bits(50.0)),
            discharge_max: Some(bits(50.0)),
            energy_max: Some(bits(100.0)),
            cycle_max: Some(bits(1.0)),
            ..StorageSpecData::default()
        },
        grid: GridSpecData { export_max: Some(bits(200.0)), import_max: Some(bits(200.0)) },
    };

    assert!(data.missing().is_empty());
}

#[test]
fn fresh_project_messages_in_order() {
    let missing = ProjectData::default().missing();
    assert_eq!(
        missing,
        vec![
            "Elige un objetivo de optimizacion (energia o coste).",
            "Define el horizonte temporal (periodo y paso).",
            "Falta el perfil de consumo.",
            "Falta el perfil de produccion.",
            "Falta la potencia de carga/descarga de la bateria.",
            "Falta la capacidad de energia maxima de la bateria.",
            "Falta el maximo de ciclos de la bateria.",
            "Falta la potencia maxima de importacion/exportacion de red.",
        ]
    );
}

#[test]
fn empty_profile_counts_as_missing() {
    let data = ProjectData {
        objective: Some("energy".to_string()),
        time_period: Some(24),
        time_step: Some(bits(1.0)),
        consumption_values: Some(vec![]),
        production_enabled: false,
        storage_enabled: false,
        grid: GridSpecData { export_max: Some(bits(1.0)), import_max: Some(bits(1.0)) },
        ..ProjectData::default()
    };
    assert_eq!(data.missing_requirements_exec(), vec![Requirement::ConsumptionProfile]);
}

#[test]
fn disabling_storage_drops_only_battery_requirements() {
    let data = ProjectData::default();
    let off = ProjectData { storage_enabled: false, ..ProjectData::default() };
    assert_eq!(data.missing().len(), 8);
    assert_eq!(
        off.missing_requirements_exec(),
        vec![
            Requirement::Objective,
            Requirement::TimeHorizon,
            Requirement::ConsumptionProfile,
            Requirement::ProductionProfile,
            Requirement::GridPower,
        ]
    );
}

#[test]
fn half_set_time_horizon_is_missing() {
    let data = ProjectData { time_period: Some(3), ..ProjectData::default() };
    assert!(data.missing_requirements_exec().contains(&Requirement::TimeHorizon));
    let data = ProjectData { time_step: Some(bits(0.5)), ..ProjectData::default() };
    assert!(data.missing_requirements_exec().contains(&Requirement::TimeHorizon));
}

#[test]
fn defaults_enable_everything() {
    assert!(default_true());
    let c = ConnectionConfigData::default();
    assert!(c.production_to_consumption && c.production_to_grid && c.production_to_storage);
    assert!(c.grid_to_consumption && c.grid_to_storage);
    assert!(c.storage_to_consumption && c.storage_to_grid);
    let d = ProjectData::default();
    assert!(d.consumption_enabled && d.production_enabled && d.storage_enabled);
    assert!(d.objective.is_none() && d.time_period.is_none());
}

#[test]
fn series_text_reads_back_as_the_same_entries() {
    let texts = vec!["100".to_string(), "120.5".to_string(), "-3".to_string()];
    let shown = series_text(&Some(texts.clone()));
    assert_eq!(shown, "100, 120.5, -3");
    assert_eq!(series_tokens(&shown), texts);
    assert_eq!(series_text(&None), "");
}

#[test]
fn turning_several_components_off_only_removes_their_requirements() {
    let data = ProjectData { objective: Some("cost".to_string()), ..ProjectData::default() };
    let mut fewer = data.clone();
    fewer.consumption_enabled = false;
    fewer.storage_enabled = false;
    fewer.connections.grid_to_storage = false;
    fewer.storage.charge_eff = Some(bits(0.9));
    let all = data.missing();
    let left = fewer.missing();
    assert_eq!(
        left,
        vec![
            "Define el horizonte temporal (periodo y paso).".to_string(),
            "Falta el perfil de produccion.".to_string(),
            "Falta la potencia maxima de importacion/exportacion de red.".to_string(),
        ]
    );
    assert!(left.iter().all(|m| all.contains(m)));
}
