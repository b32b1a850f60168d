use optistor::config::{GridSpecData, ProjectData, StorageSpecData};
use optistor::engine::{
    check_reply, effective_eff, storage_settings, unexpected_solve_reply, EngineCall,
    EngineError, EngineReply, SolveRun, SolveStage, FLAT_EXPORT_PRICE_BITS,
    FLAT_IMPORT_PRICE_BITS, ONE_BITS,
};

fn bits(x: f64) -> u64 {
    x.to_bits()
}

fn path_of(call: &EngineCall) -> String {
    match call {
        EngineCall::SetTime { path, .. }
        | EngineCall::SetProfile { path, .. }
        | EngineCall::SetStorage { path, .. }
        | EngineCall::ComputeTariff { path, .. }
        | EngineCall::SetGrid { path, .. }
        | EngineCall::Solve { path }
        | EngineCall::CloseSession { path } => path.clone(),
        EngineCall::CreateSession(_) => "/sessions".to_string(),
        EngineCall::Finish(_) => "<finish>".to_string(),
    }
}

fn complete(objective: &str) -> ProjectData {
    ProjectData {
        objective: Some(objective.to_string()),
        time_period: Some(3),
        time_step: Some(bits(0.5)),
        consumption_values: Some(vec![bits(1.0), bits(2.0), bits(3.0)]),
        production_values: Some(vec![bits(0.0), bits(4.0), bits(0.0)]),
        storage: StorageSpecData {
            charge_max: Some(bits(50.0)),
            discharge_max: Some(bits(40.0)),
            energy_max: Some(bits(100.0)),
            cycle_max: Some(bits(2.0)),
            charge_eff: Some(bits(0.0)),
            ..StorageSpecData::default()
        },
        grid: GridSpecData { export_max: Some(bits(10.0)), import_max: Some(bits(20.0)) },
        ..ProjectData::default()
    }
}

#[test]
fn error_messages() {
    assert_eq!(
        EngineError::Http("timeout".into()).message(),
        "no se pudo contactar con el motor: timeout"
    );
    assert_eq!(
        EngineError::Api { status: 422, detail: "bad input".into() }.message(),
        "el motor devolvio 422: bad input"
    );
}

#[test]
fn replies_are_judged_by_status() {
    assert!(check_reply(200, None).is_ok());
    assert!(check_reply(299, Some("x".into())).is_ok());
    match check_reply(404, None) {
        Err(EngineError::Api { status, detail }) => {
            assert_eq!(status, 404);
            assert_eq!(detail, "error desconocido");
        }
        other => panic!("unexpected {other:?}"),
    }
    match check_reply(500, Some("boom".into())) {
        Err(EngineError::Api { detail, .. }) => assert_eq!(detail, "boom"),
        other => panic!("unexpected {other:?}"),
    }
    match unexpected_solve_reply("missing field `time`") {
        EngineError::Api { status, detail } => {
            assert_eq!(status, 500);
            assert_eq!(detail, "respuesta de solve inesperada: missing field `time`");
        }
        other => panic!("unexpected {other:?}"),
    }
}

#[test]
fn blank_efficiency_is_one() {
    assert_eq!(effective_eff(None), bits(1.0));
    assert_eq!(effective_eff(Some(bits(0.0))), bits(1.0));
    assert_eq!(effective_eff(Some(bits(-0.0))), bits(1.0));
    assert_eq!(effective_eff(Some(bits(0.9))), bits(0.9));
    assert_eq!(ONE_BITS, bits(1.0));
    assert_eq!(FLAT_EXPORT_PRICE_BITS, bits(-0.05));
    assert_eq!(FLAT_IMPORT_PRICE_BITS, bits(0.20));
}

#[test]
fn storage_defaults() {
    let s = storage_settings(&ProjectData::default());
    assert_eq!(s.power_cap, (0, 0));
    assert_eq!(s.energy_cap, (0, 0));
    assert_eq!(s.efficiency, (bits(1.0), bits(1.0)));
    assert_eq!(s.cycle_max, bits(1.0));
    assert_eq!(s.energy_init, None);
}

#[test]
fn full_cost_run_without_market_uses_flat_prices() {
    let mut run = SolveRun::new(complete("cost"), None);
    let call = run.next(EngineReply::Nothing);
    match &call {
        EngineCall::CreateSession(t) => {
            assert_eq!(t.objective, "cost");
            assert!(t.consumption && t.production && t.storage);
        }
        other => panic!("unexpected {other:?}"),
    }
    let call = run.next(EngineReply::SessionCreated(Some("s1".into())));
    match &call {
        EngineCall::SetTime { path, period, step } => {
            assert_eq!(path, "/sessions/s1/time");
            assert_eq!(*period, 3);
            assert_eq!(*step, bits(0.5));
        }
        other => panic!("unexpected {other:?}"),
    }
    let call = run.next(EngineReply::Done);
    assert_eq!(path_of(&call), "/sessions/s1/consumption");
    let call = run.next(EngineReply::Done);
    assert_eq!(path_of(&call), "/sessions/s1/production");
    let call = run.next(EngineReply::Done);
    match &call {
        EngineCall::SetStorage { path, settings } => {
            assert_eq!(path, "/sessions/s1/storage");
            assert_eq!(settings.power_cap, (bits(50.0), bits(40.0)));
            assert_eq!(settings.efficiency, (bits(1.0), bits(1.0)));
            assert_eq!(settings.cycle_max, bits(2.0));
        }
        other => panic!("unexpected {other:?}"),
    }
    let call = run.next(EngineReply::Done);
    match &call {
        EngineCall::SetGrid { path, power_cap, energy_cost } => {
            assert_eq!(path, "/sessions/s1/grid");
            assert_eq!(*power_cap, (bits(10.0), bits(20.0)));
            let (e, i) = energy_cost.as_ref().unwrap();
            assert_eq!(e, &vec![bits(-0.05); 3]);
            assert_eq!(i, &vec![bits(0.20); 3]);
        }
        other => panic!("unexpected {other:?}"),
    }
    let call = run.next(EngineReply::Done);
    assert_eq!(path_of(&call), "/sessions/s1/solve");
    let call = run.next(EngineReply::Done);
    assert_eq!(path_of(&call), "/sessions/s1");
    assert!(matches!(call, EngineCall::CloseSession { .. }));
    let call = run.next(EngineReply::Done);
    assert!(matches!(call, EngineCall::Finish(Ok(()))));
    assert_eq!(run.stage, SolveStage::Finished);
}

#[test]
fn market_tariff_is_tried_and_falls_back() {
    let mut run = SolveRun::new(complete("cost"), Some("spain".into()));
    run.next(EngineReply::Nothing);
    run.next(EngineReply::SessionCreated(Some("s".into())));
    run.next(EngineReply::Done);
    run.next(EngineReply::Done);
    let call = run.next(EngineReply::Done);
    assert!(matches!(call, EngineCall::SetStorage { .. }));
    let call = run.next(EngineReply::Done);
    match &call {
        EngineCall::ComputeTariff { path, periods } => {
            assert_eq!(path, "/tariffs/spain/compute");
            assert_eq!(*periods, 3);
        }
        other => panic!("unexpected {other:?}"),
    }
    let call = run.next(EngineReply::TariffComputed(None));
    match &call {
        EngineCall::SetGrid { energy_cost: Some((e, _)), .. } => assert_eq!(e, &vec![bits(-0.05); 3]),
        other => panic!("unexpected {other:?}"),
    }

    let mut run = SolveRun::new(complete("cost"), Some("spain".into()));
    run.next(EngineReply::Nothing);
    run.next(EngineReply::SessionCreated(Some("s".into())));
    for _ in 0..4 {
        run.next(EngineReply::Done);
    }
    let call = run.next(EngineReply::TariffComputed(Some((vec![1, 2], vec![3, 4]))));
    match &call {
        EngineCall::SetGrid { energy_cost: Some((e, i)), .. } => {
            assert_eq!(e, &vec![1, 2]);
            assert_eq!(i, &vec![3, 4]);
        }
        other => panic!("unexpected {other:?}"),
    }
}

#[test]
fn energy_objective_sends_no_prices_and_skips_disabled_components() {
    let data = ProjectData {
        production_enabled: false,
        storage_enabled: false,
        ..complete("energy")
    };
    let mut run = SolveRun::new(data, Some("spain".into()));
    run.next(EngineReply::Nothing);
    run.next(EngineReply::SessionCreated(Some("s".into())));
    let call = run.next(EngineReply::Done);
    assert_eq!(path_of(&call), "/sessions/s/consumption");
    let call = run.next(EngineReply::Done);
    match &call {
        EngineCall::SetGrid { energy_cost, .. } => assert!(energy_cost.is_none()),
        other => panic!("unexpected {other:?}"),
    }
}

#[test]
fn failure_closes_the_session_then_reports() {
    let mut run = SolveRun::new(complete("cost"), None);
    run.next(EngineReply::Nothing);
    run.next(EngineReply::SessionCreated(Some("s9".into())));
    let call = run.next(EngineReply::Failed(EngineError::Http("down".into())));
    assert_eq!(path_of(&call), "/sessions/s9");
    assert!(matches!(call, EngineCall::CloseSession { .. }));
    let call = run.next(EngineReply::Failed(EngineError::Http("delete failed".into())));
    match call {
        EngineCall::Finish(Err(EngineError::Http(m))) => assert_eq!(m, "down"),
        other => panic!("unexpected {other:?}"),
    }
}

#[test]
fn missing_session_id_is_an_api_error() {
    let mut run = SolveRun::new(ProjectData::default(), None);
    run.next(EngineReply::Nothing);
    match run.next(EngineReply::SessionCreated(None)) {
        EngineCall::Finish(Err(EngineError::Api { status, detail })) => {
            assert_eq!(status, 500);
            assert_eq!(detail, "el motor no devolvio session_id");
        }
        other => panic!("unexpected {other:?}"),
    }
}

#[test]
fn defaults_when_time_is_unset() {
    let mut run = SolveRun::new(ProjectData { objective: None, ..ProjectData::default() }, None);
    match run.next(EngineReply::Nothing) {
        EngineCall::CreateSession(t) => assert_eq!(t.objective, "cost"),
        other => panic!("unexpected {other:?}"),
    }
    match run.next(EngineReply::SessionCreated(Some("s".into()))) {
        EngineCall::SetTime { period, step, .. } => {
            assert_eq!(period, 2);
            assert_eq!(step, bits(1.0));
        }
        other => panic!("unexpected {other:?}"),
    }
}

#[test]
fn every_run_ends_within_ten_calls() {
    // Whatever the engine answers, each reply moves the run forward.
    let answers: Vec<fn(usize) -> EngineReply> = vec![
        |_| EngineReply::Done,
        |k| if k == 1 { EngineReply::SessionCreated(Some("s".into())) } else { EngineReply::Done },
        |k| if k == 1 { EngineReply::SessionCreated(None) } else { EngineReply::Done },
        |k| match k {
            1 => EngineReply::SessionCreated(Some("s".into())),
            4 => EngineReply::Failed(EngineError::Http("down".into())),
            _ => EngineReply::Done,
        },
    ];
    for answer in answers {
        for key in [None, Some("spain".to_string())] {
            let mut run = SolveRun::new(complete("cost"), key);
            let mut reply = EngineReply::Nothing;
            let mut calls = 0;
            loop {
                let call = run.next(reply);
                calls += 1;
                assert!(calls <= 10, "run did not finish");
                if let EngineCall::Finish(_) = call {
                    assert_eq!(run.stage, SolveStage::Finished);
                    assert!(run.session.is_none());
                    break;
                }
                reply = answer(calls);
            }
        }
    }
}
