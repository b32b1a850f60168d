use optistor::db::{Market, MarketRow, Project, ProjectRow, RowError};

const ID: &str = "67e55044-10b1-426f-9247-bb680e5fe0c8";
const ID_VALUE: u128 = 0x67e5504410b1426f9247bb680e5fe0c8;

#[test]
fn market_row_decodes_its_id() {
    let m = Market::from_row(MarketRow {
        id: ID.into(),
        name: "Espana (OMIE)".into(),
        country_code: "ES".into(),
        tariff_model_key: "spain".into(),
    })
    .unwrap();
    assert_eq!(m.id, ID_VALUE);
    assert_eq!(m.name, "Espana (OMIE)");
    assert_eq!(m.country_code, "ES");
    assert_eq!(m.tariff_model_key, "spain");
    let bad = Market::from_row(MarketRow {
        id: "x".into(),
        name: String::new(),
        country_code: String::new(),
        tariff_model_key: String::new(),
    });
    assert!(matches!(bad, Err(RowError::BadId(_))));
}

fn row(market: Option<&str>, data: &str) -> ProjectRow {
    ProjectRow {
        id: ID.into(),
        org_id: "00000000-0000-0000-0000-000000000001".into(),
        market_id: market.map(|s| s.to_string()),
        name: "Sin mercado asignado".into(),
        data: data.into(),
    }
}

#[test]
fn project_row_without_market_is_allowed() {
    let p = Project::from_row(row(None, "{}")).unwrap();
    assert_eq!(p.market_id, None);
    assert_eq!(p.id, ID_VALUE);
    assert_eq!(p.org_id, 1);
    assert_eq!(p.data, serde_json::Value::Object(serde_json::Map::new()));
}

#[test]
fn project_row_with_market_and_data() {
    let p = Project::from_row(row(Some(ID), "{\"config\": {\"objective\": \"cost\"}}")).unwrap();
    assert_eq!(p.market_id, Some(ID_VALUE));
    assert_eq!(p.data["config"]["objective"], "cost");
}

#[test]
fn project_row_errors() {
    assert!(matches!(Project::from_row(row(Some("bad"), "{}")), Err(RowError::BadId(_))));
    assert!(matches!(Project::from_row(row(None, "{not json")), Err(RowError::BadData(_))));
    assert!(matches!(Project::from_row(row(Some("bad"), "{not json")), Err(RowError::BadId(_))));
}
