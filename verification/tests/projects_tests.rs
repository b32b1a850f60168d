use optistor::auth::{AuthUser, Role};
use optistor::projects::{
    check_form_org, check_project_references, form_org_for, project_org_for, require_internal,
    scope_for, ApiError,
};

fn partner(org: u128) -> AuthUser {
    AuthUser { user_id: 1, role: Role::Partner, org_id: Some(org) }
}

fn internal() -> AuthUser {
    AuthUser { user_id: 2, role: Role::Internal, org_id: None }
}

fn bad_request_text<T: std::fmt::Debug>(r: Result<T, ApiError>) -> String {
    match r {
        Err(ApiError::BadRequest(m)) => m,
        other => panic!("expected a bad request, got {other:?}"),
    }
}

#[test]
fn partner_scope_is_own_org() {
    assert_eq!(scope_for(&partner(42)), Some(42));
    assert_eq!(scope_for(&internal()), None);
}

#[test]
fn only_internal_manages_reference_data() {
    assert!(require_internal(&internal()).is_ok());
    assert!(matches!(require_internal(&partner(1)), Err(ApiError::Forbidden)));
}

#[test]
fn partner_projects_go_to_own_org() {
    assert_eq!(project_org_for(&partner(5), Some(99)).unwrap(), 5);
    assert_eq!(project_org_for(&partner(5), None).unwrap(), 5);
    assert_eq!(project_org_for(&internal(), Some(99)).unwrap(), 99);
    assert_eq!(
        bad_request_text(project_org_for(&internal(), None)),
        "org_id is required for internal users"
    );
}

#[test]
fn references_must_exist() {
    assert_eq!(bad_request_text(check_project_references(false, Some(true))), "unknown org_id");
    assert_eq!(bad_request_text(check_project_references(true, Some(false))), "unknown market_id");
    assert!(check_project_references(true, None).is_ok());
    assert!(check_project_references(true, Some(true)).is_ok());
    assert!(check_form_org(true).is_ok());
    assert_eq!(bad_request_text(check_form_org(false)), "organizacion desconocida");
}

#[test]
fn form_org_is_trimmed_and_parsed() {
    let id = "67e55044-10b1-426f-9247-bb680e5fe0c8";
    let expected = 0x67e5504410b1426f9247bb680e5fe0c8u128;
    assert_eq!(form_org_for(&internal(), Some(format!("  {id} "))).unwrap(), expected);
    assert_eq!(bad_request_text(form_org_for(&internal(), None)), "org_id es obligatorio");
    assert_eq!(bad_request_text(form_org_for(&internal(), Some("  ".into()))), "org_id es obligatorio");
    assert_eq!(bad_request_text(form_org_for(&internal(), Some("nope".into()))), "org_id invalido");
    assert_eq!(form_org_for(&partner(3), Some("nope".into())).unwrap(), 3);
}

#[test]
fn api_error_statuses() {
    assert_eq!(ApiError::Forbidden.status_code(), 403);
    assert_eq!(ApiError::NotFound.status_code(), 404);
    assert_eq!(ApiError::BadRequest("x".into()).status_code(), 400);
    assert_eq!(ApiError::Internal("x".into()).status_code(), 500);
}
