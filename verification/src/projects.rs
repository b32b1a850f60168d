//! Who may do what with organizations, markets and projects: partner
//! accounts are scoped to their own organization, internal accounts see
//! everything and manage the shared reference data.

use vstd::prelude::*;
use crate::auth::{AuthUser, Role};
use crate::db::{parse_uuid, uuid_value};
use crate::text::{trim, trimmed};

verus! {

broadcast use vstd::string::group_string_axioms;

/// Why a request is refused.
#[derive(Debug)]
pub enum ApiError {
    /// The caller's role may not do this.
    Forbidden,
    /// No such record within the caller's scope.
    NotFound,
    /// The request itself is wrong.
    BadRequest(String),
    /// The store failed.
    Internal(String),
}

/// `r` is a bad-request refusal saying `msg`.
pub open spec fn is_bad_request<T>(r: Result<T, ApiError>, msg: Seq<char>) -> bool {
    r matches Err(ApiError::BadRequest(m)) && m@ == msg
}

impl ApiError {
    /// The HTTP status of the refusal.
    pub fn status_code(&self) -> (r: u16)
        ensures
            r == match *self {
                ApiError::Forbidden => 403u16,
                ApiError::NotFound => 404u16,
                ApiError::BadRequest(_) => 400u16,
                ApiError::Internal(_) => 500u16,
            },
    {
        match self {
            ApiError::Forbidden => 403,
            ApiError::NotFound => 404,
            ApiError::BadRequest(_) => 400,
            ApiError::Internal(_) => 500,
        }
    }
}

/// The organization whose records a user may see: a partner's own, or
/// `None` (every organization) for internal users.
pub open spec fn scope_spec(user: AuthUser) -> Option<u128> {
    match user.role {
        Role::Partner => user.org_id,
        Role::Internal => None,
    }
}

/// The scope of a user's queries.
pub fn scope_for(user: &AuthUser) -> (r: Option<u128>)
    requires
        user.wf(),
    ensures
        r == scope_spec(*user),
        user.role == Role::Partner ==> r == user.org_id && r is Some,
        user.role == Role::Internal ==> r is None,
{
    match user.role {
        Role::Partner => user.org_id,
        Role::Internal => None,
    }
}

/// A record of organization `owner` is visible in `scope`.
pub open spec fn visible_in(scope: Option<u128>, owner: u128) -> bool {
    match scope {
        None => true,
        Some(org) => org == owner,
    }
}

/// A partner sees exactly its own organization's records; an internal user
/// sees every organization's.
pub proof fn lemma_scope_isolates_partners(user: AuthUser, owner: u128)
    requires
        user.wf(),
    ensures
        user.role == Role::Partner ==> (visible_in(scope_spec(user), owner) <==> user.org_id
            == Some(owner)),
        user.role == Role::Internal ==> visible_in(scope_spec(user), owner),
{
}

/// Shared reference data (organizations, markets) is managed by internal
/// users only.
pub fn require_internal(user: &AuthUser) -> (r: Result<(), ApiError>)
    ensures
        r is Ok <==> user.role == Role::Internal,
        r matches Err(e) ==> e is Forbidden,
{
    if user.role == Role::Internal {
        Ok(())
    } else {
        Err(ApiError::Forbidden)
    }
}

/// The organization a new project goes into through the JSON API: a
/// partner's own, whatever was asked for; an internal user must name one.
pub fn project_org_for(user: &AuthUser, requested: Option<u128>) -> (r: Result<u128, ApiError>)
    requires
        user.wf(),
    ensures
        user.role == Role::Partner ==> r == Ok::<u128, ApiError>(user.org_id->0),
        user.role == Role::Internal ==> match requested {
            Some(o) => r == Ok::<u128, ApiError>(o),
            None => is_bad_request(r, "org_id is required for internal users"@),
        },
{
    match user.role {
        Role::Partner => match user.org_id {
            Some(o) => Ok(o),
            None => {
                assert(false);
                Err(ApiError::Forbidden)
            },
        },
        Role::Internal => match requested {
            Some(o) => Ok(o),
            None => Err(ApiError::BadRequest(String::from_str("org_id is required for internal users"))),
        },
    }
}

/// A new project must reference an existing organization and, when it
/// names one, an existing market; the organization is checked first.
pub fn check_project_references(org_exists: bool, market_exists: Option<bool>) -> (r: Result<
    (),
    ApiError,
>)
    ensures
        !org_exists ==> is_bad_request(r, "unknown org_id"@),
        org_exists && market_exists == Some(false) ==> is_bad_request(r, "unknown market_id"@),
        org_exists && market_exists != Some(false) ==> r is Ok,
{
    if !org_exists {
        return Err(ApiError::BadRequest(String::from_str("unknown org_id")));
    }
    match market_exists {
        Some(false) => Err(ApiError::BadRequest(String::from_str("unknown market_id"))),
        _ => Ok(()),
    }
}

/// The organization typed into the new-project form by an internal user.
pub open spec fn form_org_spec(raw: Option<String>) -> Result<u128, Seq<char>> {
    match raw {
        None => Err("org_id es obligatorio"@),
        Some(t) => if trimmed(t@).len() == 0 {
            Err("org_id es obligatorio"@)
        } else {
            match uuid_value(trimmed(t@)) {
                Some(v) => Ok(v),
                None => Err("org_id invalido"@),
            }
        },
    }
}

/// The organization a project created from the form goes into: a
/// partner's own; for an internal user, the (trimmed) UUID typed in, which
/// must be present and valid.
pub fn form_org_for(user: &AuthUser, raw: Option<String>) -> (r: Result<u128, ApiError>)
    requires
        user.wf(),
    ensures
        user.role == Role::Partner ==> r == Ok::<u128, ApiError>(user.org_id->0),
        user.role == Role::Internal ==> match form_org_spec(raw) {
            Ok(v) => r == Ok::<u128, ApiError>(v),
            Err(m) => is_bad_request(r, m),
        },
{
    match user.role {
        Role::Partner => match user.org_id {
            Some(o) => Ok(o),
            None => {
                assert(false);
                Err(ApiError::Forbidden)
            },
        },
        Role::Internal => {
            let raw = match raw {
                Some(t) => t,
                None => {
                    return Err(ApiError::BadRequest(String::from_str("org_id es obligatorio")));
                },
            };
            let t = trim(raw.as_str());
            if t.unicode_len() == 0 {
                return Err(ApiError::BadRequest(String::from_str("org_id es obligatorio")));
            }
            match parse_uuid(t.as_str()) {
                Ok(v) => Ok(v),
                Err(_) => Err(ApiError::BadRequest(String::from_str("org_id invalido"))),
            }
        },
    }
}

/// A form-created project must go into an existing organization.
pub fn check_form_org(org_exists: bool) -> (r: Result<(), ApiError>)
    ensures
        r is Ok <==> org_exists,
        !org_exists ==> is_bad_request(r, "organizacion desconocida"@),
{
    if org_exists {
        Ok(())
    } else {
        Err(ApiError::BadRequest(String::from_str("organizacion desconocida")))
    }
}

} // verus!
