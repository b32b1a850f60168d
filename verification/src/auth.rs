//! Who is calling: bearer tokens, the signing keys they are checked
//! against, and the role and organization read from a verified token.
//!
//! The server never sees passwords: the identity provider issues an
//! ES256-signed token after login, and each request presents it. The
//! token's header names the signing key; the key set is fetched from the
//! provider (and cached); the token's claims carry the user id and, in the
//! user's app metadata, the `internal`/`partner` role and the organization.

use vstd::prelude::*;
use crate::text::{chars_of, concat_text, push_char, string_from_chars};

verus! {

broadcast use vstd::string::group_string_axioms;

#[verifier::external_type_specification]
#[verifier::external_body]
pub struct ExDecodingKey(jsonwebtoken::DecodingKey);

#[verifier::external_type_specification]
#[verifier::external_body]
pub struct ExJwtError(jsonwebtoken::errors::Error);

/// What kind of account a user has.
#[derive(Debug, Clone, Copy, PartialEq, Eq, Structural)]
pub enum Role {
    /// Staff: sees every organization's projects.
    Internal,
    /// A client account, tied to one organization.
    Partner,
}

/// The caller of a request, as established from a verified token.
#[derive(Debug, Clone, Copy, PartialEq, Eq, Structural)]
pub struct AuthUser {
    pub user_id: u128,
    pub role: Role,
    pub org_id: Option<u128>,
}

impl AuthUser {
    /// A partner always belongs to an organization.
    pub open spec fn wf(self) -> bool {
        self.role == Role::Partner ==> self.org_id is Some
    }
}

/// Why a request could not be authenticated.
#[derive(Debug, Clone)]
pub enum AuthError {
    MissingToken,
    InvalidToken(String),
    IncompleteProfile,
    JwksFetch(String),
}

pub open spec fn auth_error_message(e: AuthError) -> Seq<char> {
    match e {
        AuthError::MissingToken => "missing or malformed Authorization header"@,
        AuthError::InvalidToken(msg) => "token verification failed: "@ + msg@,
        AuthError::IncompleteProfile => "user is missing required app_metadata (role/org_id)"@,
        AuthError::JwksFetch(msg) => "failed to fetch signing keys: "@ + msg@,
    }
}

impl AuthError {
    /// The text shown to the caller.
    pub fn message(&self) -> (r: String)
        ensures
            r@ == auth_error_message(*self),
    {
        match self {
            AuthError::MissingToken => String::from_str("missing or malformed Authorization header"),
            AuthError::InvalidToken(msg) => concat_text("token verification failed: ", msg.as_str()),
            AuthError::IncompleteProfile => String::from_str(
                "user is missing required app_metadata (role/org_id)",
            ),
            AuthError::JwksFetch(msg) => concat_text("failed to fetch signing keys: ", msg.as_str()),
        }
    }

    /// The HTTP status of the refusal: 503 when the signing keys could not
    /// be fetched, 401 otherwise.
    pub fn status_code(&self) -> (r: u16)
        ensures
            r == (if *self is JwksFetch {
                503u16
            } else {
                401u16
            }),
    {
        match self {
            AuthError::JwksFetch(_) => 503,
            _ => 401,
        }
    }
}

// ---------------------------------------------------------------------
// Bearer tokens
// ---------------------------------------------------------------------
pub open spec fn bearer_prefix() -> Seq<char> {
    seq!['B', 'e', 'a', 'r', 'e', 'r', ' ']
}

/// The token of an `Authorization: Bearer <token>` header value.
pub open spec fn bearer_token_spec(authorization: Option<Seq<char>>) -> Option<Seq<char>> {
    match authorization {
        Some(h) => if h.len() >= 7 && h.subrange(0, 7) == bearer_prefix() {
            Some(h.subrange(7, h.len() as int))
        } else {
            None
        },
        None => None,
    }
}

pub open spec fn opt_str_text(a: Option<&str>) -> Option<Seq<char>> {
    match a {
        Some(h) => Some(h@),
        None => None,
    }
}

/// The header value is `Bearer ` followed by `token`.
pub open spec fn bearer_of(authorization: Option<&str>, token: Seq<char>) -> bool {
    match authorization {
        Some(h) => h@ == "Bearer "@ + token,
        None => false,
    }
}

/// Reads the token from the `Authorization` header's value (absent when the
/// header is missing or not visible ASCII): the text after `Bearer `.
pub fn bearer_token(authorization: Option<&str>) -> (r: Result<String, AuthError>)
    ensures
        match r {
            Ok(t) => bearer_token_spec(opt_str_text(authorization)) == Some(t@),
            Err(e) => bearer_token_spec(opt_str_text(authorization)) is None && e
                is MissingToken,
        },
        match r {
            Ok(t) => bearer_of(authorization, t@),
            Err(_) => forall|t: Seq<char>| !bearer_of(authorization, t),
        },
{
    proof {
        reveal_strlit("Bearer ");
        assert("Bearer "@ =~= bearer_prefix());
        if let Some(h) = authorization {
            assert forall|t: Seq<char>| #[trigger] bearer_of(authorization, t) implies h@.len() >= 7
                && h@.subrange(0, 7) == bearer_prefix() && h@.subrange(7, h@.len() as int) == t by {
                assert(h@.subrange(0, 7) =~= bearer_prefix());
                assert(h@.subrange(7, h@.len() as int) =~= t);
            }
        }
    }
    match authorization {
        None => Err(AuthError::MissingToken),
        Some(h) => {
            let cs = chars_of(h);
            let n = cs.len();
            if n >= 7 && cs[0] == 'B' && cs[1] == 'e' && cs[2] == 'a' && cs[3] == 'r' && cs[4]
                == 'e' && cs[5] == 'r' && cs[6] == ' ' {
                assert(cs@.subrange(0, 7) =~= bearer_prefix());
                let t = string_from_chars(&cs, 7, n);
                assert(h@ =~= "Bearer "@ + t@);
                Ok(t)
            } else {
                proof {
                    if n >= 7 && cs@.subrange(0, 7) == bearer_prefix() {
                        assert(cs@.subrange(0, 7)[0] == cs@[0]);
                        assert(cs@.subrange(0, 7)[1] == cs@[1]);
                        assert(cs@.subrange(0, 7)[2] == cs@[2]);
                        assert(cs@.subrange(0, 7)[3] == cs@[3]);
                        assert(cs@.subrange(0, 7)[4] == cs@[4]);
                        assert(cs@.subrange(0, 7)[5] == cs@[5]);
                        assert(cs@.subrange(0, 7)[6] == cs@[6]);
                    }
                }
                Err(AuthError::MissingToken)
            }
        },
    }
}

// ---------------------------------------------------------------------
// The token header
// ---------------------------------------------------------------------
/// What `jsonwebtoken::decode_header` reads from a token: `None` when the
/// token is not three dot-separated parts with a decodable header, else
/// the header's key id (`kid`), which may be absent.
pub uninterp spec fn header_key_id(token: Seq<char>) -> Option<Option<Seq<char>>>;

pub open spec fn opt_text(k: Option<String>) -> Option<Seq<char>> {
    match k {
        Some(s) => Some(s@),
        None => None,
    }
}

/// `jsonwebtoken::decode_header`, reduced to the header's key id. Trusted:
/// its result is stated as the name `header_key_id` of the token, so a
/// token decodes the same way every time; what decodes is not stated.
#[verifier::external_body]
fn decode_header_kid(token: &str) -> (r: Result<Option<String>, jsonwebtoken::errors::Error>)
    ensures
        match r {
            Ok(k) => header_key_id(token@) == Some(opt_text(k)),
            Err(_) => header_key_id(token@) is None,
        },
{
    jsonwebtoken::decode_header(token).map(|h| h.kid)
}

/// The text of a `jsonwebtoken` error (its `Display`). Trusted; nothing is
/// stated of the text.
#[verifier::external_body]
fn jwt_error_text(e: &jsonwebtoken::errors::Error) -> String {
    e.to_string()
}

/// `r` refuses the token as invalid, saying `msg`.
pub open spec fn refused_as_invalid<T>(r: Result<T, AuthError>, msg: Seq<char>) -> bool {
    r matches Err(AuthError::InvalidToken(m)) && m@ == msg
}

pub open spec fn key_id_spec(token: Seq<char>) -> Option<Seq<char>> {
    match header_key_id(token) {
        Some(Some(k)) => Some(k),
        _ => None,
    }
}

/// The id of the key that signed `token`: an `InvalidToken` error when the
/// header cannot be decoded or names no key.
pub fn key_id_of(token: &str) -> (r: Result<String, AuthError>)
    ensures
        match r {
            Ok(k) => key_id_spec(token@) == Some(k@),
            Err(e) => key_id_spec(token@) is None && e is InvalidToken,
        },
        header_key_id(token@) == Some(None::<Seq<char>>) ==> refused_as_invalid(
            r,
            "token has no key id"@,
        ),
{
    match decode_header_kid(token) {
        Ok(Some(k)) => Ok(k),
        Ok(None) => Err(AuthError::InvalidToken(String::from_str("token has no key id"))),
        Err(e) => Err(AuthError::InvalidToken(jwt_error_text(&e))),
    }
}

// ---------------------------------------------------------------------
// Signing keys
// ---------------------------------------------------------------------
/// How long a fetched key set is used before it is fetched again.
pub const JWKS_CACHE_TTL_SECS: u64 = 600;

/// A cached key set is used while it is younger than the time to live.
pub fn cache_is_fresh(age_nanos: u128) -> (r: bool)
    ensures
        r == (age_nanos < JWKS_CACHE_TTL_SECS * 1_000_000_000),
        r == (age_nanos < 600_000_000_000),
{
    age_nanos < 600_000_000_000
}

/// `s` without any trailing `/`.
pub open spec fn without_trailing_slashes(s: Seq<char>) -> Seq<char>
    decreases s.len(),
{
    if s.len() > 0 && s.last() == '/' {
        without_trailing_slashes(s.drop_last())
    } else {
        s
    }
}

pub open spec fn jwks_path() -> Seq<char> {
    "/auth/v1/.well-known/jwks.json"@
}

proof fn lemma_without_trailing_slashes_at(s: Seq<char>, j: int)
    requires
        0 <= j <= s.len(),
        forall|k: int| j <= k < s.len() ==> #[trigger] s[k] == '/',
        j == 0 || s[j - 1] != '/',
    ensures
        without_trailing_slashes(s) == s.subrange(0, j),
    decreases s.len() - j,
{
    if j < s.len() {
        assert forall|k: int| j <= k < s.drop_last().len() implies #[trigger] s.drop_last()[k]
            == '/' by {
            assert(s.drop_last()[k] == s[k]);
        }
        lemma_without_trailing_slashes_at(s.drop_last(), j);
        assert(s.drop_last().subrange(0, j) =~= s.subrange(0, j));
    } else {
        assert(s.subrange(0, j) =~= s);
    }
}

/// Where the identity provider publishes its signing keys.
pub fn jwks_url(supabase_url: &str) -> (r: String)
    ensures
        r@ == without_trailing_slashes(supabase_url@) + jwks_path(),
        r@ == without_trailing_slashes(supabase_url@) + "/auth/v1/.well-known/jwks.json"@,
{
    let cs = chars_of(supabase_url);
    let mut j = cs.len();
    while j > 0 && cs[j - 1] == '/'
        invariant
            j <= cs.len(),
            forall|k: int| j <= k < cs.len() ==> #[trigger] cs@[k] == '/',
        decreases j,
    {
        j = j - 1;
    }
    proof {
        lemma_without_trailing_slashes_at(cs@, j as int);
    }
    let mut r = string_from_chars(&cs, 0, j);
    r.append("/auth/v1/.well-known/jwks.json");
    r
}

/// One published key: its id, algorithm and EC point coordinates.
#[derive(Debug, Clone)]
pub struct Jwk {
    pub kid: String,
    pub alg: String,
    pub x: String,
    pub y: String,
}

/// Only asymmetric EC keys (ES256) are used to verify tokens.
pub open spec fn is_es256(j: Jwk) -> bool {
    j.alg@ == "ES256"@
}

/// Whether `DecodingKey::from_ec_components` accepts the coordinates
/// (both decode as unpadded URL-safe base64).
pub uninterp spec fn ec_components_valid(x: Seq<char>, y: Seq<char>) -> bool;

/// The verification key `DecodingKey::from_ec_components` builds from the
/// coordinates (the uncompressed EC point they encode).
pub uninterp spec fn ec_key(x: Seq<char>, y: Seq<char>) -> jsonwebtoken::DecodingKey;

/// `jsonwebtoken::DecodingKey::from_ec_components`. Trusted: it succeeds
/// exactly when the coordinates are accepted, and then builds the key
/// `ec_key` of the coordinates; both depend on the coordinates alone. What
/// the key holds is not described.
#[verifier::external_body]
fn ec_decoding_key(x: &str, y: &str) -> (r: Result<
    jsonwebtoken::DecodingKey,
    jsonwebtoken::errors::Error,
>)
    ensures
        r is Ok <==> ec_components_valid(x@, y@),
        r matches Ok(k) ==> k == ec_key(x@, y@),
{
    jsonwebtoken::DecodingKey::from_ec_components(x, y)
}

/// A usable key, with the key id it is published under and, as ghost
/// state, the coordinates it was built from.
pub struct KeyEntry {
    pub kid: String,
    pub key: jsonwebtoken::DecodingKey,
    pub source: Ghost<(Seq<char>, Seq<char>)>,
}

/// The signing keys, by key id.
pub struct KeySet {
    entries: Vec<KeyEntry>,
}

/// The coordinates of the last ES256 key published under `kid`.
pub open spec fn es256_source(jwks: Seq<Jwk>, kid: Seq<char>) -> Option<(Seq<char>, Seq<char>)>
    decreases jwks.len(),
{
    if jwks.len() == 0 {
        None
    } else if is_es256(jwks.last()) && jwks.last().kid@ == kid {
        Some((jwks.last().x@, jwks.last().y@))
    } else {
        es256_source(jwks.drop_last(), kid)
    }
}

/// The source of the last entry under `kid`.
pub open spec fn entries_source(entries: Seq<KeyEntry>, kid: Seq<char>) -> Option<
    (Seq<char>, Seq<char>),
>
    decreases entries.len(),
{
    if entries.len() == 0 {
        None
    } else if entries.last().kid@ == kid {
        Some(entries.last().source@)
    } else {
        entries_source(entries.drop_last(), kid)
    }
}

/// Index of the last entry under `kid`.
pub open spec fn last_index_of(entries: Seq<KeyEntry>, kid: Seq<char>) -> int
    decreases entries.len(),
{
    if entries.len() == 0 {
        -1
    } else if entries.last().kid@ == kid {
        entries.len() - 1
    } else {
        last_index_of(entries.drop_last(), kid)
    }
}

proof fn lemma_last_index_of(entries: Seq<KeyEntry>, kid: Seq<char>)
    ensures
        -1 <= last_index_of(entries, kid) < entries.len(),
        last_index_of(entries, kid) == -1 <==> entries_source(entries, kid) is None,
        last_index_of(entries, kid) >= 0 ==> entries[last_index_of(entries, kid)].kid@ == kid
            && entries_source(entries, kid) == Some(
            entries[last_index_of(entries, kid)].source@,
        ),
        forall|k: int|
            last_index_of(entries, kid) < k < entries.len() ==> #[trigger] entries[k].kid@ != kid,
    decreases entries.len(),
{
    if entries.len() > 0 && entries.last().kid@ != kid {
        lemma_last_index_of(entries.drop_last(), kid);
        let i = last_index_of(entries.drop_last(), kid);
        if i >= 0 {
            assert(entries.drop_last()[i] == entries[i]);
        }
        assert forall|k: int| i < k < entries.len() implies #[trigger] entries[k].kid@ != kid by {
            if k < entries.len() - 1 {
                assert(entries.drop_last()[k] == entries[k]);
            }
        }
    }
}

impl KeySet {
    /// Every key is the one built from the coordinates it was published with.
    #[verifier::type_invariant]
    spec fn keys_match_sources(self) -> bool {
        forall|i: int|
            0 <= i < self.entries@.len() ==> #[trigger] self.entries@[i].key == ec_key(
                self.entries@[i].source@.0,
                self.entries@[i].source@.1,
            )
    }

    /// The coordinates the key at `i` was built from.
    pub closed spec fn source_at(&self, i: int) -> (Seq<char>, Seq<char>) {
        self.entries@[i].source@
    }

    /// The coordinates of the key used for `kid`, if there is one.
    pub closed spec fn source_of(&self, kid: Seq<char>) -> Option<(Seq<char>, Seq<char>)> {
        entries_source(self.entries@, kid)
    }

    pub closed spec fn len(&self) -> nat {
        self.entries@.len()
    }

    /// The entry at `i` is the one used for its key id.
    pub closed spec fn entry_for(&self, i: int, kid: Seq<char>) -> bool {
        &&& 0 <= i < self.entries@.len()
        &&& self.entries@[i].kid@ == kid
        &&& self.source_of(kid) == Some(self.source_at(i))
    }

    /// An index at which a key id's key stands is an index of the set.
    pub proof fn lemma_entry_in_range(&self, i: int, kid: Seq<char>)
        requires
            self.entry_for(i, kid),
        ensures
            0 <= i < self.len(),
    {
    }

    /// The verification key at index `i`: the one built from its coordinates.
    pub fn key(&self, i: usize) -> (r: &jsonwebtoken::DecodingKey)
        requires
            i < self.len(),
        ensures
            *r == ec_key(self.source_at(i as int).0, self.source_at(i as int).1),
    {
        proof {
            use_type_invariant(self);
        }
        &self.entries[i].key
    }

    /// Where `kid`'s key stands, when the set has one.
    pub fn find(&self, kid: &str) -> (r: Option<usize>)
        ensures
            r is None <==> self.source_of(kid@) is None,
            r matches Some(i) ==> self.entry_for(i as int, kid@) && i < self.len(),
    {
        let wanted = String::from_str(kid);
        let mut k = self.entries.len();
        proof {
            lemma_last_index_of(self.entries@, kid@);
        }
        while k > 0
            invariant
                k <= self.entries.len(),
                wanted@ == kid@,
                last_index_of(self.entries@, kid@) < k as int,
                -1 <= last_index_of(self.entries@, kid@) < self.entries@.len(),
                last_index_of(self.entries@, kid@) == -1 <==> entries_source(
                    self.entries@,
                    kid@,
                ) is None,
                last_index_of(self.entries@, kid@) >= 0 ==> self.entries@[last_index_of(
                    self.entries@,
                    kid@,
                )].kid@ == kid@ && entries_source(self.entries@, kid@) == Some(
                    self.entries@[last_index_of(self.entries@, kid@)].source@,
                ),
                forall|j: int|
                    last_index_of(self.entries@, kid@) < j < self.entries@.len() ==> (
                    #[trigger] self.entries@[j]).kid@ != kid@,
            decreases k,
        {
            if self.entries[k - 1].kid == wanted {
                return Some(k - 1);
            }
            k = k - 1;
        }
        None
    }

    /// Builds the key set from the published keys: every ES256 key, under
    /// its id (a later key replacing an earlier one with the same id); any
    /// other algorithm is skipped. Fails, with the first offending key's
    /// error, when an ES256 key's coordinates cannot be decoded.
    pub fn from_jwks(jwks: &Vec<Jwk>) -> (r: Result<KeySet, AuthError>)
        ensures
            r is Ok <==> forall|i: int|
                0 <= i < jwks.len() && is_es256(#[trigger] jwks@[i]) ==> ec_components_valid(
                    jwks@[i].x@,
                    jwks@[i].y@,
                ),
            r is Ok <==> forall|i: int|
                0 <= i < jwks.len() && (#[trigger] jwks@[i]).alg@ == "ES256"@
                    ==> ec_components_valid(jwks@[i].x@, jwks@[i].y@),
            r matches Ok(ks) ==> forall|kid: Seq<char>| #[trigger]
                ks.source_of(kid) == es256_source(jwks@, kid),
            r matches Err(e) ==> e is JwksFetch,
    {
        let es256 = String::from_str("ES256");
        let mut entries: Vec<KeyEntry> = Vec::new();
        let mut k: usize = 0;
        while k < jwks.len()
            invariant
                k <= jwks.len(),
                es256@ == "ES256"@,
                forall|i: int|
                    0 <= i < k && is_es256(#[trigger] jwks@[i]) ==> ec_components_valid(
                        jwks@[i].x@,
                        jwks@[i].y@,
                    ),
                forall|kid: Seq<char>| #[trigger]
                    entries_source(entries@, kid) == es256_source(jwks@.take(k as int), kid),
                forall|i: int|
                    0 <= i < entries@.len() ==> #[trigger] entries@[i].key == ec_key(
                        entries@[i].source@.0,
                        entries@[i].source@.1,
                    ),
            decreases jwks.len() - k,
        {
            let j = &jwks[k];
            let ghost pre = jwks@.take(k as int);
            assert(jwks@.take(k + 1).drop_last() =~= pre);
            assert(jwks@.take(k + 1).last() == jwks@[k as int]);
            if j.alg == es256 {
                match ec_decoding_key(j.x.as_str(), j.y.as_str()) {
                    Ok(key) => {
                        let ghost before = entries@;
                        entries.push(
                            KeyEntry {
                                kid: j.kid.clone(),
                                key,
                                source: Ghost((j.x@, j.y@)),
                            },
                        );
                        assert(entries@.drop_last() =~= before);
                        assert forall|kid: Seq<char>| #[trigger]
                            entries_source(entries@, kid) == es256_source(
                                jwks@.take(k + 1),
                                kid,
                            ) by {
                            assert(entries_source(before, kid) == es256_source(pre, kid));
                            assert(is_es256(jwks@.take(k + 1).last()));
                            assert(entries@.last().kid@ == jwks@.take(k + 1).last().kid@);
                            assert(entries@.last().source@ == (
                                jwks@.take(k + 1).last().x@,
                                jwks@.take(k + 1).last().y@,
                            ));
                        }
                    },
                    Err(e) => {
                        return Err(AuthError::JwksFetch(jwt_error_text(&e)));
                    },
                }
            }
            else {
                assert forall|kid: Seq<char>| #[trigger]
                    entries_source(entries@, kid) == es256_source(jwks@.take(k + 1), kid) by {
                    assert(!is_es256(jwks@[k as int]));
                }
            }
            k = k + 1;
        }
        assert(jwks@.take(jwks.len() as int) =~= jwks@);
        Ok(KeySet { entries })
    }
}

/// What to do with the token's key id once a key set is at hand.
#[derive(Debug)]
pub enum KeyChoice {
    /// Verify with the key at this index.
    Use(usize),
    /// The key id is unknown: fetch the keys again (the provider may have
    /// rotated them) and choose again.
    Refresh,
    /// The key id is unknown even to freshly fetched keys.
    Reject(AuthError),
}

pub open spec fn unknown_key_message(kid: Seq<char>) -> Seq<char> {
    "unknown key id '"@ + kid + seq!['\'']
}

/// `e` refuses the unknown key id `kid`.
pub open spec fn rejects_kid(e: AuthError, kid: Seq<char>) -> bool {
    e matches AuthError::InvalidToken(m) && m@ == unknown_key_message(kid)
}

/// Chooses the verification key for `kid`. A missing key is fetched again
/// once; after that (`refreshed`) it is refused.
pub fn select_key(keys: &KeySet, kid: &str, refreshed: bool) -> (r: KeyChoice)
    ensures
        r matches KeyChoice::Use(i) ==> keys.entry_for(i as int, kid@) && i < keys.len(),
        r is Refresh ==> keys.source_of(kid@) is None && !refreshed,
        r matches KeyChoice::Reject(e) ==> keys.source_of(kid@) is None && refreshed
            && rejects_kid(e, kid@),
{
    match keys.find(kid) {
        Some(i) => KeyChoice::Use(i),
        None => {
            if refreshed {
                let mut msg = concat_text("unknown key id '", kid);
                let ghost head = msg@;
                push_char(&mut msg, '\'');
                assert(msg@ =~= head + seq!['\'']);
                KeyChoice::Reject(AuthError::InvalidToken(msg))
            } else {
                KeyChoice::Refresh
            }
        },
    }
}

// ---------------------------------------------------------------------
// Claims
// ---------------------------------------------------------------------
/// What a verified token says about its subject: the user id and, from the
/// app metadata, the role text and organization, each possibly absent.
#[derive(Debug, Clone)]
pub struct Claims {
    pub sub: u128,
    pub role: Option<String>,
    pub org_id: Option<u128>,
}

/// The optional text `o` is `t`.
pub open spec fn text_is(o: Option<String>, t: Seq<char>) -> bool {
    match o {
        Some(s) => s@ == t,
        None => false,
    }
}

/// The role a metadata role text names.
pub open spec fn role_named(text: Option<String>) -> Option<Role> {
    match text {
        Some(t) => if t@ == "internal"@ {
            Some(Role::Internal)
        } else if t@ == "partner"@ {
            Some(Role::Partner)
        } else {
            None
        },
        None => None,
    }
}

/// The user a token's claims describe: the role must be `internal` or
/// `partner`, and a partner must carry an organization; otherwise the
/// profile is incomplete.
pub fn user_from_claims(claims: &Claims) -> (r: Result<AuthUser, AuthError>)
    ensures
        match r {
            Ok(u) => {
                &&& (u.role == Role::Internal <==> text_is(claims.role, "internal"@))
                &&& (u.role == Role::Partner <==> text_is(claims.role, "partner"@))
                &&& role_named(claims.role) == Some(u.role)
                &&& !(u.role == Role::Partner && claims.org_id is None)
                &&& u == AuthUser { user_id: claims.sub, role: u.role, org_id: claims.org_id }
                &&& u.wf()
            },
            Err(e) => e is IncompleteProfile && ((!text_is(claims.role, "internal"@) && !text_is(
                claims.role,
                "partner"@,
            )) || (text_is(claims.role, "partner"@) && claims.org_id is None)) && (role_named(claims.role) is None || (role_named(
                claims.role,
            ) == Some(Role::Partner) && claims.org_id is None)),
        },
{
    proof {
        reveal_strlit("internal");
        reveal_strlit("partner");
        assert("internal"@[0] != "partner"@[0]);
    }
    let role = match &claims.role {
        Some(t) => {
            if *t == String::from_str("internal") {
                Role::Internal
            } else if *t == String::from_str("partner") {
                Role::Partner
            } else {
                return Err(AuthError::IncompleteProfile);
            }
        },
        None => {
            return Err(AuthError::IncompleteProfile);
        },
    };
    if role == Role::Partner && claims.org_id.is_none() {
        return Err(AuthError::IncompleteProfile);
    }
    Ok(AuthUser { user_id: claims.sub, role, org_id: claims.org_id })
}

/// The key used for a key id is that of the last published key with that
/// id whose algorithm is `ES256`; keys of any other algorithm are never
/// used.
pub proof fn lemma_es256_source_by_field(jwks: Seq<Jwk>, kid: Seq<char>)
    ensures
        es256_source(jwks, kid) is Some <==> exists|i: int|
            0 <= i < jwks.len() && (#[trigger] jwks[i]).alg@ == "ES256"@ && jwks[i].kid@ == kid,
        match es256_source(jwks, kid) {
            Some((x, y)) => exists|i: int|
                {
                    &&& 0 <= i < jwks.len()
                    &&& (#[trigger] jwks[i]).alg@ == "ES256"@
                    &&& jwks[i].kid@ == kid
                    &&& jwks[i].x@ == x
                    &&& jwks[i].y@ == y
                    &&& forall|j: int|
                        i < j < jwks.len() ==> !((#[trigger] jwks[j]).alg@ == "ES256"@
                            && jwks[j].kid@ == kid)
                },
            None => true,
        },
    decreases jwks.len(),
{
    if jwks.len() > 0 {
        let front = jwks.drop_last();
        let n = jwks.len() - 1;
        lemma_es256_source_by_field(front, kid);
        assert(jwks[n] == jwks.last());
        if is_es256(jwks.last()) && jwks.last().kid@ == kid {
            assert(jwks[n].alg@ == "ES256"@ && jwks[n].kid@ == kid);
        } else {
            assert(!(jwks[n].alg@ == "ES256"@ && jwks[n].kid@ == kid));
            if exists|i: int|
                0 <= i < jwks.len() && (#[trigger] jwks[i]).alg@ == "ES256"@ && jwks[i].kid@
                    == kid {
                let i = choose|i: int|
                    0 <= i < jwks.len() && (#[trigger] jwks[i]).alg@ == "ES256"@ && jwks[i].kid@
                        == kid;
                assert(i < n);
                assert(front[i] == jwks[i]);
            }
            if exists|i: int|
                0 <= i < front.len() && (#[trigger] front[i]).alg@ == "ES256"@ && front[i].kid@
                    == kid {
                let i = choose|i: int|
                    0 <= i < front.len() && (#[trigger] front[i]).alg@ == "ES256"@
                        && front[i].kid@ == kid;
                assert(front[i] == jwks[i]);
            }
            match es256_source(front, kid) {
                Some((x, y)) => {
                    let i = choose|i: int|
                        {
                            &&& 0 <= i < front.len()
                            &&& (#[trigger] front[i]).alg@ == "ES256"@
                            &&& front[i].kid@ == kid
                            &&& front[i].x@ == x
                            &&& front[i].y@ == y
                            &&& forall|j: int|
                                i < j < front.len() ==> !((#[trigger] front[j]).alg@ == "ES256"@
                                    && front[j].kid@ == kid)
                        };
                    assert(front[i] == jwks[i]);
                    assert forall|j: int| i < j < jwks.len() implies !((#[trigger] jwks[j]).alg@
                        == "ES256"@ && jwks[j].kid@ == kid) by {
                        if j < n {
                            assert(front[j] == jwks[j]);
                        }
                    }
                },
                None => {},
            }
        }
    }
}

/// Dropping the trailing slashes of `s` keeps a prefix of `s` that does
/// not end in `/`, and what is dropped is slashes only.
pub proof fn lemma_without_trailing_slashes(s: Seq<char>)
    ensures
        ({
            let t = without_trailing_slashes(s);
            &&& t.len() <= s.len()
            &&& t == s.subrange(0, t.len() as int)
            &&& t.len() == 0 || t.last() != '/'
            &&& forall|k: int| t.len() <= k < s.len() ==> #[trigger] s[k] == '/'
        }),
    decreases s.len(),
{
    if s.len() > 0 && s.last() == '/' {
        lemma_without_trailing_slashes(s.drop_last());
        let t = without_trailing_slashes(s);
        assert(s.drop_last().subrange(0, t.len() as int) =~= s.subrange(0, t.len() as int));
        assert forall|k: int| t.len() <= k < s.len() implies #[trigger] s[k] == '/' by {
            if k < s.len() - 1 {
                assert(s.drop_last()[k] == s[k]);
            }
        }
    } else {
        assert(s.subrange(0, s.len() as int) =~= s);
    }
}

} // verus!
