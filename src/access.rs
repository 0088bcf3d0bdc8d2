use vstd::prelude::*;

use crate::claims::Claims;

verus! {

/// HTTP 401.
pub const STATUS_UNAUTHORIZED: u16 = 401;

/// HTTP 403.
pub const STATUS_FORBIDDEN: u16 = 403;

/// The scheme that precedes a token in the `Authorization` header.
pub const BEARER_PREFIX: &'static str = "Bearer ";

/// The token that a header value carries: what follows the `Bearer ` prefix.
pub open spec fn bearer_of(header: Seq<char>) -> Option<Seq<char>> {
    let n = BEARER_PREFIX@.len();
    if header.len() >= n && header.subrange(0, n as int) == BEARER_PREFIX@ {
        Some(header.subrange(n as int, header.len() as int))
    } else {
        None
    }
}

/// A header value as the characters it holds.
pub open spec fn header_view(header: Option<&str>) -> Option<Seq<char>> {
    match header {
        Some(h) => Some(h@),
        None => None,
    }
}

/// The token of a request, or why it has none.
pub open spec fn token_of_header(header: Option<Seq<char>>) -> Result<Seq<char>, AuthError> {
    match header {
        None => Err(AuthError::MissingHeader),
        Some(h) => match bearer_of(h) {
            Some(t) => Ok(t),
            None => Err(AuthError::InvalidHeader),
        },
    }
}

/// Whether `role` is among `roles`.
pub open spec fn grants(roles: Seq<String>, role: Seq<char>) -> bool {
    exists|i: int| 0 <= i < roles.len() && #[trigger] roles[i]@ == role
}

/// The set of roles that a list of roles names, order and repetition aside.
pub open spec fn role_set(roles: Seq<String>) -> Set<Seq<char>> {
    Set::new(|role: Seq<char>| grants(roles, role))
}

/// No role appears twice.
pub open spec fn distinct_roles(roles: Seq<String>) -> bool {
    forall|i: int, j: int| 0 <= i < roles.len() && 0 <= j < roles.len() && i != j ==> roles[i]@ != roles[j]@
}

/// The roles granted to a request: those of its verified claims, none without.
pub open spec fn roles_granted(claims: Option<Claims>) -> Set<Seq<char>> {
    match claims {
        Some(c) => role_set(c.realm_access.roles@),
        None => Set::empty(),
    }
}

/// The roles that the middleware grants a request: those of the claims that
/// verification gave for its token; none where it has no token or no claims.
pub open spec fn middleware_roles(token: Result<Seq<char>, AuthError>, verified: Option<Claims>) -> Set<Seq<char>> {
    if token is Ok {
        roles_granted(verified)
    } else {
        Set::empty()
    }
}

/// Whether a route that requires any one of `required` lets `granted` through;
/// a route that names no role requires none.
pub open spec fn route_allows(granted: Set<Seq<char>>, required: Seq<String>) -> bool {
    required.len() == 0 || exists|i: int| 0 <= i < required.len() && granted.contains(#[trigger] required[i]@)
}

/// Why a request carries no usable bearer token.
#[derive(PartialEq, Eq, Structural, Clone, Copy, Debug)]
pub enum AuthError {
    /// The request has no `Authorization` header.
    MissingHeader,
    /// The header is not of the shape `Bearer <token>`.
    InvalidHeader,
}

impl AuthError {
    /// Requests without a usable token are answered 401.
    pub fn status_code(&self) -> (r: u16)
        ensures
            r == STATUS_UNAUTHORIZED,
    {
        STATUS_UNAUTHORIZED
    }
}

/// What a role-gated route does with a request.
#[derive(PartialEq, Eq, Structural, Clone, Copy, Debug)]
pub enum RouteDecision {
    /// The handler runs.
    Forward,
    /// The request is denied with 403.
    Forbidden,
}

impl RouteDecision {
    /// The status of a denied request; 0 where the handler runs.
    pub fn denial_status(&self) -> (r: u16)
        ensures
            *self == RouteDecision::Forbidden ==> r == STATUS_FORBIDDEN,
            *self == RouteDecision::Forward ==> r == 0,
    {
        match self {
            RouteDecision::Forward => 0,
            RouteDecision::Forbidden => STATUS_FORBIDDEN,
        }
    }
}

/// The token carried by an `Authorization` header value, if it is present and
/// of the shape `Bearer <token>`.
pub fn bearer_token(header: Option<&str>) -> (r: Result<String, AuthError>)
    ensures
        r is Ok <==> token_of_header(header_view(header)) is Ok,
        r matches Ok(s) ==> token_of_header(header_view(header)) == Ok::<Seq<char>, AuthError>(s@),
        r matches Err(e) ==> token_of_header(header_view(header)) == Err::<Seq<char>, AuthError>(e),
{
    match header {
        None => Err(AuthError::MissingHeader),
        Some(h) => {
            let prefix = BEARER_PREFIX;
            let n = prefix.unicode_len();
            let len = h.unicode_len();
            if len < n {
                return Err(AuthError::InvalidHeader);
            }
            let head = h.substring_char(0, n).to_string();
            if head == prefix.to_string() {
                Ok(h.substring_char(n, len).to_string())
            } else {
                Err(AuthError::InvalidHeader)
            }
        },
    }
}

/// Whether `roles` holds `role`.
fn holds_role(roles: &Vec<String>, role: &String) -> (r: bool)
    ensures
        r == grants(roles@, role@),
{
    let mut i: usize = 0;
    while i < roles.len()
        invariant
            i <= roles@.len(),
            forall|k: int| 0 <= k < i ==> roles@[k]@ != role@,
        decreases roles@.len() - i,
    {
        if roles[i] == *role {
            return true;
        }
        i = i + 1;
    }
    false
}

/// The roles granted to a request: those of its verified claims, each once;
/// none where the request has no verified claims.
pub fn granted_roles(claims: Option<&Claims>) -> (r: Vec<String>)
    ensures
        role_set(r@) == roles_granted(
            match claims {
                Some(c) => Some(*c),
                None => None,
            },
        ),
        distinct_roles(r@),
{
    let mut out: Vec<String> = Vec::new();
    match claims {
        None => {
            assert(role_set(out@) =~= Set::empty());
        },
        Some(c) => {
            let roles = &c.realm_access.roles;
            let mut i: usize = 0;
            while i < roles.len()
                invariant
                    i <= roles@.len(),
                    distinct_roles(out@),
                    forall|k: int| 0 <= k < out@.len() ==> grants(roles@.subrange(0, i as int), #[trigger] out@[k]@),
                    forall|j: int| 0 <= j < i ==> grants(out@, #[trigger] roles@[j]@),
                decreases roles@.len() - i,
            {
                let role = &roles[i];
                let seen = holds_role(&out, role);
                let ghost before = out@;
                if !seen {
                    out.push(role.clone());
                }
                proof {
                    assert forall|k: int| 0 <= k < out@.len() implies grants(
                        roles@.subrange(0, i + 1),
                        #[trigger] out@[k]@,
                    ) by {
                        if k < before.len() {
                            let w = choose|m: int| 0 <= m < i && #[trigger] roles@.subrange(0, i as int)[m]@ == out@[k]@;
                            assert(roles@.subrange(0, i + 1)[w] == roles@.subrange(0, i as int)[w]);
                        } else {
                            assert(roles@.subrange(0, i + 1)[i as int] == roles@[i as int]);
                        }
                    }
                    assert forall|j: int| 0 <= j < i + 1 implies grants(out@, #[trigger] roles@[j]@) by {
                        if j < i {
                            let w = choose|m: int| 0 <= m < before.len() && #[trigger] before[m]@ == roles@[j]@;
                            assert(out@[w] == before[w]);
                        } else if !seen {
                            assert(out@[before.len() as int] == roles@[i as int]);
                        }
                    }
                }
                i = i + 1;
            }
            proof {
                assert(roles@.subrange(0, roles@.len() as int) =~= roles@);
                assert forall|s: Seq<char>| role_set(out@).contains(s) <==> role_set(roles@).contains(s) by {
                    if grants(roles@, s) {
                        let j = choose|m: int| 0 <= m < roles@.len() && #[trigger] roles@[m]@ == s;
                        assert(grants(out@, roles@[j]@));
                    }
                    if grants(out@, s) {
                        let k = choose|m: int| 0 <= m < out@.len() && #[trigger] out@[m]@ == s;
                        assert(grants(roles@.subrange(0, roles@.len() as int), out@[k]@));
                    }
                }
                assert(role_set(out@) =~= role_set(roles@));
            }
        },
    }
    out
}

/// Decides a route that requires any one of `required`: forward where a granted
/// role is among them or none is required, else forbid.
pub fn authorize(granted: &Vec<String>, required: &Vec<String>) -> (r: RouteDecision)
    ensures
        r == RouteDecision::Forward <==> route_allows(role_set(granted@), required@),
{
    if required.len() == 0 {
        return RouteDecision::Forward;
    }
    let mut i: usize = 0;
    while i < required.len()
        invariant
            i <= required@.len(),
            forall|k: int| 0 <= k < i ==> !role_set(granted@).contains(#[trigger] required@[k]@),
        decreases required@.len() - i,
    {
        if holds_role(granted, &required[i]) {
            assert(role_set(granted@).contains(required@[i as int]@));
            return RouteDecision::Forward;
        }
        i = i + 1;
    }
    RouteDecision::Forbidden
}

/// The roles granted to a request, from its token (or why it has none) and
/// the claims that verification of that token gave, if any.
pub fn request_roles(token: &Result<String, AuthError>, verified: Option<&Claims>) -> (r: Vec<String>)
    ensures
        role_set(r@) == middleware_roles(
            match token {
                Ok(t) => Ok(t@),
                Err(e) => Err(*e),
            },
            match verified {
                Some(c) => Some(*c),
                None => None,
            },
        ),
        distinct_roles(r@),
{
    match token {
        Ok(_) => granted_roles(verified),
        Err(_) => granted_roles(None),
    }
}

/// For a well-formed `Bearer <token>` header whose token verifies, the roles
/// granted are exactly those the token lists, order and repetition aside.
pub proof fn lemma_bearer_roles_are_token_roles(header: Seq<char>, claims: Claims)
    requires
        bearer_of(header) is Some,
    ensures
        middleware_roles(token_of_header(Some(header)), Some(claims)) == role_set(claims.realm_access.roles@),
{
}

/// A missing header, or one not of the shape `Bearer <token>`, yields the empty
/// role set whatever else is known, so a route that requires any role forbids.
pub proof fn lemma_malformed_header_is_forbidden(header: Option<Seq<char>>, verified: Option<Claims>, required: Seq<String>)
    requires
        token_of_header(header) is Err,
        required.len() > 0,
    ensures
        middleware_roles(token_of_header(header), verified) == Set::<Seq<char>>::empty(),
        !route_allows(middleware_roles(token_of_header(header), verified), required),
{
}

} // verus!
