use vstd::prelude::*;
use vstd::string::StringSliceAdditionalSpecFns;

verus! {

/// The only signature algorithm a token may use.
pub const TOKEN_ALGORITHM: jsonwebtoken::Algorithm = jsonwebtoken::Algorithm::RS256;

/// The audience that every accepted token must name.
pub const EXPECTED_AUDIENCE: &'static str = "account";

#[verifier::external_type_specification]
#[verifier::external_body]
pub struct ExDecodingKey(jsonwebtoken::DecodingKey);

#[verifier::external_type_specification]
#[verifier::external_body]
pub struct ExValidation(jsonwebtoken::Validation);

#[verifier::external_type_specification]
#[verifier::external_body]
pub struct ExJwtError(jsonwebtoken::errors::Error);

#[verifier::external_type_specification]
pub struct ExAlgorithm(jsonwebtoken::Algorithm);

/// Whether `pem` holds PEM-encoded RSA key material (a public key, or a private
/// key whose public half is then used) that the token library accepts.
pub uninterp spec fn rsa_pem_accepted(pem: Seq<u8>) -> bool;

/// Relies on `jsonwebtoken::DecodingKey::from_rsa_pem`: parses a PEM-encoded RSA
/// key; whether it succeeds depends on the bytes alone.
#[verifier::external_body]
fn rsa_key_from_pem(pem: &[u8]) -> (r: Result<jsonwebtoken::DecodingKey, jsonwebtoken::errors::Error>)
    ensures
        r is Ok <==> rsa_pem_accepted(pem@),
{
    jsonwebtoken::DecodingKey::from_rsa_pem(pem)
}

/// Relies on `jsonwebtoken::Validation::new`: a validation that accepts the one
/// given algorithm and checks the expiry.
pub assume_specification[ jsonwebtoken::Validation::new ](alg: jsonwebtoken::Algorithm) -> jsonwebtoken::Validation;

/// Relies on `jsonwebtoken::Validation::set_audience`: tokens must then name `audience`.
#[verifier::external_body]
fn require_audience(validation: &mut jsonwebtoken::Validation, audience: &str) {
    validation.set_audience(&[audience]);
}

/// The roles a token grants, nested under its realm-access claim.
#[derive(Debug)]
pub struct ClaimsRealmAccess {
    pub roles: Vec<String>,
}

/// The identity that a verified token asserts.
#[derive(Debug)]
pub struct Claims {
    pub username: String,
    pub exp: i64,
    pub realm_access: ClaimsRealmAccess,
}

/// Why a token was not accepted.
#[derive(PartialEq, Eq, Structural, Clone, Copy, Debug)]
pub enum TokenFault {
    /// No key has been configured yet.
    NotInitialized,
    /// The token is not a well-formed signed structure, or lacks a required claim.
    Malformed,
    /// The signature does not verify against the configured key.
    InvalidSignature,
    /// The token names an algorithm other than the one allowed.
    InvalidAlgorithm,
    /// The token's expiry has passed.
    Expired,
    /// The token names another audience.
    InvalidAudience,
    /// Any other rejection by the token library.
    Rejected,
}

/// The error of a failed verification.
#[derive(PartialEq, Eq, Structural, Clone, Copy, Debug)]
pub struct VerificationError {
    pub reason: TokenFault,
}

/// The diagnostic text of a fault.
pub open spec fn fault_text(f: TokenFault) -> Seq<char> {
    match f {
        TokenFault::NotInitialized => "Decoding key not initialized"@,
        TokenFault::Malformed => "Malformed token"@,
        TokenFault::InvalidSignature => "Invalid signature"@,
        TokenFault::InvalidAlgorithm => "Invalid algorithm"@,
        TokenFault::Expired => "Expired signature"@,
        TokenFault::InvalidAudience => "Invalid audience"@,
        TokenFault::Rejected => "Rejected token"@,
    }
}

impl VerificationError {
    /// A short text for the server's own diagnostics.
    pub fn reason_text(&self) -> (r: &'static str)
        ensures
            r@ == fault_text(self.reason),
    {
        match self.reason {
            TokenFault::NotInitialized => "Decoding key not initialized",
            TokenFault::Malformed => "Malformed token",
            TokenFault::InvalidSignature => "Invalid signature",
            TokenFault::InvalidAlgorithm => "Invalid algorithm",
            TokenFault::Expired => "Expired signature",
            TokenFault::InvalidAudience => "Invalid audience",
            TokenFault::Rejected => "Rejected token",
        }
    }
}

/// Why the signing key could not be set.
#[derive(PartialEq, Eq, Structural, Clone, Copy, Debug)]
pub enum KeyError {
    /// A key is already set: it is never replaced.
    AlreadyInitialized,
    /// The key material is not a PEM-encoded RSA key.
    MalformedKey,
}

/// Holds the provider's public signing key: empty until `initialize` sets it
/// once, immutable after that.
pub struct TokenVerifier {
    key: Option<jsonwebtoken::DecodingKey>,
}

impl TokenVerifier {
    /// Whether the signing key has been set.
    pub closed spec fn is_initialized(&self) -> bool {
        self.key is Some
    }

    /// A verifier with no key yet.
    pub fn new() -> (r: TokenVerifier)
        ensures
            !r.is_initialized(),
    {
        TokenVerifier { key: None }
    }

    /// Whether the signing key has been set.
    pub fn initialized(&self) -> (r: bool)
        ensures
            r == self.is_initialized(),
    {
        self.key.is_some()
    }

    /// The key that signatures are checked against; an error before `initialize`.
    pub fn decoding_key(&self) -> (r: Result<&jsonwebtoken::DecodingKey, VerificationError>)
        ensures
            r is Ok <==> self.is_initialized(),
            r matches Err(e) ==> e.reason == TokenFault::NotInitialized,
    {
        match &self.key {
            Some(k) => Ok(k),
            None => Err(VerificationError { reason: TokenFault::NotInitialized }),
        }
    }
}

/// Sets the signing key of `verifier` from a PEM-encoded RSA key (public, or
/// private, whose public half is then used).
///
/// A second call fails with `AlreadyInitialized` and leaves the key as it was;
/// material that is not such a key fails with `MalformedKey` and sets nothing.
pub fn initialize(verifier: &mut TokenVerifier, public_key_pem: &str) -> (r: Result<(), KeyError>)
    ensures
        old(verifier).is_initialized() ==> r == Err::<(), KeyError>(KeyError::AlreadyInitialized),
        !old(verifier).is_initialized() ==> (r is Ok <==> rsa_pem_accepted(public_key_pem.spec_bytes())),
        !old(verifier).is_initialized() && r is Err ==> r == Err::<(), KeyError>(KeyError::MalformedKey),
        r is Ok ==> final(verifier).is_initialized(),
        r is Err ==> *final(verifier) == *old(verifier),
{
    if verifier.key.is_some() {
        return Err(KeyError::AlreadyInitialized);
    }
    match rsa_key_from_pem(public_key_pem.as_bytes()) {
        Ok(key) => {
            verifier.key = Some(key);
            Ok(())
        },
        Err(_) => Err(KeyError::MalformedKey),
    }
}

/// What the token library is asked to check when it decodes a token: the one
/// algorithm it may be signed with, and the audience it must name. The expiry
/// is always required: the token library checks it, and `verify_decoded`
/// checks it again without leeway.
pub struct TokenRules {
    pub algorithm: jsonwebtoken::Algorithm,
    pub audience: String,
}

/// The gateway's rules: RS256 signatures only, for the audience `account`.
pub fn token_rules() -> (r: TokenRules)
    ensures
        r.algorithm == jsonwebtoken::Algorithm::RS256,
        r.audience@ == EXPECTED_AUDIENCE@,
        r.audience@ == "account"@,
{
    proof {
        reveal_strlit("account");
    }
    TokenRules { algorithm: TOKEN_ALGORITHM, audience: EXPECTED_AUDIENCE.to_string() }
}

/// The token library's validation for `rules`: it accepts `rules.algorithm`
/// alone, requires and checks the expiry, and requires `rules.audience`.
pub fn to_validation(rules: &TokenRules) -> jsonwebtoken::Validation {
    let mut validation = jsonwebtoken::Validation::new(rules.algorithm);
    require_audience(&mut validation, rules.audience.as_str());
    validation
}

/// Whether decoded claims are acceptable at time `now`: a subject is named and
/// the expiry lies in the future.
pub open spec fn claims_acceptable(c: Claims, now: u64) -> bool {
    &&& c.username@.len() > 0
    &&& c.exp > now
}

/// What verification yields for a decoding outcome at time `now`.
pub open spec fn verification_of(decoded: Result<Claims, TokenFault>, now: u64) -> Result<Claims, VerificationError> {
    match decoded {
        Err(f) => Err(VerificationError { reason: f }),
        Ok(c) => if c.username@.len() == 0 {
            Err(VerificationError { reason: TokenFault::Malformed })
        } else if c.exp <= now {
            Err(VerificationError { reason: TokenFault::Expired })
        } else {
            Ok(c)
        },
    }
}

/// Finishes the verification of a token that the token library has decoded
/// (signature, algorithm and audience checked) or rejected: a fault is passed
/// on; claims are accepted only with a subject and an expiry after `now`.
pub fn verify_decoded(decoded: Result<Claims, TokenFault>, now: u64) -> (r: Result<Claims, VerificationError>)
    ensures
        r == verification_of(decoded, now),
{
    match decoded {
        Err(f) => Err(VerificationError { reason: f }),
        Ok(c) => {
            if c.username.as_str().is_empty() {
                Err(VerificationError { reason: TokenFault::Malformed })
            } else if c.exp <= 0 || (c.exp as u64) <= now {
                Err(VerificationError { reason: TokenFault::Expired })
            } else {
                Ok(c)
            }
        },
    }
}

/// A token whose signature does not verify against the configured key never
/// yields claims: verification fails with a signature error, at any time.
pub proof fn lemma_foreign_signature_is_rejected(now: u64)
    ensures
        verification_of(Err(TokenFault::InvalidSignature), now)
            == Err::<Claims, VerificationError>(VerificationError { reason: TokenFault::InvalidSignature }),
{
}

/// Claims whose expiry is not after the time of verification are rejected,
/// though their signature verified.
pub proof fn lemma_expired_is_rejected(claims: Claims, now: u64)
    requires
        claims.exp <= now,
    ensures
        verification_of(Ok(claims), now) is Err,
        claims.username@.len() > 0 ==> verification_of(Ok(claims), now)
            == Err::<Claims, VerificationError>(VerificationError { reason: TokenFault::Expired }),
{
}

/// A token that names another audience never yields claims.
pub proof fn lemma_foreign_audience_is_rejected(now: u64)
    ensures
        verification_of(Err(TokenFault::InvalidAudience), now)
            == Err::<Claims, VerificationError>(VerificationError { reason: TokenFault::InvalidAudience }),
{
}

/// A token that the provider issued with the gateway's key, for the expected
/// audience and a future expiry, passes the gateway's own verification with
/// its claims unchanged.
pub proof fn lemma_certified_token_is_accepted(claims: Claims, now: u64)
    requires
        claims_acceptable(claims, now),
    ensures
        verification_of(Ok(claims), now) == Ok::<Claims, VerificationError>(claims),
{
}

} // verus!
