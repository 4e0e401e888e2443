//! OpenID Connect: what an identity provider publishes, and which of its tokens are accepted.

use crate::jwt::{
    self, Algorithm, ClaimValue, Jwk, JwkSet, KeyAlgorithm, RawClaim, Validation, VerifyingKey,
};
use crate::jwt::{
    find_key, is_first_with_kid, key_is_readable, lemma_find_key, raw_claims, signature_verifies,
    token_header, token_payload, ClaimModel, KeyModel, RawClaimModel,
};
use crate::settings::Settings;
use crate::string_map::{
    distinct_keys, entries_map, lemma_entries_map, lemma_last_entry, StringMap,
};
use crate::text::{join3, texts};
use vstd::prelude::*;

verus! {

/// Why a token that its key could be found for is not accepted.
#[derive(Debug)]
pub enum TokenFault {
    /// The signature, or one of the checked claims, does not hold.
    Rejected(jsonwebtoken::errors::Error),
    /// The claim of that name is neither an integer nor a string.
    UnsupportedClaim(String),
}

/// Why a token or a provider is not accepted.
#[derive(Debug)]
pub enum OidcError {
    InvalidOidcConfig,
    InvalidHeader(jsonwebtoken::errors::Error),
    InvalidToken(TokenFault),
    InvalidKey(jsonwebtoken::errors::Error),
    MissingKid,
    MissingKeyAlgorithm,
    UnknownKid(String),
    UnsupportedAlgorithm(KeyAlgorithm),
    ValidationFailed,
    Request(String),
}

impl OidcError {
    /// What went wrong, in words.
    pub open spec fn spec_message(self) -> Seq<char> {
        match self {
            OidcError::InvalidOidcConfig => "Invalid OIDC configuration"@,
            OidcError::InvalidHeader(_) => "Failed to parse token header"@,
            OidcError::InvalidToken(_) => "Failed to decode token"@,
            OidcError::InvalidKey(_) => "Failed to create decoding key"@,
            OidcError::MissingKid => "Missing kid in token header"@,
            OidcError::MissingKeyAlgorithm => "JWK must define a key algorithm"@,
            OidcError::UnknownKid(kid) => kid@ + " did not match any known keys"@,
            OidcError::UnsupportedAlgorithm(algorithm) => "Key algorithm "@ + algorithm.spec_name()
                + " is not supported"@,
            OidcError::ValidationFailed => "Token claims do not satisfy claim constraints"@,
            OidcError::Request(_) => "External call failed"@,
        }
    }

    /// What went wrong, in words.
    pub fn message(&self) -> (text: String)
        ensures
            text@ == self.spec_message(),
    {
        match self {
            OidcError::InvalidOidcConfig => "Invalid OIDC configuration".to_owned(),
            OidcError::InvalidHeader(_) => "Failed to parse token header".to_owned(),
            OidcError::InvalidToken(_) => "Failed to decode token".to_owned(),
            OidcError::InvalidKey(_) => "Failed to create decoding key".to_owned(),
            OidcError::MissingKid => "Missing kid in token header".to_owned(),
            OidcError::MissingKeyAlgorithm => "JWK must define a key algorithm".to_owned(),
            OidcError::UnknownKid(kid) => {
                let mut message = kid.as_str().to_owned();
                message.append(" did not match any known keys");
                message
            },
            OidcError::UnsupportedAlgorithm(algorithm) => join3(
                "Key algorithm ",
                algorithm.name(),
                " is not supported",
            ),
            OidcError::ValidationFailed => {
                "Token claims do not satisfy claim constraints".to_owned()
            },
            OidcError::Request(_) => "External call failed".to_owned(),
        }
    }
}

/// The claims of an accepted token: integers and strings by name.
#[derive(Debug)]
pub struct Claims {
    claims: StringMap<ClaimValue>,
}

impl View for Claims {
    type V = Map<Seq<char>, ClaimModel>;

    closed spec fn view(&self) -> Map<Seq<char>, ClaimModel> {
        self.claims@.map_values(|value: ClaimValue| value@)
    }
}

/// The text of the claim `key`, where it is text.
pub open spec fn claim_text(
    claims: Map<Seq<char>, ClaimModel>,
    key: Seq<char>,
) -> Option<Seq<char>> {
    if claims.contains_key(key) {
        match claims[key] {
            ClaimModel::String(text) => Some(text),
            ClaimModel::Number(_) => None,
        }
    } else {
        None
    }
}

/// What a claim is kept as: integers and strings as they are, anything else not at all.
pub open spec fn kept_claim(raw: RawClaimModel) -> Option<ClaimModel> {
    match raw {
        RawClaimModel::Number(Some(n)) => Some(ClaimModel::Number(n)),
        RawClaimModel::Text(text) => Some(ClaimModel::String(text)),
        _ => None,
    }
}

/// All claims of a payload are integers or strings.
pub open spec fn all_kept(raw: Map<Seq<char>, RawClaimModel>) -> bool {
    forall|name: Seq<char>| #[trigger] raw.contains_key(name) ==> kept_claim(raw[name]) is Some
}

/// The claims of a payload, as they are kept.
pub open spec fn kept_claims(raw: Map<Seq<char>, RawClaimModel>) -> Map<Seq<char>, ClaimModel> {
    raw.map_values(|claim: RawClaimModel| kept_claim(claim).unwrap())
}

impl Claims {
    /// The claims of a list; of two under one name the later counts.
    pub fn from_entries(entries: Vec<(String, ClaimValue)>) -> (claims: Claims)
        ensures
            claims@ == entries_map(entries@).map_values(|value: ClaimValue| value@),
    {
        Claims { claims: StringMap::from_entries(entries) }
    }

    /// The text of the claim `key`; a number has none.
    pub fn get_str(&self, key: &str) -> (text: Option<&str>)
        ensures
            match text {
                Some(t) => claim_text(self@, key@) == Some(t@),
                None => claim_text(self@, key@) is None,
            },
    {
        match self.claims.get(key) {
            Some(value) => match value {
                ClaimValue::String(s) => Some(s.as_str()),
                ClaimValue::Number(_) => None,
            },
            None => None,
        }
    }
}

/// The claims of a token's payload, or the first of them that is neither an integer nor a string.
pub fn keep_claims(raw: Vec<(String, RawClaim)>) -> (claims: Result<Claims, String>)
    requires
        distinct_keys(raw@),
    ensures
        claims is Ok <==> all_kept(raw_claims(raw@)),
        claims matches Ok(c) ==> c@ == kept_claims(raw_claims(raw@)),
        claims matches Err(name) ==> {
            &&& raw_claims(raw@).contains_key(name@)
            &&& kept_claim(raw_claims(raw@)[name@]) is None
        },
{
    let ghost all = raw@;
    let mut claims: StringMap<ClaimValue> = StringMap::new();
    assert(all.take(0) =~= Seq::empty());
    for entry in iter: raw.into_iter()
        invariant
            iter.seq() == all,
            distinct_keys(all),
            all_kept(raw_claims(all.take(iter.index()))),
            claims@.map_values(|value: ClaimValue| value@) =~= kept_claims(
                raw_claims(all.take(iter.index())),
            ),
    {
        let ghost n = iter.index();
        let ghost seen = raw_claims(all.take(n));
        proof {
            assert(all.take(n + 1).drop_last() =~= all.take(n));
            assert(raw_claims(all.take(n + 1)) =~= seen.insert(entry.0@, entry.1@));
            lemma_entries_map(all, entry.0@);
            assert(all[n].0@ == entry.0@);
            assert(raw_claims(all).contains_key(entry.0@));
            assert(raw_claims(all)[entry.0@] == entry.1@);
        }
        let ghost before = claims@;
        let ghost name = entry.0@;
        let ghost raw_value = entry.1@;
        let value = match entry.1 {
            RawClaim::Number(Some(number)) => ClaimValue::Number(number),
            RawClaim::Text(text) => ClaimValue::String(text),
            _ => {
                assert(kept_claim(raw_value) is None);
                return Err(entry.0);
            },
        };
        let ghost kept = value;
        claims.insert(entry.0, value);
        proof {
            assert(kept_claim(raw_value) == Some(kept@));
            assert(claims@.map_values(|value: ClaimValue| value@) =~= before.map_values(
                |value: ClaimValue| value@,
            ).insert(name, kept@));
            assert(kept_claims(seen.insert(name, raw_value)) =~= kept_claims(seen).insert(
                name,
                kept@,
            ));
        }
    }
    assert(all.take(all.len() as int) =~= all);
    Ok(Claims { claims })
}

/// The outcome for a token of which `decoded` came back from its signature and claim checks.
pub fn accept(
    decoded: Result<Vec<(String, RawClaim)>, jsonwebtoken::errors::Error>,
) -> (claims: Result<Claims, OidcError>)
    requires
        decoded matches Ok(raw) ==> distinct_keys(raw@),
    ensures
        match decoded {
            Err(error) => claims matches Err(OidcError::InvalidToken(TokenFault::Rejected(e))) && e
                == error,
            Ok(raw) => if all_kept(raw_claims(raw@)) {
                claims matches Ok(c) && c@ == kept_claims(raw_claims(raw@))
            } else {
                claims matches Err(OidcError::InvalidToken(TokenFault::UnsupportedClaim(name)))
                    && raw_claims(raw@).contains_key(name@) && kept_claim(
                    raw_claims(raw@)[name@],
                ) is None
            },
        },
{
    match decoded {
        Err(error) => Err(OidcError::InvalidToken(TokenFault::Rejected(error))),
        Ok(raw) => match keep_claims(raw) {
            Ok(claims) => Ok(claims),
            Err(name) => Err(OidcError::InvalidToken(TokenFault::UnsupportedClaim(name))),
        },
    }
}

/// The signature algorithm that goes with what a key says it is for. Keys that encrypt have none.
pub open spec fn signing_algorithm(key_algorithm: KeyAlgorithm) -> Option<Algorithm> {
    match key_algorithm {
        KeyAlgorithm::HS256 => Some(Algorithm::HS256),
        KeyAlgorithm::HS384 => Some(Algorithm::HS384),
        KeyAlgorithm::HS512 => Some(Algorithm::HS512),
        KeyAlgorithm::ES256 => Some(Algorithm::ES256),
        KeyAlgorithm::ES384 => Some(Algorithm::ES384),
        KeyAlgorithm::RS256 => Some(Algorithm::RS256),
        KeyAlgorithm::RS384 => Some(Algorithm::RS384),
        KeyAlgorithm::RS512 => Some(Algorithm::RS512),
        KeyAlgorithm::PS256 => Some(Algorithm::PS256),
        KeyAlgorithm::PS384 => Some(Algorithm::PS384),
        KeyAlgorithm::PS512 => Some(Algorithm::PS512),
        KeyAlgorithm::EdDSA => Some(Algorithm::EdDSA),
        KeyAlgorithm::RSA1_5 => None,
        KeyAlgorithm::RSA_OAEP => None,
        KeyAlgorithm::RSA_OAEP_256 => None,
        KeyAlgorithm::UNKNOWN_ALGORITHM => None,
    }
}

/// The signature algorithm that goes with what a key says it is for.
pub fn key_algo_to_algo(key_algorithm: KeyAlgorithm) -> (algorithm: Result<Algorithm, OidcError>)
    ensures
        match signing_algorithm(key_algorithm) {
            Some(a) => algorithm == Ok::<Algorithm, OidcError>(a),
            None => algorithm == Err::<Algorithm, OidcError>(
                OidcError::UnsupportedAlgorithm(key_algorithm),
            ),
        },
{
    match key_algorithm {
        KeyAlgorithm::HS256 => Ok(Algorithm::HS256),
        KeyAlgorithm::HS384 => Ok(Algorithm::HS384),
        KeyAlgorithm::HS512 => Ok(Algorithm::HS512),
        KeyAlgorithm::ES256 => Ok(Algorithm::ES256),
        KeyAlgorithm::ES384 => Ok(Algorithm::ES384),
        KeyAlgorithm::RS256 => Ok(Algorithm::RS256),
        KeyAlgorithm::RS384 => Ok(Algorithm::RS384),
        KeyAlgorithm::RS512 => Ok(Algorithm::RS512),
        KeyAlgorithm::PS256 => Ok(Algorithm::PS256),
        KeyAlgorithm::PS384 => Ok(Algorithm::PS384),
        KeyAlgorithm::PS512 => Ok(Algorithm::PS512),
        KeyAlgorithm::EdDSA => Ok(Algorithm::EdDSA),
        _ => Err(OidcError::UnsupportedAlgorithm(key_algorithm)),
    }
}

/// The issuer that a token claims to come from.
#[derive(Debug)]
pub struct IssuerClaim {
    pub iss: String,
}

/// The issuer that a token with this payload claims to come from.
pub open spec fn claimed_issuer(
    payload: Option<Map<Seq<char>, RawClaimModel>>,
) -> Option<Seq<char>> {
    match payload {
        Some(raw) => if raw.contains_key("iss"@) {
            match raw["iss"@] {
                RawClaimModel::Text(text) => Some(text),
                _ => None,
            }
        } else {
            None
        },
        None => None,
    }
}

impl IssuerClaim {
    /// The issuer among the claims of a payload.
    pub fn from_payload(payload: Vec<(String, RawClaim)>) -> (issuer: Option<IssuerClaim>)
        requires
            distinct_keys(payload@),
        ensures
            match issuer {
                Some(claim) => claimed_issuer(Some(raw_claims(payload@))) == Some(claim.iss@),
                None => claimed_issuer(Some(raw_claims(payload@))) is None,
            },
    {
        let ghost all = payload@;
        proof {
            lemma_entries_map(all, "iss"@);
        }
        for entry in iter: payload.into_iter()
            invariant
                iter.seq() == all,
                distinct_keys(all),
                entries_map(all).contains_key("iss"@) <==> exists|i: int|
                    0 <= i < all.len() && #[trigger] all[i].0@ == "iss"@,
                forall|i: int|
                    0 <= i < all.len() && #[trigger] all[i].0@ == "iss"@ ==> entries_map(
                        all,
                    )["iss"@] == all[i].1,
                forall|i: int| 0 <= i < iter.index() ==> #[trigger] all[i].0@ != "iss"@,
        {
            assert(all[iter.index()] == entry);
            if *entry.0.as_str() == *"iss" {
                return match entry.1 {
                    RawClaim::Text(iss) => Some(IssuerClaim { iss }),
                    _ => None,
                };
            }
        }
        None
    }

    /// The issuer that a token claims to come from. Nothing of the token is verified.
    pub fn of_token(token: &str) -> (issuer: Option<IssuerClaim>)
        ensures
            match issuer {
                Some(claim) => claimed_issuer(token_payload(token@)) == Some(claim.iss@),
                None => claimed_issuer(token_payload(token@)) is None,
            },
    {
        match jwt::insecure_decode(token) {
            Ok(payload) => IssuerClaim::from_payload(payload),
            Err(_) => None,
        }
    }
}

/// An identity provider that has not been asked for its configuration.
#[derive(Debug)]
pub struct OidcProvider {
    url: String,
}

impl OidcProvider {
    /// Where the provider's configuration is found.
    pub closed spec fn spec_url(self) -> Seq<char> {
        self.url@
    }

    /// The provider whose configuration is found at `url`.
    pub fn new(url: String) -> (provider: Self)
        ensures
            provider.spec_url() == url@,
    {
        OidcProvider { url }
    }

    /// Where the provider's configuration is found.
    pub fn url(&self) -> (url: &str)
        ensures
            url@ == self.spec_url(),
    {
        self.url.as_str()
    }
}

/// What an identity provider publishes about itself.
#[derive(Debug)]
pub struct OidcConfig {
    pub issuer: String,
    pub jwks_uri: String,
    pub subject_types_supported: Vec<String>,
    pub response_types_supported: Vec<String>,
    pub claims_supported: Vec<String>,
    pub id_token_signing_alg_values_supported: Vec<String>,
    pub scopes_supported: Vec<String>,
}

/// Each of `algorithms` has the name that stands at its place in `names`.
pub open spec fn are_named(algorithms: Seq<Algorithm>, names: Seq<String>) -> bool {
    &&& algorithms.len() == names.len()
    &&& forall|i: int| 0 <= i < names.len() ==> names[i]@ == #[trigger] algorithms[i].spec_name()
}

/// `name` is the name of an algorithm.
pub open spec fn is_algorithm_name(name: Seq<char>) -> bool {
    exists|a: Algorithm| name == #[trigger] a.spec_name()
}

impl OidcConfig {
    /// Completes what the provider publishes about itself with its keys. This fails when it lists
    /// a signature algorithm that is not known.
    pub fn resolve(self, jwks: JwkSet) -> (resolved: Result<ResolvedOidcConfig, OidcError>)
        ensures
            resolved is Ok <==> forall|i: int|
                0 <= i < self.id_token_signing_alg_values_supported@.len() ==> is_algorithm_name(
                    #[trigger] self.id_token_signing_alg_values_supported@[i]@,
                ),
            resolved matches Ok(config) ==> {
                &&& config.issuer == self.issuer
                &&& config.jwks == jwks
                &&& config.subject_types_supported == self.subject_types_supported
                &&& config.response_types_supported == self.response_types_supported
                &&& config.claims_supported == self.claims_supported
                &&& are_named(
                    config.id_token_signing_alg_values_supported@,
                    self.id_token_signing_alg_values_supported@,
                )
                &&& config.scopes_supported == self.scopes_supported
            },
            resolved matches Err(error) ==> error is InvalidOidcConfig,
    {
        let mut algorithms: Vec<Algorithm> = Vec::new();
        let ghost names = self.id_token_signing_alg_values_supported@;
        let mut i: usize = 0;
        while i < self.id_token_signing_alg_values_supported.len()
            invariant
                names == self.id_token_signing_alg_values_supported@,
                i <= names.len(),
                algorithms@.len() == i,
                forall|j: int|
                    0 <= j < i ==> names[j]@ == #[trigger] algorithms@[j].spec_name(),
                forall|j: int| 0 <= j < i ==> is_algorithm_name(#[trigger] names[j]@),
            decreases names.len() - i,
        {
            match Algorithm::from_name(self.id_token_signing_alg_values_supported[i].as_str()) {
                Some(algorithm) => {
                    assert(is_algorithm_name(names[i as int]@));
                    algorithms.push(algorithm);
                },
                None => {
                    assert(!is_algorithm_name(names[i as int]@));
                    return Err(OidcError::InvalidOidcConfig);
                },
            }
            i = i + 1;
        }
        Ok(
            ResolvedOidcConfig {
                issuer: self.issuer,
                jwks,
                subject_types_supported: self.subject_types_supported,
                response_types_supported: self.response_types_supported,
                claims_supported: self.claims_supported,
                id_token_signing_alg_values_supported: algorithms,
                scopes_supported: self.scopes_supported,
            },
        )
    }
}

/// An identity provider together with its keys.
#[derive(Debug)]
pub struct ResolvedOidcConfig {
    pub issuer: String,
    pub jwks: JwkSet,
    pub subject_types_supported: Vec<String>,
    pub response_types_supported: Vec<String>,
    pub claims_supported: Vec<String>,
    pub id_token_signing_alg_values_supported: Vec<Algorithm>,
    pub scopes_supported: Vec<String>,
}

/// What a token is to be checked with, or why it cannot be.
pub enum KeyChoice {
    InvalidHeader,
    MissingKid,
    UnknownKid(Seq<char>),
    InvalidKey,
    MissingKeyAlgorithm,
    UnsupportedAlgorithm(KeyAlgorithm),
    Chosen(KeyModel, Algorithm),
}

/// What a token is to be checked with: the key that its header names, and the algorithm that this
/// key is for. The algorithm that the header names plays no part.
pub open spec fn key_choice(keys: Seq<Jwk>, token: Seq<char>) -> KeyChoice {
    match token_header(token) {
        None => KeyChoice::InvalidHeader,
        Some(header) => match header.kid {
            None => KeyChoice::MissingKid,
            Some(kid) => match find_key(keys, kid) {
                None => KeyChoice::UnknownKid(kid),
                Some(jwk) => if !key_is_readable(jwk.parameters@) {
                    KeyChoice::InvalidKey
                } else {
                    match jwk.key_algorithm {
                        None => KeyChoice::MissingKeyAlgorithm,
                        Some(key_algorithm) => match signing_algorithm(key_algorithm) {
                            None => KeyChoice::UnsupportedAlgorithm(key_algorithm),
                            Some(algorithm) => KeyChoice::Chosen(jwk.parameters@, algorithm),
                        },
                    }
                },
            },
        },
    }
}

/// What holds of the claims of every accepted token: it is signed with the chosen key and
/// algorithm, the claims are its own, they come from `issuer`, are meant for `audience`, and hold
/// an expiry.
pub open spec fn is_accepted(
    token: Seq<char>,
    key: KeyModel,
    algorithm: Algorithm,
    issuer: Seq<char>,
    audience: Seq<char>,
    claims: Map<Seq<char>, ClaimModel>,
) -> bool {
    &&& token_header(token) matches Some(header)
    &&& header.algorithm == algorithm.spec_name()
    &&& signature_verifies(token, key, algorithm.spec_name())
    &&& token_payload(token) matches Some(raw)
    &&& all_kept(raw)
    &&& claims == kept_claims(raw)
    &&& claim_text(claims, "iss"@) == Some(issuer)
    &&& claim_text(claims, "aud"@) == Some(audience)
    &&& claims.contains_key("exp"@)
    &&& claims["exp"@] is Number
}

/// The checks ask for the one algorithm, audience and issuer, and for the claims that they read.
pub open spec fn asks_for(
    rules: Validation,
    algorithm: Algorithm,
    audience: Seq<char>,
    issuer: Seq<char>,
) -> bool {
    &&& rules.algorithm@ == algorithm.spec_name()
    &&& texts(rules.audience@) == seq![audience]
    &&& texts(rules.issuer@) == seq![issuer]
    &&& texts(rules.required_claims@) == seq!["exp"@, "aud"@, "iss"@]
}

/// The reason is the one that the checks of the token gave, made with this key and asking for this
/// algorithm, issuer and audience.
pub closed spec fn is_rejected(
    token: Seq<char>,
    key: KeyModel,
    algorithm: Algorithm,
    issuer: Seq<char>,
    audience: Seq<char>,
    reason: jsonwebtoken::errors::Error,
) -> bool {
    exists|text: &str, checked: VerifyingKey<'_>, rules: Validation|
        {
            &&& text@ == token
            &&& checked@ == key
            &&& asks_for(rules, algorithm, audience, issuer)
            &&& #[trigger] call_ensures(
                jwt::decode,
                (text, &checked, &rules),
                Err::<Vec<(String, RawClaim)>, jsonwebtoken::errors::Error>(reason),
            )
        }
}

impl ResolvedOidcConfig {
    /// What is known of the outcome of validating a token.
    pub open spec fn outcome(
        self,
        audience: Seq<char>,
        token: Seq<char>,
        claims: Result<Claims, OidcError>,
    ) -> bool {
        match key_choice(self.jwks.keys@, token) {
            KeyChoice::InvalidHeader => claims matches Err(OidcError::InvalidHeader(_)),
            KeyChoice::MissingKid => claims matches Err(OidcError::MissingKid),
            KeyChoice::UnknownKid(kid) => claims matches Err(OidcError::UnknownKid(k)) && k@ == kid,
            KeyChoice::InvalidKey => claims matches Err(OidcError::InvalidKey(_)),
            KeyChoice::MissingKeyAlgorithm => claims matches Err(OidcError::MissingKeyAlgorithm),
            KeyChoice::UnsupportedAlgorithm(key_algorithm) => claims matches Err(
                OidcError::UnsupportedAlgorithm(a),
            ) && a == key_algorithm,
            KeyChoice::Chosen(key, algorithm) => match claims {
                Ok(c) => is_accepted(token, key, algorithm, self.issuer@, audience, c@),
                Err(error) => error matches OidcError::InvalidToken(fault) && match fault {
                    TokenFault::UnsupportedClaim(name) => {
                        &&& token_payload(token) matches Some(raw)
                        &&& raw.contains_key(name@)
                        &&& kept_claim(raw[name@]) is None
                    },
                    TokenFault::Rejected(reason) => is_rejected(
                        token,
                        key,
                        algorithm,
                        self.issuer@,
                        audience,
                        reason,
                    ),
                },
            },
        }
    }

    /// Verifies a token and gives its claims. It must be signed by one of the provider's keys,
    /// with the algorithm that this key is for; it must come from the provider, be meant for this
    /// service, and not have expired.
    pub fn validate(&self, settings: &Settings, token: &str) -> (claims: Result<Claims, OidcError>)
        ensures
            self.outcome(settings.audience@, token@, claims),
    {
        let header = match jwt::decode_header(token) {
            Ok(header) => header,
            Err(error) => {
                return Err(OidcError::InvalidHeader(error));
            },
        };
        let kid = match header.kid {
            Some(kid) => kid,
            None => {
                return Err(OidcError::MissingKid);
            },
        };
        let jwk = match self.jwks.find(kid.as_str()) {
            Some(jwk) => jwk,
            None => {
                return Err(OidcError::UnknownKid(kid));
            },
        };
        let key = match VerifyingKey::from_jwk(jwk) {
            Ok(key) => key,
            Err(error) => {
                return Err(OidcError::InvalidKey(error));
            },
        };
        let key_algorithm = match jwk.key_algorithm {
            Some(key_algorithm) => key_algorithm,
            None => {
                return Err(OidcError::MissingKeyAlgorithm);
            },
        };
        let algorithm = match key_algo_to_algo(key_algorithm) {
            Ok(algorithm) => algorithm,
            Err(error) => {
                return Err(error);
            },
        };
        let validation = token_rules(algorithm, settings.audience.as_str(), self.issuer.as_str());
        let decoded = jwt::decode(token, &key, &validation);
        let ghost outcome = decoded;
        assert(texts(validation.audience@) =~= seq![settings.audience@]);
        assert(texts(validation.issuer@) =~= seq![self.issuer@]);
        assert(texts(validation.required_claims@) =~= seq!["exp"@, "aud"@, "iss"@]);
        assert(asks_for(validation, algorithm, settings.audience@, self.issuer@));
        assert(outcome matches Err(reason) ==> call_ensures(
            jwt::decode,
            (token, &key, &validation),
            Err::<Vec<(String, RawClaim)>, jsonwebtoken::errors::Error>(reason),
        ));
        proof {
            if let Ok(raw) = outcome {
                let claims = raw_claims(raw@);
                if all_kept(claims) {
                    assert(kept_claim(claims["iss"@]) is Some);
                    assert(kept_claim(claims["aud"@]) is Some);
                    assert(kept_claim(claims["exp"@]) is Some);
                }
            }
        }
        accept(decoded)
    }
}

/// The checks on a token: the one algorithm, audience and issuer, and that the claims which these
/// checks read are there at all. A token that names no audience could otherwise be used here
/// though it was made for another service.
pub fn token_rules(algorithm: Algorithm, audience: &str, issuer: &str) -> (rules: Validation)
    ensures
        rules.algorithm@ == algorithm.spec_name(),
        rules.audience@.len() == 1,
        rules.audience@[0]@ == audience@,
        rules.issuer@.len() == 1,
        rules.issuer@[0]@ == issuer@,
        rules.required_claims@.len() == 3,
        rules.required_claims@[0]@ == "exp"@,
        rules.required_claims@[1]@ == "aud"@,
        rules.required_claims@[2]@ == "iss"@,
{
    let mut accepted_audience: Vec<String> = Vec::new();
    accepted_audience.push(audience.to_owned());
    let mut accepted_issuer: Vec<String> = Vec::new();
    accepted_issuer.push(issuer.to_owned());
    let mut required_claims: Vec<String> = Vec::new();
    required_claims.push("exp".to_owned());
    required_claims.push("aud".to_owned());
    required_claims.push("iss".to_owned());
    Validation {
        algorithm: algorithm.name().to_owned(),
        audience: accepted_audience,
        issuer: accepted_issuer,
        required_claims,
    }
}

/// The header of an accepted token names the algorithm that its key is for: a token signed with
/// another algorithm is refused, whatever it is signed with.
pub proof fn accepted_tokens_name_the_algorithm_of_their_key(
    config: ResolvedOidcConfig,
    audience: Seq<char>,
    token: Seq<char>,
    claims: Claims,
)
    requires
        config.outcome(audience, token, Ok::<Claims, OidcError>(claims)),
    ensures
        ({
            &&& token_header(token) matches Some(header)
            &&& header.kid matches Some(kid)
            &&& find_key(config.jwks.keys@, kid) matches Some(jwk)
            &&& jwk.key_algorithm matches Some(key_algorithm)
            &&& signing_algorithm(key_algorithm) matches Some(algorithm)
            &&& header.algorithm == algorithm.spec_name()
            &&& signature_verifies(token, jwk.parameters@, algorithm.spec_name())
        }),
{
}

/// An accepted token says itself that it comes from the provider and is meant for this service.
pub proof fn accepted_tokens_are_issued_for_the_audience(
    config: ResolvedOidcConfig,
    audience: Seq<char>,
    token: Seq<char>,
    claims: Claims,
)
    requires
        config.outcome(audience, token, Ok::<Claims, OidcError>(claims)),
    ensures
        claimed_issuer(token_payload(token)) == Some(config.issuer@),
        claim_text(claims@, "iss"@) == Some(config.issuer@),
        claim_text(claims@, "aud"@) == Some(audience),
        claims@.contains_key("exp"@),
{
    let raw = token_payload(token).unwrap();
    assert(raw.contains_key("iss"@));
    assert(kept_claim(raw["iss"@]) is Some);
}

/// All claims of a payload are kept where each is a string or an integer, and none of them
/// otherwise. What is read of a claim is the text that it came with; a number has none.
pub proof fn claims_are_kept_as_they_came(
    raw: Vec<(String, RawClaim)>,
    claims: Result<Claims, String>,
    name: &str,
    text: Option<&str>,
)
    requires
        forall|i: int, j: int|
            0 <= i < j < raw@.len() ==> (#[trigger] raw@[i]).0@ != (#[trigger] raw@[j]).0@,
        call_ensures(keep_claims, (raw,), claims),
        claims matches Ok(c) ==> call_ensures(Claims::get_str, (&c, name), text),
    ensures
        claims is Ok <==> forall|i: int|
            0 <= i < raw@.len() ==> {
                ||| (#[trigger] raw@[i]).1 is Text
                ||| raw@[i].1 matches RawClaim::Number(Some(_))
            },
        claims is Err ==> exists|i: int|
            {
                &&& 0 <= i < raw@.len()
                &&& (#[trigger] raw@[i]).0@ == claims->Err_0@
                &&& !(raw@[i].1 is Text)
                &&& !(raw@[i].1 matches RawClaim::Number(Some(_)))
            },
        claims is Ok && text is Some ==> exists|i: int|
            {
                &&& 0 <= i < raw@.len()
                &&& (#[trigger] raw@[i]).0@ == name@
                &&& raw@[i].1 matches RawClaim::Text(own)
                &&& own@ == text->Some_0@
            },
        claims is Ok && text is None ==> forall|i: int|
            0 <= i < raw@.len() && (#[trigger] raw@[i]).0@ == name@ ==> !(raw@[i].1 is Text),
{
    assert(distinct_keys(raw@));
    assert forall|i: int| 0 <= i < raw@.len() implies {
        &&& raw_claims(raw@).contains_key((#[trigger] raw@[i]).0@)
        &&& raw_claims(raw@)[raw@[i].0@] == raw@[i].1@
    } by {
        lemma_entries_map(raw@, raw@[i].0@);
    }
    assert forall|key: Seq<char>| #[trigger] raw_claims(raw@).contains_key(key) implies exists|
        i: int,
    | 0 <= i < raw@.len() && (#[trigger] raw@[i]).0@ == key by {
        lemma_entries_map(raw@, key);
    }
}

/// What is read of a claim is the text of the last entry under its name; a number has none.
pub proof fn the_last_claim_counts(
    entries: Vec<(String, ClaimValue)>,
    claims: Claims,
    name: &str,
    text: Option<&str>,
)
    requires
        call_ensures(Claims::from_entries, (entries,), claims),
        call_ensures(Claims::get_str, (&claims, name), text),
    ensures
        text matches Some(t) ==> exists|i: int|
            {
                &&& 0 <= i < entries@.len()
                &&& (#[trigger] entries@[i]).0@ == name@
                &&& entries@[i].1 matches ClaimValue::String(own)
                &&& own@ == t@
                &&& forall|j: int| i < j < entries@.len() ==> (#[trigger] entries@[j]).0@ != name@
            },
        text is None ==> {
            ||| forall|i: int| 0 <= i < entries@.len() ==> (#[trigger] entries@[i]).0@ != name@
            ||| exists|i: int|
                {
                    &&& 0 <= i < entries@.len()
                    &&& (#[trigger] entries@[i]).0@ == name@
                    &&& entries@[i].1 is Number
                    &&& forall|j: int|
                        i < j < entries@.len() ==> (#[trigger] entries@[j]).0@ != name@
                }
        },
{
    lemma_entries_map(entries@, name@);
    if entries_map(entries@).contains_key(name@) {
        lemma_last_entry(entries@, name@);
        assert(claims@.contains_key(name@));
    }
}

/// A token whose checks failed is refused for their reason, and one that passed them is accepted
/// where each of its claims is a string or an integer.
pub proof fn checked_tokens_are_accepted(
    decoded: Result<Vec<(String, RawClaim)>, jsonwebtoken::errors::Error>,
    claims: Result<Claims, OidcError>,
    name: &str,
    text: Option<&str>,
)
    requires
        decoded matches Ok(raw) ==> forall|i: int, j: int|
            0 <= i < j < raw@.len() ==> (#[trigger] raw@[i]).0@ != (#[trigger] raw@[j]).0@,
        call_ensures(accept, (decoded,), claims),
        claims matches Ok(c) ==> call_ensures(Claims::get_str, (&c, name), text),
    ensures
        decoded matches Err(reason) ==> claims == Err::<Claims, OidcError>(
            OidcError::InvalidToken(TokenFault::Rejected(reason)),
        ),
        decoded matches Ok(raw) ==> {
            &&& claims is Ok <==> forall|i: int|
                0 <= i < raw@.len() ==> {
                    ||| (#[trigger] raw@[i]).1 is Text
                    ||| raw@[i].1 matches RawClaim::Number(Some(_))
                }
            &&& claims is Ok && text is Some ==> exists|i: int|
                {
                    &&& 0 <= i < raw@.len()
                    &&& (#[trigger] raw@[i]).0@ == name@
                    &&& raw@[i].1 matches RawClaim::Text(own)
                    &&& own@ == text->Some_0@
                }
            &&& claims is Ok && text is None ==> forall|i: int|
                0 <= i < raw@.len() && (#[trigger] raw@[i]).0@ == name@ ==> !(raw@[i].1 is Text)
            &&& claims is Err ==> {
                &&& claims->Err_0 matches OidcError::InvalidToken(
                    TokenFault::UnsupportedClaim(claim),
                )
                &&& exists|i: int|
                    {
                        &&& 0 <= i < raw@.len()
                        &&& (#[trigger] raw@[i]).0@ == claim@
                        &&& !(raw@[i].1 is Text)
                        &&& !(raw@[i].1 matches RawClaim::Number(Some(_)))
                    }
            }
        },
{
    if let Ok(raw) = decoded {
        assert(distinct_keys(raw@));
        assert forall|i: int| 0 <= i < raw@.len() implies {
            &&& raw_claims(raw@).contains_key((#[trigger] raw@[i]).0@)
            &&& raw_claims(raw@)[raw@[i].0@] == raw@[i].1@
        } by {
            lemma_entries_map(raw@, raw@[i].0@);
        }
        assert forall|key: Seq<char>| #[trigger] raw_claims(raw@).contains_key(key) implies exists|
            i: int,
        | 0 <= i < raw@.len() && (#[trigger] raw@[i]).0@ == key by {
            lemma_entries_map(raw@, key);
        }
    }
}

/// A key verifies signatures of the algorithm of the very name that the key says it is for. Only a
/// key for encryption, or for something unknown, verifies none.
pub proof fn keys_sign_with_the_algorithm_they_name(
    key_algorithm: KeyAlgorithm,
    algorithm: Result<Algorithm, OidcError>,
    key_name: &'static str,
    name: &'static str,
)
    requires
        call_ensures(key_algo_to_algo, (key_algorithm,), algorithm),
        call_ensures(KeyAlgorithm::name, (&key_algorithm,), key_name),
        algorithm matches Ok(a) ==> call_ensures(Algorithm::name, (&a,), name),
    ensures
        algorithm is Ok ==> name@ == key_name@,
        algorithm is Err <==> {
            ||| key_algorithm == KeyAlgorithm::RSA1_5
            ||| key_algorithm == KeyAlgorithm::RSA_OAEP
            ||| key_algorithm == KeyAlgorithm::RSA_OAEP_256
            ||| key_algorithm == KeyAlgorithm::UNKNOWN_ALGORITHM
        },
        algorithm matches Err(error) ==> error == OidcError::UnsupportedAlgorithm(key_algorithm),
{
}

/// The issuer of a token is the text under `iss` in its payload; a token without one has none.
pub proof fn issuers_are_read_from_the_payload(token: &str, issuer: Option<IssuerClaim>)
    requires
        call_ensures(IssuerClaim::of_token, (token,), issuer),
    ensures
        issuer matches Some(claim) ==> {
            &&& token_payload(token@) matches Some(raw)
            &&& raw.contains_key("iss"@)
            &&& raw["iss"@] == RawClaimModel::Text(claim.iss@)
        },
        issuer is None ==> (token_payload(token@) matches Some(raw) ==> !(raw.contains_key("iss"@)
            && raw["iss"@] is Text)),
{
}

/// The issuer in a payload is the text of the entry under `iss`.
pub proof fn issuers_are_read_from_the_entries(
    payload: Vec<(String, RawClaim)>,
    issuer: Option<IssuerClaim>,
)
    requires
        forall|i: int, j: int|
            0 <= i < j < payload@.len() ==> (#[trigger] payload@[i]).0@ != (
            #[trigger] payload@[j]).0@,
        call_ensures(IssuerClaim::from_payload, (payload,), issuer),
    ensures
        issuer matches Some(claim) ==> exists|i: int|
            {
                &&& 0 <= i < payload@.len()
                &&& (#[trigger] payload@[i]).0@ == "iss"@
                &&& payload@[i].1 matches RawClaim::Text(own)
                &&& own@ == claim.iss@
            },
        issuer is None ==> forall|i: int|
            0 <= i < payload@.len() && (#[trigger] payload@[i]).0@ == "iss"@ ==> !(
            payload@[i].1 is Text),
{
    assert(distinct_keys(payload@));
    lemma_entries_map(payload@, "iss"@);
}

/// A provider is known where it publishes nothing but known signature algorithms, and is kept as
/// it publishes itself.
pub proof fn providers_are_kept_as_published(
    config: OidcConfig,
    jwks: JwkSet,
    resolved: Result<ResolvedOidcConfig, OidcError>,
    i: int,
    name: &'static str,
)
    requires
        call_ensures(OidcConfig::resolve, (config, jwks), resolved),
        0 <= i < config.id_token_signing_alg_values_supported@.len(),
        resolved matches Ok(r) ==> call_ensures(
            Algorithm::name,
            (&r.id_token_signing_alg_values_supported@[i],),
            name,
        ),
    ensures
        resolved is Ok <==> forall|j: int|
            0 <= j < config.id_token_signing_alg_values_supported@.len() ==> {
                let known = #[trigger] config.id_token_signing_alg_values_supported@[j]@;
                ||| known == "HS256"@
                ||| known == "HS384"@
                ||| known == "HS512"@
                ||| known == "ES256"@
                ||| known == "ES384"@
                ||| known == "RS256"@
                ||| known == "RS384"@
                ||| known == "RS512"@
                ||| known == "PS256"@
                ||| known == "PS384"@
                ||| known == "PS512"@
                ||| known == "EdDSA"@
            },
        resolved matches Ok(r) ==> {
            &&& r.issuer == config.issuer
            &&& r.jwks == jwks
            &&& r.subject_types_supported == config.subject_types_supported
            &&& r.response_types_supported == config.response_types_supported
            &&& r.claims_supported == config.claims_supported
            &&& r.scopes_supported == config.scopes_supported
            &&& r.id_token_signing_alg_values_supported@.len()
                == config.id_token_signing_alg_values_supported@.len()
            &&& name@ == config.id_token_signing_alg_values_supported@[i]@
        },
        resolved matches Err(error) ==> error == OidcError::InvalidOidcConfig,
{
    assert forall|known: Seq<char>| #[trigger] is_algorithm_name(known) <==> {
        ||| known == "HS256"@
        ||| known == "HS384"@
        ||| known == "HS512"@
        ||| known == "ES256"@
        ||| known == "ES384"@
        ||| known == "RS256"@
        ||| known == "RS384"@
        ||| known == "RS512"@
        ||| known == "PS256"@
        ||| known == "PS384"@
        ||| known == "PS512"@
        ||| known == "EdDSA"@
    } by {
        assert("HS256"@ == Algorithm::HS256.spec_name());
        assert("HS384"@ == Algorithm::HS384.spec_name());
        assert("HS512"@ == Algorithm::HS512.spec_name());
        assert("ES256"@ == Algorithm::ES256.spec_name());
        assert("ES384"@ == Algorithm::ES384.spec_name());
        assert("RS256"@ == Algorithm::RS256.spec_name());
        assert("RS384"@ == Algorithm::RS384.spec_name());
        assert("RS512"@ == Algorithm::RS512.spec_name());
        assert("PS256"@ == Algorithm::PS256.spec_name());
        assert("PS384"@ == Algorithm::PS384.spec_name());
        assert("PS512"@ == Algorithm::PS512.spec_name());
        assert("EdDSA"@ == Algorithm::EdDSA.spec_name());
    }
}

/// An accepted token names a key of the provider by its id. It is signed with the first key of that
/// id and with the algorithm which this key is for, it says that it comes from the provider and is
/// meant for this service, and it holds an expiry. What is read of its claims is what it says.
pub proof fn accepted_tokens_are_signed_by_the_key_they_name(
    config: &ResolvedOidcConfig,
    settings: &Settings,
    token: &str,
    claims: Claims,
    name: &str,
    text: Option<&str>,
)
    requires
        call_ensures(
            ResolvedOidcConfig::validate,
            (config, settings, token),
            Ok::<Claims, OidcError>(claims),
        ),
        call_ensures(Claims::get_str, (&claims, name), text),
    ensures
        ({
            let keys = config.jwks.keys@;
            &&& token_header(token@) matches Some(header)
            &&& header.kid matches Some(kid)
            &&& exists|i: int|
                {
                    &&& #[trigger] is_first_with_kid(keys, kid, i)
                    &&& keys[i].key_algorithm matches Some(key_algorithm)
                    &&& header.algorithm == key_algorithm.spec_name()
                    &&& signature_verifies(token@, keys[i].parameters@, header.algorithm)
                }
        }),
        ({
            &&& token_payload(token@) matches Some(raw)
            &&& raw.contains_key("iss"@)
            &&& raw["iss"@] == RawClaimModel::Text(config.issuer@)
            &&& raw.contains_key("aud"@)
            &&& raw["aud"@] == RawClaimModel::Text(settings.audience@)
            &&& raw.contains_key("exp"@)
            &&& raw["exp"@] matches RawClaimModel::Number(Some(_))
            &&& text matches Some(t) ==> raw.contains_key(name@) && raw[name@]
                == RawClaimModel::Text(t@)
            &&& text is None ==> !(raw.contains_key(name@) && raw[name@] is Text)
        }),
{
    let kid = token_header(token@).unwrap().kid.unwrap();
    lemma_find_key(config.jwks.keys@, kid);
    let raw = token_payload(token@).unwrap();
    assert(raw.contains_key("iss"@) && kept_claim(raw["iss"@]) is Some);
    assert(raw.contains_key("aud"@) && kept_claim(raw["aud"@]) is Some);
    assert(raw.contains_key("exp"@) && kept_claim(raw["exp"@]) is Some);
    assert(raw.contains_key(name@) ==> kept_claim(raw[name@]) is Some);
}

/// A token is refused for its header where it cannot be read, for want of a key id where it names
/// none, and for an unknown key only where no key of the provider has the id that it names.
pub proof fn tokens_without_a_key_are_refused(
    config: &ResolvedOidcConfig,
    settings: &Settings,
    token: &str,
    outcome: Result<Claims, OidcError>,
)
    requires
        call_ensures(ResolvedOidcConfig::validate, (config, settings, token), outcome),
    ensures
        (outcome matches Err(OidcError::InvalidHeader(_))) <==> token_header(token@) is None,
        (outcome matches Err(OidcError::MissingKid)) <==> (token_header(token@) matches Some(header)
            && header.kid is None),
        (outcome matches Err(OidcError::UnknownKid(_))) <==> ({
            &&& token_header(token@) matches Some(header)
            &&& header.kid matches Some(kid)
            &&& forall|i: int|
                0 <= i < config.jwks.keys@.len() ==> ((
                #[trigger] config.jwks.keys@[i]).kid matches Some(own) ==> own@ != kid)
        }),
        outcome matches Err(OidcError::UnknownKid(kid)) ==> token_header(token@).unwrap().kid
            == Some(kid@),
{
    if let Some(header) = token_header(token@) {
        if let Some(kid) = header.kid {
            lemma_find_key(config.jwks.keys@, kid);
        }
    }
}

/// A token that names a key of the provider is refused for this key only where it cannot be read,
/// or says that it is for something else than signatures. Otherwise the signature and the claims
/// decide, and no claim is at fault that is a string or an integer.
pub proof fn tokens_with_a_key_are_checked(
    config: &ResolvedOidcConfig,
    settings: &Settings,
    token: &str,
    outcome: Result<Claims, OidcError>,
    kid: Seq<char>,
    i: int,
)
    requires
        call_ensures(ResolvedOidcConfig::validate, (config, settings, token), outcome),
        token_header(token@) matches Some(header) && header.kid == Some(kid),
        is_first_with_kid(config.jwks.keys@, kid, i),
    ensures
        ({
            let key = config.jwks.keys@[i];
            let unsigned = |a: KeyAlgorithm|
                {
                    ||| a == KeyAlgorithm::RSA1_5
                    ||| a == KeyAlgorithm::RSA_OAEP
                    ||| a == KeyAlgorithm::RSA_OAEP_256
                    ||| a == KeyAlgorithm::UNKNOWN_ALGORITHM
                };
            &&& (outcome matches Err(OidcError::InvalidKey(_))) <==> !key_is_readable(
                key.parameters@,
            )
            &&& (outcome matches Err(OidcError::MissingKeyAlgorithm)) <==> key_is_readable(
                key.parameters@,
            ) && key.key_algorithm is None
            &&& (outcome matches Err(OidcError::UnsupportedAlgorithm(_))) <==> key_is_readable(
                key.parameters@,
            ) && (key.key_algorithm matches Some(a) && unsigned(a))
            &&& outcome matches Err(OidcError::UnsupportedAlgorithm(a)) ==> key.key_algorithm
                == Some(a)
            &&& (outcome is Ok || outcome matches Err(OidcError::InvalidToken(_)))
                <==> key_is_readable(key.parameters@) && (key.key_algorithm matches Some(a)
                && !unsigned(a))
            &&& outcome matches Err(
                OidcError::InvalidToken(TokenFault::UnsupportedClaim(name)),
            ) ==> {
                &&& token_payload(token@) matches Some(raw)
                &&& raw.contains_key(name@)
                &&& !(raw[name@] is Text)
                &&& !(raw[name@] matches RawClaimModel::Number(Some(_)))
            }
        }),
{
    let keys = config.jwks.keys@;
    lemma_find_key(keys, kid);
    let j = choose|j: int| #[trigger]
        is_first_with_kid(keys, kid, j) && find_key(keys, kid) == Some(keys[j]);
    assert(i == j) by {
        if i < j {
            assert(keys[i].kid matches Some(own) ==> own@ != kid);
        }
        if j < i {
            assert(keys[j].kid matches Some(own) ==> own@ != kid);
        }
    }
}

/// What the checks of a token reject they reject with the key that the token names, asking for the
/// algorithm that this key is for, the provider as issuer, this service as audience, and the claims
/// that these checks read.
pub(crate) proof fn rejections_come_from_the_checks(
    config: &ResolvedOidcConfig,
    settings: &Settings,
    token: &str,
    reason: jsonwebtoken::errors::Error,
)
    requires
        call_ensures(
            ResolvedOidcConfig::validate,
            (config, settings, token),
            Err::<Claims, OidcError>(OidcError::InvalidToken(TokenFault::Rejected(reason))),
        ),
    ensures
        ({
            &&& token_header(token@) matches Some(header)
            &&& header.kid matches Some(kid)
            &&& exists|i: int, text: &str, checked: VerifyingKey<'_>, rules: Validation|
                {
                    &&& #[trigger] is_first_with_kid(config.jwks.keys@, kid, i)
                    &&& text@ == token@
                    &&& checked@ == config.jwks.keys@[i].parameters@
                    &&& config.jwks.keys@[i].key_algorithm matches Some(key_algorithm)
                    &&& rules.algorithm@ == key_algorithm.spec_name()
                    &&& rules.audience@.len() == 1
                    &&& rules.audience@[0]@ == settings.audience@
                    &&& rules.issuer@.len() == 1
                    &&& rules.issuer@[0]@ == config.issuer@
                    &&& rules.required_claims@.len() == 3
                    &&& rules.required_claims@[0]@ == "exp"@
                    &&& rules.required_claims@[1]@ == "aud"@
                    &&& rules.required_claims@[2]@ == "iss"@
                    &&& #[trigger] call_ensures(
                        jwt::decode,
                        (text, &checked, &rules),
                        Err::<Vec<(String, RawClaim)>, jsonwebtoken::errors::Error>(reason),
                    )
                }
        }),
{
    let keys = config.jwks.keys@;
    let kid = token_header(token@).unwrap().kid.unwrap();
    lemma_find_key(keys, kid);
    let i = choose|i: int| #[trigger]
        is_first_with_kid(keys, kid, i) && find_key(keys, kid) == Some(keys[i]);
    let key = keys[i].parameters@;
    let algorithm = signing_algorithm(keys[i].key_algorithm.unwrap()).unwrap();
    assert(is_rejected(token@, key, algorithm, config.issuer@, settings.audience@, reason));
    let (text, checked, rules) = choose|text: &str, checked: VerifyingKey<'_>, rules: Validation|
        {
            &&& text@ == token@
            &&& checked@ == key
            &&& asks_for(rules, algorithm, settings.audience@, config.issuer@)
            &&& #[trigger] call_ensures(
                jwt::decode,
                (text, &checked, &rules),
                Err::<Vec<(String, RawClaim)>, jsonwebtoken::errors::Error>(reason),
            )
        };
    assert(texts(rules.audience@).len() == 1);
    assert(texts(rules.issuer@).len() == 1);
    assert(texts(rules.required_claims@).len() == 3);
    assert(texts(rules.audience@)[0] == rules.audience@[0]@);
    assert(texts(rules.issuer@)[0] == rules.issuer@[0]@);
    assert(texts(rules.required_claims@)[0] == rules.required_claims@[0]@);
    assert(texts(rules.required_claims@)[1] == rules.required_claims@[1]@);
    assert(texts(rules.required_claims@)[2] == rules.required_claims@[2]@);
}

/// The checks on a token ask for the algorithm by its name, for the one audience and the one
/// issuer, and for just the claims that they read.
pub proof fn checks_ask_for_what_they_are_given(
    algorithm: Algorithm,
    name: &'static str,
    audience: &str,
    issuer: &str,
    rules: Validation,
    claim: Seq<char>,
)
    requires
        call_ensures(token_rules, (algorithm, audience, issuer), rules),
        call_ensures(Algorithm::name, (&algorithm,), name),
    ensures
        rules.algorithm@ == name@,
        rules.audience@.len() == 1 && rules.audience@[0]@ == audience@,
        rules.issuer@.len() == 1 && rules.issuer@[0]@ == issuer@,
        (exists|i: int|
            0 <= i < rules.required_claims@.len() && #[trigger] rules.required_claims@[i]@ == claim)
            <==> {
            ||| claim == "exp"@
            ||| claim == "aud"@
            ||| claim == "iss"@
        },
{
    assert(rules.required_claims@[0]@ == "exp"@);
    assert(rules.required_claims@[1]@ == "aud"@);
    assert(rules.required_claims@[2]@ == "iss"@);
}

/// A provider is asked at the URL that it was made with.
pub proof fn providers_keep_their_url(source: String, provider: OidcProvider, url: &str)
    requires
        call_ensures(OidcProvider::new, (source,), provider),
        call_ensures(OidcProvider::url, (&provider,), url),
    ensures
        url@ == source@,
{
}

/// A message names the key id or the algorithm that the error is about, and otherwise its kind.
pub proof fn messages_name_the_key_or_the_algorithm(
    error: &OidcError,
    text: String,
    name: &'static str,
)
    requires
        call_ensures(OidcError::message, (error,), text),
        *error matches OidcError::UnsupportedAlgorithm(algorithm) ==> call_ensures(
            KeyAlgorithm::name,
            (&algorithm,),
            name,
        ),
    ensures
        match *error {
            OidcError::UnknownKid(kid) => text@ == kid@ + " did not match any known keys"@,
            OidcError::UnsupportedAlgorithm(_) => text@ == "Key algorithm "@ + name@
                + " is not supported"@,
            OidcError::InvalidOidcConfig => text@ == "Invalid OIDC configuration"@,
            OidcError::InvalidHeader(_) => text@ == "Failed to parse token header"@,
            OidcError::InvalidToken(_) => text@ == "Failed to decode token"@,
            OidcError::InvalidKey(_) => text@ == "Failed to create decoding key"@,
            OidcError::MissingKid => text@ == "Missing kid in token header"@,
            OidcError::MissingKeyAlgorithm => text@ == "JWK must define a key algorithm"@,
            OidcError::ValidationFailed => text@
                == "Token claims do not satisfy claim constraints"@,
            OidcError::Request(_) => text@ == "External call failed"@,
        },
{
}

/// Any token can be validated, whatever it holds.
pub proof fn any_token_is_validated(config: &ResolvedOidcConfig, settings: &Settings, token: &str)
    ensures
        call_requires(ResolvedOidcConfig::validate, (config, settings, token)),
        call_requires(IssuerClaim::of_token, (token,)),
{
}

} // verus!
