//! JSON Web Tokens: the keys and claims they carry, and the calls into `jsonwebtoken` that decode,
//! verify and sign them.

use crate::string_map::{distinct_keys, entries_map};
use jsonwebtoken::jwk::{
    self, AlgorithmParameters, EllipticCurveKeyParameters, OctetKeyPairParameters,
    OctetKeyParameters, RSAKeyParameters,
};
use jsonwebtoken::DecodingKey;
use serde_json::Value;
use std::str::FromStr;
use vstd::prelude::*;

verus! {

/// An error of the JWT library, carried as it came.
#[verifier::external_type_specification]
#[verifier::external_body]
pub struct ExJwtError(jsonwebtoken::errors::Error);

/// A key that verifies signatures, in the form the JWT library works on.
#[verifier::external_type_specification]
#[verifier::external_body]
pub struct ExDecodingKey(jsonwebtoken::DecodingKey);

/// A key that signs, in the form the JWT library works on.
#[verifier::external_type_specification]
#[verifier::external_body]
pub struct ExEncodingKey(jsonwebtoken::EncodingKey);

/// A signature algorithm.
#[derive(Clone, Copy, Debug, PartialEq, Eq, Structural)]
pub enum Algorithm {
    HS256,
    HS384,
    HS512,
    ES256,
    ES384,
    RS256,
    RS384,
    RS512,
    PS256,
    PS384,
    PS512,
    EdDSA,
}

impl Algorithm {
    /// The algorithm's name in token headers and key sets.
    pub open spec fn spec_name(self) -> Seq<char> {
        match self {
            Algorithm::HS256 => "HS256"@,
            Algorithm::HS384 => "HS384"@,
            Algorithm::HS512 => "HS512"@,
            Algorithm::ES256 => "ES256"@,
            Algorithm::ES384 => "ES384"@,
            Algorithm::RS256 => "RS256"@,
            Algorithm::RS384 => "RS384"@,
            Algorithm::RS512 => "RS512"@,
            Algorithm::PS256 => "PS256"@,
            Algorithm::PS384 => "PS384"@,
            Algorithm::PS512 => "PS512"@,
            Algorithm::EdDSA => "EdDSA"@,
        }
    }

    /// The algorithm's name in token headers and key sets.
    pub fn name(&self) -> (name: &'static str)
        ensures
            name@ == self.spec_name(),
    {
        match self {
            Algorithm::HS256 => "HS256",
            Algorithm::HS384 => "HS384",
            Algorithm::HS512 => "HS512",
            Algorithm::ES256 => "ES256",
            Algorithm::ES384 => "ES384",
            Algorithm::RS256 => "RS256",
            Algorithm::RS384 => "RS384",
            Algorithm::RS512 => "RS512",
            Algorithm::PS256 => "PS256",
            Algorithm::PS384 => "PS384",
            Algorithm::PS512 => "PS512",
            Algorithm::EdDSA => "EdDSA",
        }
    }

    /// The algorithm of that name.
    pub fn from_name(name: &str) -> (found: Option<Algorithm>)
        ensures
            match found {
                Some(algorithm) => name@ == algorithm.spec_name(),
                None => forall|a: Algorithm| name@ != #[trigger] a.spec_name(),
            },
    {
        if *name == *"HS256" {
            Some(Algorithm::HS256)
        } else if *name == *"HS384" {
            Some(Algorithm::HS384)
        } else if *name == *"HS512" {
            Some(Algorithm::HS512)
        } else if *name == *"ES256" {
            Some(Algorithm::ES256)
        } else if *name == *"ES384" {
            Some(Algorithm::ES384)
        } else if *name == *"RS256" {
            Some(Algorithm::RS256)
        } else if *name == *"RS384" {
            Some(Algorithm::RS384)
        } else if *name == *"RS512" {
            Some(Algorithm::RS512)
        } else if *name == *"PS256" {
            Some(Algorithm::PS256)
        } else if *name == *"PS384" {
            Some(Algorithm::PS384)
        } else if *name == *"PS512" {
            Some(Algorithm::PS512)
        } else if *name == *"EdDSA" {
            Some(Algorithm::EdDSA)
        } else {
            None
        }
    }
}

/// Two algorithms never share a name.
pub proof fn algorithm_names_are_distinct(a: Algorithm, b: Algorithm)
    requires
        a.spec_name() == b.spec_name(),
    ensures
        a == b,
{
    reveal_algorithm_names();
    let x = a.spec_name();
    let y = b.spec_name();
    assert(x[0] == y[0] && x[2] == y[2]);
}

/// What a key in a key set says it is for.
#[allow(non_camel_case_types)]
#[derive(Clone, Copy, Debug, PartialEq, Eq, Structural)]
pub enum KeyAlgorithm {
    HS256,
    HS384,
    HS512,
    ES256,
    ES384,
    RS256,
    RS384,
    RS512,
    PS256,
    PS384,
    PS512,
    EdDSA,
    RSA1_5,
    RSA_OAEP,
    RSA_OAEP_256,
    UNKNOWN_ALGORITHM,
}

impl KeyAlgorithm {
    /// What the algorithm is called in messages.
    pub open spec fn spec_name(self) -> Seq<char> {
        match self {
            KeyAlgorithm::HS256 => "HS256"@,
            KeyAlgorithm::HS384 => "HS384"@,
            KeyAlgorithm::HS512 => "HS512"@,
            KeyAlgorithm::ES256 => "ES256"@,
            KeyAlgorithm::ES384 => "ES384"@,
            KeyAlgorithm::RS256 => "RS256"@,
            KeyAlgorithm::RS384 => "RS384"@,
            KeyAlgorithm::RS512 => "RS512"@,
            KeyAlgorithm::PS256 => "PS256"@,
            KeyAlgorithm::PS384 => "PS384"@,
            KeyAlgorithm::PS512 => "PS512"@,
            KeyAlgorithm::EdDSA => "EdDSA"@,
            KeyAlgorithm::RSA1_5 => "RSA1_5"@,
            KeyAlgorithm::RSA_OAEP => "RSA_OAEP"@,
            KeyAlgorithm::RSA_OAEP_256 => "RSA_OAEP_256"@,
            KeyAlgorithm::UNKNOWN_ALGORITHM => "UNKNOWN_ALGORITHM"@,
        }
    }

    /// What the algorithm is called in messages.
    pub fn name(&self) -> (name: &'static str)
        ensures
            name@ == self.spec_name(),
    {
        match self {
            KeyAlgorithm::HS256 => "HS256",
            KeyAlgorithm::HS384 => "HS384",
            KeyAlgorithm::HS512 => "HS512",
            KeyAlgorithm::ES256 => "ES256",
            KeyAlgorithm::ES384 => "ES384",
            KeyAlgorithm::RS256 => "RS256",
            KeyAlgorithm::RS384 => "RS384",
            KeyAlgorithm::RS512 => "RS512",
            KeyAlgorithm::PS256 => "PS256",
            KeyAlgorithm::PS384 => "PS384",
            KeyAlgorithm::PS512 => "PS512",
            KeyAlgorithm::EdDSA => "EdDSA",
            KeyAlgorithm::RSA1_5 => "RSA1_5",
            KeyAlgorithm::RSA_OAEP => "RSA_OAEP",
            KeyAlgorithm::RSA_OAEP_256 => "RSA_OAEP_256",
            KeyAlgorithm::UNKNOWN_ALGORITHM => "UNKNOWN_ALGORITHM",
        }
    }
}

/// The public part of a key, each field in unpadded base64url.
#[derive(Debug)]
pub enum KeyParameters {
    EllipticCurve { x: String, y: String },
    Rsa { n: String, e: String },
    OctetKeyPair { x: String },
    OctetKey { value: String },
}

/// The characters of [`KeyParameters`].
pub enum KeyModel {
    EllipticCurve { x: Seq<char>, y: Seq<char> },
    Rsa { n: Seq<char>, e: Seq<char> },
    OctetKeyPair { x: Seq<char> },
    OctetKey { value: Seq<char> },
}

impl View for KeyParameters {
    type V = KeyModel;

    open spec fn view(&self) -> KeyModel {
        match *self {
            KeyParameters::EllipticCurve { x, y } => KeyModel::EllipticCurve { x: x@, y: y@ },
            KeyParameters::Rsa { n, e } => KeyModel::Rsa { n: n@, e: e@ },
            KeyParameters::OctetKeyPair { x } => KeyModel::OctetKeyPair { x: x@ },
            KeyParameters::OctetKey { value } => KeyModel::OctetKey { value: value@ },
        }
    }
}

/// A key of a key set.
#[derive(Debug)]
pub struct Jwk {
    pub kid: Option<String>,
    pub key_algorithm: Option<KeyAlgorithm>,
    pub parameters: KeyParameters,
}

impl Jwk {
    /// The key is known by the id `kid`.
    pub open spec fn has_kid(self, kid: Seq<char>) -> bool {
        match self.kid {
            Some(own) => own@ == kid,
            None => false,
        }
    }
}

/// The keys that an identity provider signs with.
#[derive(Debug)]
pub struct JwkSet {
    pub keys: Vec<Jwk>,
}

/// The first key known by `kid`.
pub open spec fn find_key(keys: Seq<Jwk>, kid: Seq<char>) -> Option<Jwk>
    decreases keys.len(),
{
    if keys.len() == 0 {
        None
    } else if keys[0].has_kid(kid) {
        Some(keys[0])
    } else {
        find_key(keys.drop_first(), kid)
    }
}

impl JwkSet {
    /// The first key known by `kid`.
    pub fn find(&self, kid: &str) -> (found: Option<&Jwk>)
        ensures
            match found {
                Some(key) => find_key(self.keys@, kid@) == Some(*key),
                None => find_key(self.keys@, kid@) is None,
            },
    {
        let mut i: usize = 0;
        assert(self.keys@.skip(0) =~= self.keys@);
        while i < self.keys.len()
            invariant
                i <= self.keys@.len(),
                find_key(self.keys@, kid@) == find_key(self.keys@.skip(i as int), kid@),
            decreases self.keys@.len() - i,
        {
            let key = &self.keys[i];
            assert(self.keys@.skip(i as int)[0] == *key);
            assert(self.keys@.skip(i as int).drop_first() =~= self.keys@.skip(i + 1));
            match &key.kid {
                Some(own) => {
                    if *own.as_str() == *kid {
                        return Some(key);
                    }
                },
                None => {},
            }
            i = i + 1;
        }
        None
    }
}

/// The value of a claim as JSON has it. Only integers in the range of `i64` keep their value, and
/// what an array or an object holds is left out.
#[derive(Debug)]
pub enum RawClaim {
    Null,
    Bool(bool),
    Number(Option<i64>),
    Text(String),
    Array,
    Object,
}

/// The plain value of a [`RawClaim`].
pub enum RawClaimModel {
    Null,
    Bool(bool),
    Number(Option<i64>),
    Text(Seq<char>),
    Array,
    Object,
}

impl View for RawClaim {
    type V = RawClaimModel;

    open spec fn view(&self) -> RawClaimModel {
        match *self {
            RawClaim::Null => RawClaimModel::Null,
            RawClaim::Bool(b) => RawClaimModel::Bool(b),
            RawClaim::Number(n) => RawClaimModel::Number(n),
            RawClaim::Text(s) => RawClaimModel::Text(s@),
            RawClaim::Array => RawClaimModel::Array,
            RawClaim::Object => RawClaimModel::Object,
        }
    }
}

/// The claims that a list of entries stands for.
pub open spec fn raw_claims(entries: Seq<(String, RawClaim)>) -> Map<Seq<char>, RawClaimModel> {
    entries_map(entries).map_values(|claim: RawClaim| claim@)
}

/// What a token's header says: its algorithm's name and the id of its key.
#[derive(Debug)]
pub struct TokenHeader {
    pub algorithm: String,
    pub kid: Option<String>,
}

/// The characters of a [`TokenHeader`].
pub struct TokenHeaderModel {
    pub algorithm: Seq<char>,
    pub kid: Option<Seq<char>>,
}

impl View for TokenHeader {
    type V = TokenHeaderModel;

    open spec fn view(&self) -> TokenHeaderModel {
        TokenHeaderModel {
            algorithm: self.algorithm@,
            kid: match self.kid {
                Some(kid) => Some(kid@),
                None => None,
            },
        }
    }
}

/// The header of a token, where it has one that can be read.
pub uninterp spec fn token_header(token: Seq<char>) -> Option<TokenHeaderModel>;

/// Calls `jsonwebtoken::decode_header`, which reads a token's header and verifies nothing. What it
/// finds depends on the token alone, and [`token_header`] names it. The algorithm is given by the
/// name that the library prints for it.
#[verifier::external_body]
pub(crate) fn decode_header(token: &str) -> (header: Result<
    TokenHeader,
    jsonwebtoken::errors::Error,
>)
    ensures
        match header {
            Ok(h) => token_header(token@) == Some(h@),
            Err(_) => token_header(token@) is None,
        },
{
    let header = jsonwebtoken::decode_header(token)?;
    Ok(TokenHeader { algorithm: format!("{:?}", header.alg), kid: header.kid })
}

/// The claims of a token's payload, where it is a JSON object that can be read.
pub uninterp spec fn token_payload(token: Seq<char>) -> Option<Map<Seq<char>, RawClaimModel>>;

/// Calls `jsonwebtoken::dangerous::insecure_decode`, which reads a token's payload and verifies
/// nothing. What it finds depends on the token alone, and [`token_payload`] names it.
#[verifier::external_body]
pub(crate) fn insecure_decode(token: &str) -> (claims: Result<
    Vec<(String, RawClaim)>,
    jsonwebtoken::errors::Error,
>)
    ensures
        match claims {
            Ok(c) => distinct_keys(c@) && token_payload(token@) == Some(raw_claims(c@)),
            Err(_) => token_payload(token@) is None,
        },
{
    let data = jsonwebtoken::dangerous::insecure_decode::<serde_json::Map<String, Value>>(token)?;
    let claims = data.claims.into_iter().map(|(name, value)| (name, match value {
        Value::Null => RawClaim::Null,
        Value::Bool(b) => RawClaim::Bool(b),
        Value::Number(n) => RawClaim::Number(n.as_i64()),
        Value::String(s) => RawClaim::Text(s),
        Value::Array(_) => RawClaim::Array,
        Value::Object(_) => RawClaim::Object,
    }));
    Ok(claims.collect())
}

/// The value of a digit of base64url.
pub open spec fn base64url_value(c: char) -> Option<int> {
    if 'A' <= c <= 'Z' {
        Some(c as int - 'A' as int)
    } else if 'a' <= c <= 'z' {
        Some(c as int - 'a' as int + 26)
    } else if '0' <= c <= '9' {
        Some(c as int - '0' as int + 52)
    } else if c == '-' {
        Some(62)
    } else if c == '_' {
        Some(63)
    } else {
        None
    }
}

/// The text is unpadded base64url: its digits make whole bytes, and the bits left over are zero.
pub open spec fn is_base64url(text: Seq<char>) -> bool {
    &&& forall|i: int| 0 <= i < text.len() ==> base64url_value(#[trigger] text[i]) is Some
    &&& text.len() % 4 != 1
    &&& text.len() % 4 == 2 ==> base64url_value(text.last()).unwrap() % 16 == 0
    &&& text.len() % 4 == 3 ==> base64url_value(text.last()).unwrap() % 4 == 0
}

/// The key's fields are unpadded base64url.
pub open spec fn key_is_readable(key: KeyModel) -> bool {
    match key {
        KeyModel::EllipticCurve { x, y } => is_base64url(x) && is_base64url(y),
        KeyModel::Rsa { n, e } => is_base64url(n) && is_base64url(e),
        KeyModel::OctetKeyPair { x } => is_base64url(x),
        KeyModel::OctetKey { value } => is_base64url(value),
    }
}

/// A key that verifies signatures: what it was made from, beside what the JWT library made of it.
/// Only [`VerifyingKey::from_jwk`] makes one.
pub struct VerifyingKey<'a> {
    parameters: &'a KeyParameters,
    key: jsonwebtoken::DecodingKey,
}

impl<'a> View for VerifyingKey<'a> {
    type V = KeyModel;

    closed spec fn view(&self) -> KeyModel {
        self.parameters@
    }
}

impl<'a> VerifyingKey<'a> {
    /// Calls `jsonwebtoken::DecodingKey::from_jwk`, which decodes the fields of a key and reads
    /// nothing else of it. It fails where one of them is not unpadded base64url, and only there.
    #[verifier::external_body]
    pub(crate) fn from_jwk(jwk: &'a Jwk) -> (key: Result<
        VerifyingKey<'a>,
        jsonwebtoken::errors::Error,
    >)
        ensures
            key is Ok <==> key_is_readable(jwk.parameters@),
            key matches Ok(k) ==> k@ == jwk.parameters@,
    {
        let algorithm = match &jwk.parameters {
            KeyParameters::EllipticCurve { x, y } => AlgorithmParameters::EllipticCurve(
                EllipticCurveKeyParameters { x: x.into(), y: y.into(), ..Default::default() }),
            KeyParameters::Rsa { n, e } => AlgorithmParameters::RSA(
                RSAKeyParameters { n: n.into(), e: e.into(), ..Default::default() }),
            KeyParameters::OctetKeyPair { x } => AlgorithmParameters::OctetKeyPair(
                OctetKeyPairParameters {
                    x: x.into(), key_type: Default::default(), curve: Default::default() }),
            KeyParameters::OctetKey { value } => AlgorithmParameters::OctetKey(
                OctetKeyParameters { value: value.into(), ..Default::default() })
        };
        let key = jwk::Jwk { common: Default::default(), algorithm };
        Ok(VerifyingKey { parameters: &jwk.parameters, key: DecodingKey::from_jwk(&key)? })
    }
}

/// What a token must satisfy besides a valid signature.
#[derive(Debug)]
pub struct Validation {
    /// The name of the one algorithm that the token may be signed with.
    pub algorithm: String,
    /// The audiences of which the token must name one.
    pub audience: Vec<String>,
    /// The issuers of which the token must name one.
    pub issuer: Vec<String>,
    /// The registered claims that the token must hold.
    pub required_claims: Vec<String>,
}

/// `text` is one of `items`.
pub open spec fn is_listed(items: Seq<String>, text: Seq<char>) -> bool {
    exists|i: int| 0 <= i < items.len() && #[trigger] items[i]@ == text
}

impl Validation {
    /// The claim `name`, if it is text, is one of `expected`, and where it is required it is text
    /// or an array.
    pub open spec fn names_one_of(
        self,
        claims: Map<Seq<char>, RawClaimModel>,
        name: Seq<char>,
        expected: Seq<String>,
    ) -> bool {
        &&& claims.contains_key(name) && claims[name] is Text ==> is_listed(
            expected,
            claims[name]->Text_0,
        )
        &&& is_listed(self.required_claims@, name) ==> {
            &&& claims.contains_key(name)
            &&& claims[name] is Text || claims[name] is Array
        }
    }

    /// What every accepted token's claims satisfy, whatever the time.
    pub open spec fn admits(self, claims: Map<Seq<char>, RawClaimModel>) -> bool {
        &&& self.names_one_of(claims, "iss"@, self.issuer@)
        &&& self.names_one_of(claims, "aud"@, self.audience@)
        &&& is_listed(self.required_claims@, "exp"@) ==> {
            &&& claims.contains_key("exp"@)
            &&& claims["exp"@] is Number
        }
    }
}

/// Whether a token's signature verifies under a key with the algorithm of that name.
pub uninterp spec fn signature_verifies(
    token: Seq<char>,
    key: KeyModel,
    algorithm: Seq<char>,
) -> bool;

/// Calls `jsonwebtoken::decode` with the checks of `validation`, set on top of the ones that
/// `jsonwebtoken::Validation::new` turns on. Whether a token is accepted depends on the time as
/// well, since an expired one is not. Of an accepted token it holds that its header names the
/// expected algorithm, that the signature verifies, that its claims are those of its payload, and
/// that the issuer, the audience and the required claims were checked. That its expiry lies no
/// more than a minute in the past is left unsaid. A key that no signature can be checked with is
/// an error like any other.
#[verifier::external_body]
pub(crate) fn decode(
    token: &str,
    key: &VerifyingKey<'_>,
    validation: &Validation,
) -> (claims: Result<Vec<(String, RawClaim)>, jsonwebtoken::errors::Error>)
    ensures
        claims matches Ok(c) ==> {
            &&& token_header(token@) matches Some(h)
            &&& h.algorithm == validation.algorithm@
            &&& signature_verifies(token@, key@, validation.algorithm@)
            &&& distinct_keys(c@)
            &&& token_payload(token@) == Some(raw_claims(c@))
            &&& validation.admits(raw_claims(c@))
        },
{
    let algorithm = jsonwebtoken::Algorithm::from_str(&validation.algorithm)?;
    let mut checks = jsonwebtoken::Validation::new(algorithm);
    checks.set_audience(&validation.audience);
    checks.set_issuer(&validation.issuer);
    checks.set_required_spec_claims(&validation.required_claims);
    let data = jsonwebtoken::decode::<serde_json::Map<String, Value>>(token, &key.key, &checks)?;
    Ok(data.claims.into_iter().map(|(name, value)| (name, match value {
        Value::Null => RawClaim::Null,
        Value::Bool(b) => RawClaim::Bool(b),
        Value::Number(n) => RawClaim::Number(n.as_i64()),
        Value::String(s) => RawClaim::Text(s),
        Value::Array(_) => RawClaim::Array,
        Value::Object(_) => RawClaim::Object,
    })).collect())
}

/// The value of a claim that is put into a token or kept from one.
#[derive(Debug)]
pub enum ClaimValue {
    Number(i64),
    String(String),
}

/// The plain value of a [`ClaimValue`].
pub enum ClaimModel {
    Number(i64),
    String(Seq<char>),
}

impl View for ClaimValue {
    type V = ClaimModel;

    open spec fn view(&self) -> ClaimModel {
        match *self {
            ClaimValue::Number(n) => ClaimModel::Number(n),
            ClaimValue::String(s) => ClaimModel::String(s@),
        }
    }
}

/// The claims of a list, in its order.
pub open spec fn claim_list(claims: Seq<(String, ClaimValue)>) -> Seq<(Seq<char>, ClaimModel)> {
    claims.map_values(|claim: (String, ClaimValue)| (claim.0@, claim.1@))
}

/// Whether a text is the PEM encoding of an RSA key.
pub uninterp spec fn is_rsa_pem(pem: Seq<char>) -> bool;

/// The claim as JSON has it.
pub open spec fn raw_claim(claim: ClaimModel) -> RawClaimModel {
    match claim {
        ClaimModel::Number(n) => RawClaimModel::Number(Some(n)),
        ClaimModel::String(s) => RawClaimModel::Text(s),
    }
}

/// What a token that carries the claims of a list holds; of two under one name the later counts.
pub open spec fn carried_claims(claims: Seq<(Seq<char>, ClaimModel)>) -> Map<
    Seq<char>,
    RawClaimModel,
>
    decreases claims.len(),
{
    if claims.len() == 0 {
        Map::empty()
    } else {
        carried_claims(claims.drop_last()).insert(claims.last().0, raw_claim(claims.last().1))
    }
}

/// What may come of signing claims with the algorithm of that name and a private RSA key in PEM:
/// the tokens that carry the claims and such a signature, and `None` where the attempt may fail.
pub uninterp spec fn signing_outcomes(
    algorithm: Seq<char>,
    claims: Seq<(Seq<char>, ClaimModel)>,
    pem: Seq<char>,
) -> Set<Option<Seq<char>>>;

/// A key that signs: what it was made from, beside what the JWT library made of it. Only
/// [`SigningKey::from_rsa_pem`] makes one.
pub struct SigningKey {
    pem: String,
    key: jsonwebtoken::EncodingKey,
}

impl View for SigningKey {
    type V = Seq<char>;

    closed spec fn view(&self) -> Seq<char> {
        self.pem@
    }
}

impl SigningKey {
    /// Calls `jsonwebtoken::EncodingKey::from_rsa_pem`, which fails on what is not the PEM of an
    /// RSA key; [`is_rsa_pem`] names when.
    #[verifier::external_body]
    pub(crate) fn from_rsa_pem(pem: String) -> (key: Result<
        SigningKey,
        jsonwebtoken::errors::Error,
    >)
        ensures
            key is Ok <==> is_rsa_pem(pem@),
            key matches Ok(k) ==> k@ == pem@,
    {
        let key = jsonwebtoken::EncodingKey::from_rsa_pem(pem.as_bytes())?;
        Ok(SigningKey { pem, key })
    }
}

/// Calls `jsonwebtoken::encode` with the default header for `algorithm`. The token names the
/// algorithm and no key, and its payload reads as the claims that were put into it. For a sound
/// key one signature is possible; the signer does not test the factors of the key for primality,
/// and signs with a random mask that only primes cancel, so that what comes of an unsound key may
/// depend on chance. [`signing_outcomes`] therefore names what may come of it; which outcome does
/// is left unsaid. A key that cannot sign is an error.
#[verifier::external_body]
pub(crate) fn encode(
    algorithm: &str,
    claims: Vec<(String, ClaimValue)>,
    key: &SigningKey,
) -> (token: Result<String, jsonwebtoken::errors::Error>)
    ensures
        match token {
            Ok(t) => {
                &&& signing_outcomes(algorithm@, claim_list(claims@), key@).contains(Some(t@))
                &&& token_header(t@) == Some(
                    TokenHeaderModel { algorithm: algorithm@, kid: None },
                )
                &&& token_payload(t@) == Some(carried_claims(claim_list(claims@)))
            },
            Err(_) => signing_outcomes(algorithm@, claim_list(claims@), key@).contains(None),
        },
{
    let algorithm = jsonwebtoken::Algorithm::from_str(algorithm)?;
    let header = jsonwebtoken::Header::new(algorithm);
    let claims = claims.into_iter().map(|(name, value)| (name, match value {
        ClaimValue::Number(n) => Value::from(n),
        ClaimValue::String(s) => Value::from(s),
    }));
    jsonwebtoken::encode(&header, &claims.collect::<serde_json::Map<String, Value>>(), &key.key)
}

/// The key at `i` has the id, and none before it has.
pub open spec fn is_first_with_kid(keys: Seq<Jwk>, kid: Seq<char>, i: int) -> bool {
    &&& 0 <= i < keys.len()
    &&& keys[i].kid matches Some(own) && own@ == kid
    &&& forall|j: int|
        0 <= j < i ==> ((#[trigger] keys[j]).kid matches Some(other) ==> other@ != kid)
}

/// The search for a key is by its id alone and goes through the whole set: it finds the first key
/// of that id, and none only where no key has it.
pub proof fn keys_are_found_by_their_id(set: &JwkSet, kid: &str, found: Option<&Jwk>)
    requires
        call_ensures(JwkSet::find, (set, kid), found),
    ensures
        found is None <==> forall|i: int|
            0 <= i < set.keys@.len() ==> ((#[trigger] set.keys@[i]).kid matches Some(own) ==> own@
                != kid@),
        found matches Some(key) ==> exists|i: int|
            {
                &&& 0 <= i < set.keys@.len()
                &&& *key == #[trigger] set.keys@[i]
                &&& set.keys@[i].kid matches Some(own)
                &&& own@ == kid@
                &&& forall|j: int|
                    0 <= j < i ==> ((#[trigger] set.keys@[j]).kid matches Some(other) ==> other@
                        != kid@)
            },
{
    lemma_find_key(set.keys@, kid@);
    if let Some(key) = found {
        let i = choose|i: int| #[trigger]
            is_first_with_kid(set.keys@, kid@, i) && *key == set.keys@[i];
        assert(*key == set.keys@[i]);
    }
}

/// The key that is found is the first of its id, and one is found where there is one.
pub proof fn lemma_find_key(keys: Seq<Jwk>, kid: Seq<char>)
    ensures
        match find_key(keys, kid) {
            Some(key) => exists|i: int| #[trigger]
                is_first_with_kid(keys, kid, i) && key == keys[i],
            None => forall|i: int|
                0 <= i < keys.len() ==> ((#[trigger] keys[i]).kid matches Some(own) ==> own@
                    != kid),
        },
    decreases keys.len(),
{
    if keys.len() > 0 {
        if keys[0].has_kid(kid) {
            assert(is_first_with_kid(keys, kid, 0));
        } else {
            let rest = keys.drop_first();
            lemma_find_key(rest, kid);
            assert forall|i: int| 0 < i < keys.len() implies #[trigger] keys[i] == rest[i - 1] by {}
            if let Some(key) = find_key(rest, kid) {
                let i = choose|i: int| #[trigger]
                    is_first_with_kid(rest, kid, i) && key == rest[i];
                assert(is_first_with_kid(keys, kid, i + 1)) by {
                    assert forall|j: int| 0 <= j < i + 1 implies ((
                    #[trigger] keys[j]).kid matches Some(other) ==> other@ != kid) by {
                        if j > 0 {
                            assert(keys[j] == rest[j - 1]);
                        }
                    }
                }
            } else {
                assert forall|i: int| 0 <= i < keys.len() implies ((
                #[trigger] keys[i]).kid matches Some(own) ==> own@ != kid) by {
                    if i > 0 {
                        assert(keys[i] == rest[i - 1]);
                    }
                }
            }
        }
    }
}

/// Each signature algorithm goes by its registered name, and no other goes by that.
pub proof fn algorithms_go_by_their_registered_names(algorithm: Algorithm, name: &'static str)
    requires
        call_ensures(Algorithm::name, (&algorithm,), name),
    ensures
        name@ == "HS256"@ <==> algorithm == Algorithm::HS256,
        name@ == "HS384"@ <==> algorithm == Algorithm::HS384,
        name@ == "HS512"@ <==> algorithm == Algorithm::HS512,
        name@ == "ES256"@ <==> algorithm == Algorithm::ES256,
        name@ == "ES384"@ <==> algorithm == Algorithm::ES384,
        name@ == "RS256"@ <==> algorithm == Algorithm::RS256,
        name@ == "RS384"@ <==> algorithm == Algorithm::RS384,
        name@ == "RS512"@ <==> algorithm == Algorithm::RS512,
        name@ == "PS256"@ <==> algorithm == Algorithm::PS256,
        name@ == "PS384"@ <==> algorithm == Algorithm::PS384,
        name@ == "PS512"@ <==> algorithm == Algorithm::PS512,
        name@ == "EdDSA"@ <==> algorithm == Algorithm::EdDSA,
{
    reveal_algorithm_names();
    assert(name@[0] == name@[0] && name@[2] == name@[2]);
}

/// What the names of the signature algorithms hold.
proof fn reveal_algorithm_names()
    ensures
        "HS256"@ == seq!['H', 'S', '2', '5', '6'],
        "HS384"@ == seq!['H', 'S', '3', '8', '4'],
        "HS512"@ == seq!['H', 'S', '5', '1', '2'],
        "ES256"@ == seq!['E', 'S', '2', '5', '6'],
        "ES384"@ == seq!['E', 'S', '3', '8', '4'],
        "RS256"@ == seq!['R', 'S', '2', '5', '6'],
        "RS384"@ == seq!['R', 'S', '3', '8', '4'],
        "RS512"@ == seq!['R', 'S', '5', '1', '2'],
        "PS256"@ == seq!['P', 'S', '2', '5', '6'],
        "PS384"@ == seq!['P', 'S', '3', '8', '4'],
        "PS512"@ == seq!['P', 'S', '5', '1', '2'],
        "EdDSA"@ == seq!['E', 'd', 'D', 'S', 'A'],
{
    reveal_strlit("HS256");
    assert("HS256"@ =~= seq!['H', 'S', '2', '5', '6']);
    reveal_strlit("HS384");
    assert("HS384"@ =~= seq!['H', 'S', '3', '8', '4']);
    reveal_strlit("HS512");
    assert("HS512"@ =~= seq!['H', 'S', '5', '1', '2']);
    reveal_strlit("ES256");
    assert("ES256"@ =~= seq!['E', 'S', '2', '5', '6']);
    reveal_strlit("ES384");
    assert("ES384"@ =~= seq!['E', 'S', '3', '8', '4']);
    reveal_strlit("RS256");
    assert("RS256"@ =~= seq!['R', 'S', '2', '5', '6']);
    reveal_strlit("RS384");
    assert("RS384"@ =~= seq!['R', 'S', '3', '8', '4']);
    reveal_strlit("RS512");
    assert("RS512"@ =~= seq!['R', 'S', '5', '1', '2']);
    reveal_strlit("PS256");
    assert("PS256"@ =~= seq!['P', 'S', '2', '5', '6']);
    reveal_strlit("PS384");
    assert("PS384"@ =~= seq!['P', 'S', '3', '8', '4']);
    reveal_strlit("PS512");
    assert("PS512"@ =~= seq!['P', 'S', '5', '1', '2']);
    reveal_strlit("EdDSA");
    assert("EdDSA"@ =~= seq!['E', 'd', 'D', 'S', 'A']);
}

/// An algorithm is found by its own name and by no other text.
pub proof fn algorithms_are_found_by_their_name(
    text: &str,
    found: Option<Algorithm>,
    algorithm: Algorithm,
    name: &'static str,
)
    requires
        call_ensures(Algorithm::from_name, (text,), found),
        call_ensures(Algorithm::name, (&algorithm,), name),
    ensures
        found == Some(algorithm) <==> text@ == name@,
{
    if found is Some && text@ == name@ {
        algorithm_names_are_distinct(found->Some_0, algorithm);
    }
}

/// What a key says it is for is called by the same names.
pub proof fn key_algorithms_go_by_their_registered_names(
    algorithm: KeyAlgorithm,
    name: &'static str,
)
    requires
        call_ensures(KeyAlgorithm::name, (&algorithm,), name),
    ensures
        algorithm == KeyAlgorithm::HS256 ==> name@ == "HS256"@,
        algorithm == KeyAlgorithm::HS384 ==> name@ == "HS384"@,
        algorithm == KeyAlgorithm::HS512 ==> name@ == "HS512"@,
        algorithm == KeyAlgorithm::ES256 ==> name@ == "ES256"@,
        algorithm == KeyAlgorithm::ES384 ==> name@ == "ES384"@,
        algorithm == KeyAlgorithm::RS256 ==> name@ == "RS256"@,
        algorithm == KeyAlgorithm::RS384 ==> name@ == "RS384"@,
        algorithm == KeyAlgorithm::RS512 ==> name@ == "RS512"@,
        algorithm == KeyAlgorithm::PS256 ==> name@ == "PS256"@,
        algorithm == KeyAlgorithm::PS384 ==> name@ == "PS384"@,
        algorithm == KeyAlgorithm::PS512 ==> name@ == "PS512"@,
        algorithm == KeyAlgorithm::EdDSA ==> name@ == "EdDSA"@,
        algorithm == KeyAlgorithm::RSA1_5 ==> name@ == "RSA1_5"@,
        algorithm == KeyAlgorithm::RSA_OAEP ==> name@ == "RSA_OAEP"@,
        algorithm == KeyAlgorithm::RSA_OAEP_256 ==> name@ == "RSA_OAEP_256"@,
        algorithm == KeyAlgorithm::UNKNOWN_ALGORITHM ==> name@ == "UNKNOWN_ALGORITHM"@,
{
}

} // verus!
