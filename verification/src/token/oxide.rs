//! Oxide tokens, issued by a silo through the device authorization flow.

use crate::endpoints::Token;
use crate::settings::Settings;
use crate::string_map::StringMap;
use crate::text::{decimal, is_decimal_of, join3, lemma_decimal, to_decimal};
use crate::util::{canonical_url, ByteStreamError, Url};
use vstd::prelude::*;

verus! {

/// The id of this service in the device authorization flow.
pub const CLIENT_ID: &'static str = "730ae5f1-a728-4a5d-9a06-cf09b653cca6";

/// The grant that a device code is turned into a token by.
pub const GRANT_TYPE: &'static str = "urn:ietf:params:oauth:grant-type:device_code";

/// Why a silo refuses to start the device authorization flow.
#[derive(Debug)]
pub struct DeviceAccessTokenError {
    pub description: String,
}

/// What a silo gives out at the start of the device authorization flow.
#[derive(Debug)]
pub struct DeviceAuthorizationResponse {
    pub device_code: String,
    pub user_code: String,
}

/// What a silo gives out at the end of the device authorization flow.
#[derive(Debug)]
pub struct DeviceAccessTokenGrant {
    pub access_token: String,
}

/// Why an Oxide token is not issued.
#[derive(Debug)]
pub enum OxideError {
    ByteStream(ByteStreamError),
    DeviceAuthRequest(DeviceAccessTokenError),
    ResolveParam(String),
    SiloNotConfigured(String),
    InvalidSiloUrl(String, String),
    AuthFailed(String, String),
    Oxide(String),
    OxideByteError(String),
    NotConfigured,
    NoExpirationDisallowed,
    TooLongExpiration(u32),
}

impl OxideError {
    /// The error tells of nothing but the request.
    pub open spec fn is_safe(self) -> bool {
        match self {
            OxideError::SiloNotConfigured(_) => true,
            OxideError::NotConfigured => true,
            OxideError::NoExpirationDisallowed => true,
            OxideError::TooLongExpiration(_) => true,
            _ => false,
        }
    }

    /// Whether the error may be told to whoever asked for the token.
    pub fn safe_to_expose(&self) -> (safe: bool)
        ensures
            safe == self.is_safe(),
    {
        match self {
            OxideError::ByteStream(_) => false,
            OxideError::DeviceAuthRequest(_) => false,
            OxideError::AuthFailed(_, _) => false,
            OxideError::Oxide(_) => false,
            OxideError::OxideByteError(_) => false,
            OxideError::ResolveParam(_) => false,
            OxideError::InvalidSiloUrl(_, _) => false,
            OxideError::SiloNotConfigured(_) => true,
            OxideError::NotConfigured => true,
            OxideError::NoExpirationDisallowed => true,
            OxideError::TooLongExpiration(_) => true,
        }
    }

    /// What went wrong, in words.
    pub open spec fn spec_message(self) -> Seq<char> {
        match self {
            OxideError::ByteStream(_) => "Error reading response"@,
            OxideError::DeviceAuthRequest(_) => "Failed to issue device access token request"@,
            OxideError::ResolveParam(_) =>
                "Failed to resolve the silo manifest or a silo credential"@,
            OxideError::SiloNotConfigured(silo) => "The silo "@ + silo@
                + " is not configured in this instance of oidcx"@,
            OxideError::InvalidSiloUrl(url, fault) => "The configured silo url "@ + url@
                + " is not a valid url: "@ + fault@,
            OxideError::AuthFailed(silo, _) => "Failed to authenticate with silo "@ + silo@,
            OxideError::Oxide(_) => "Remote service error"@,
            OxideError::OxideByteError(_) => "Remote service error"@,
            OxideError::NotConfigured => "The Oxide token provider is not configured"@,
            OxideError::NoExpirationDisallowed => "Tokens with no expiration are not allowed"@,
            OxideError::TooLongExpiration(max) =>
                "The duration of this token is more than the maximum of "@ + decimal(max as nat)
                + " seconds"@,
        }
    }

    /// What went wrong, in words.
    pub fn message(&self) -> (text: String)
        ensures
            text@ == self.spec_message(),
    {
        match self {
            OxideError::ByteStream(_) => "Error reading response".to_owned(),
            OxideError::DeviceAuthRequest(_) =>
                "Failed to issue device access token request".to_owned(),
            OxideError::ResolveParam(_) =>
                "Failed to resolve the silo manifest or a silo credential".to_owned(),
            OxideError::SiloNotConfigured(silo) => join3(
                "The silo ",
                silo.as_str(),
                " is not configured in this instance of oidcx",
            ),
            OxideError::InvalidSiloUrl(url, fault) => {
                let mut message = join3(
                    "The configured silo url ",
                    url.as_str(),
                    " is not a valid url: ",
                );
                message.append(fault.as_str());
                message
            },
            OxideError::AuthFailed(silo, _) => {
                let mut message = "Failed to authenticate with silo ".to_owned();
                message.append(silo.as_str());
                message
            },
            OxideError::Oxide(_) => "Remote service error".to_owned(),
            OxideError::OxideByteError(_) => "Remote service error".to_owned(),
            OxideError::NotConfigured => "The Oxide token provider is not configured".to_owned(),
            OxideError::NoExpirationDisallowed =>
                "Tokens with no expiration are not allowed".to_owned(),
            OxideError::TooLongExpiration(max) => join3(
                "The duration of this token is more than the maximum of ",
                to_decimal(*max as u64).as_str(),
                " seconds",
            ),
        }
    }
}

/// What an Oxide token is asked for: a silo, and a lifetime in seconds. A lifetime of zero stands
/// for a token that never expires.
#[derive(Debug)]
pub struct OxideTokenRequest {
    pub silo: Url,
    pub duration: u32,
}

/// A lifetime is within what is allowed.
pub open spec fn is_allowed_duration(duration: u32, without_expiry: bool, max: u32) -> bool {
    &&& duration == 0 ==> without_expiry
    &&& duration <= max
}

/// Checks a lifetime against what is allowed. That tokens without expiry are allowed has no effect
/// on a lifetime above the maximum.
pub fn validate_duration(
    duration: u32,
    allow_tokens_without_expiry: bool,
    max_duration: u32,
) -> (valid: Result<(), OxideError>)
    ensures
        valid is Ok <==> is_allowed_duration(duration, allow_tokens_without_expiry, max_duration),
        valid matches Err(error) ==> error == if duration == 0 && !allow_tokens_without_expiry {
            OxideError::NoExpirationDisallowed
        } else {
            OxideError::TooLongExpiration(max_duration)
        },
{
    if duration == 0 && !allow_tokens_without_expiry {
        return Err(OxideError::NoExpirationDisallowed);
    }
    if duration > max_duration {
        return Err(OxideError::TooLongExpiration(max_duration));
    }
    Ok(())
}

/// A silo that tokens can be issued by, and the credential to ask it with.
#[derive(Debug)]
pub struct Silo {
    pub url: Url,
    pub credential: String,
}

/// An entry of the manifest of silos can be used.
pub open spec fn is_usable(entry: (String, Result<String, String>)) -> bool {
    entry.1 is Ok && canonical_url(entry.0@) is Ok
}

/// The silo is the one of the entry, under the canonical form of its URL.
pub open spec fn is_silo_of(silo: Silo, entry: (String, Result<String, String>)) -> bool {
    &&& entry.1 matches Ok(credential)
    &&& silo.credential@ == credential@
    &&& canonical_url(entry.0@) == Ok::<Seq<char>, Seq<char>>(silo.url@)
}

/// The error tells why an entry cannot be used: its credential cannot be read, or else its URL is
/// none.
pub open spec fn is_entry_fault(
    error: OxideError,
    entry: (String, Result<String, String>),
) -> bool {
    match entry.1 {
        Err(fault) => error matches OxideError::ResolveParam(f) && f@ == fault@,
        Ok(_) => match canonical_url(entry.0@) {
            Err(fault) => error matches OxideError::InvalidSiloUrl(url, f) && url@ == entry.0@
                && f@ == fault,
            Ok(_) => false,
        },
    }
}

/// The silos of a manifest.
fn read_manifest(manifest: &Vec<(String, Result<String, String>)>) -> (silos: Result<
    Vec<Silo>,
    OxideError,
>)
    ensures
        match silos {
            Ok(s) => {
                &&& s@.len() == manifest@.len()
                &&& forall|i: int| 0 <= i < s@.len() ==> is_silo_of(#[trigger] s@[i], manifest@[i])
            },
            Err(error) => exists|i: int|
                {
                    &&& 0 <= i < manifest@.len()
                    &&& is_entry_fault(error, #[trigger] manifest@[i])
                    &&& forall|j: int| 0 <= j < i ==> is_usable(#[trigger] manifest@[j])
                },
        },
{
    let mut silos: Vec<Silo> = Vec::new();
    let mut i: usize = 0;
    while i < manifest.len()
        invariant
            i <= manifest@.len(),
            silos@.len() == i,
            forall|j: int| 0 <= j < i ==> is_silo_of(#[trigger] silos@[j], manifest@[j]),
            forall|j: int| 0 <= j < i ==> is_usable(#[trigger] manifest@[j]),
        decreases manifest@.len() - i,
    {
        let credential = match &manifest[i].1 {
            Ok(credential) => credential.as_str().to_owned(),
            Err(fault) => {
                let error = OxideError::ResolveParam(fault.as_str().to_owned());
                assert(is_entry_fault(error, manifest@[i as int]));
                return Err(error);
            },
        };
        let url = match Url::parse(manifest[i].0.as_str()) {
            Ok(url) => url,
            Err(fault) => {
                let error = OxideError::InvalidSiloUrl(manifest[i].0.as_str().to_owned(), fault);
                assert(is_entry_fault(error, manifest@[i as int]));
                return Err(error);
            },
        };
        silos.push(Silo { url, credential });
        i = i + 1;
    }
    Ok(silos)
}

/// The silos that the settings name, each under the canonical form of its URL. That form is also
/// the one that a request's silo has, so the two agree whatever the case of the host, a default
/// port or a trailing slash.
pub fn configured_silos(settings: &Settings) -> (silos: Result<Vec<Silo>, OxideError>)
    ensures
        match settings.oxide {
            None => silos matches Ok(s) && s@.len() == 0,
            Some(oxide) => match oxide.silos {
                Err(fault) => silos matches Err(OxideError::ResolveParam(f)) && f@ == fault@,
                Ok(manifest) => match silos {
                    Ok(s) => {
                        &&& s@.len() == manifest@.len()
                        &&& forall|i: int|
                            0 <= i < s@.len() ==> is_silo_of(#[trigger] s@[i], manifest@[i])
                    },
                    Err(error) => exists|i: int|
                        {
                            &&& 0 <= i < manifest@.len()
                            &&& is_entry_fault(error, #[trigger] manifest@[i])
                            &&& forall|j: int| 0 <= j < i ==> is_usable(#[trigger] manifest@[j])
                        },
                },
            },
        },
{
    match &settings.oxide {
        Some(oxide) => match &oxide.silos {
            Ok(manifest) => read_manifest(manifest),
            Err(fault) => Err(OxideError::ResolveParam(fault.as_str().to_owned())),
        },
        None => Ok(Vec::new()),
    }
}

/// The clients of silos by the silo's URL; of two under one URL the later counts.
pub open spec fn silo_clients<C>(clients: Seq<(Url, Result<C, String>)>) -> Map<Seq<char>, C>
    decreases clients.len(),
{
    if clients.len() == 0 {
        Map::empty()
    } else {
        match clients.last().1 {
            Ok(client) => silo_clients(clients.drop_last()).insert(clients.last().0@, client),
            Err(_) => silo_clients(clients.drop_last()),
        }
    }
}

/// What Oxide tokens are issued with.
struct OxideState<C> {
    clients: StringMap<C>,
    allow_tokens_without_expiry: bool,
    max_duration: u32,
}

/// What Oxide tokens are issued with.
pub struct OxideModel<C> {
    pub clients: Map<Seq<char>, C>,
    pub allow_tokens_without_expiry: bool,
    pub max_duration: u32,
}

/// Issues Oxide tokens, if that is configured, with a client of type `C` for each silo.
pub struct OxideTokens<C> {
    state: Option<OxideState<C>>,
}

impl<C> View for OxideTokens<C> {
    type V = Option<OxideModel<C>>;

    closed spec fn view(&self) -> Option<OxideModel<C>> {
        match self.state {
            Some(state) => Some(
                OxideModel {
                    clients: state.clients@,
                    allow_tokens_without_expiry: state.allow_tokens_without_expiry,
                    max_duration: state.max_duration,
                },
            ),
            None => None,
        }
    }
}

impl<C> OxideTokens<C> {
    /// The tokens are what the settings and the clients make them, or the error tells of the first
    /// client that could not be made.
    pub open spec fn is_made_of(
        settings: Settings,
        clients: Seq<(Url, Result<C, String>)>,
        tokens: Result<Self, OxideError>,
    ) -> bool {
        match settings.oxide {
            None => tokens matches Ok(t) && t@ is None,
            Some(oxide) => match tokens {
                Ok(t) => {
                    &&& forall|i: int| 0 <= i < clients.len() ==> (#[trigger] clients[i]).1 is Ok
                    &&& t@ == Some(
                        OxideModel {
                            clients: silo_clients(clients),
                            allow_tokens_without_expiry: oxide.allow_tokens_without_expiry,
                            max_duration: oxide.max_duration,
                        },
                    )
                },
                Err(error) => exists|i: int|
                    {
                        &&& 0 <= i < clients.len()
                        &&& (#[trigger] clients[i]).1 matches Err(fault)
                        &&& error matches OxideError::AuthFailed(silo, f)
                        &&& silo@ == clients[i].0@
                        &&& f == fault
                        &&& forall|j: int| 0 <= j < i ==> (#[trigger] clients[j]).1 is Ok
                    },
            },
        }
    }

    /// Takes the limits out of the settings, and the clients that were made for the
    /// [`configured_silos`].
    pub fn new(settings: &Settings, clients: Vec<(Url, Result<C, String>)>) -> (tokens: Result<
        Self,
        OxideError,
    >)
        ensures
            Self::is_made_of(*settings, clients@, tokens),
    {
        let oxide = match &settings.oxide {
            Some(oxide) => oxide,
            None => {
                return Ok(OxideTokens { state: None });
            },
        };
        let ghost all = clients@;
        let mut by_silo: StringMap<C> = StringMap::new();
        assert(all.take(0) =~= Seq::empty());
        for entry in iter: clients.into_iter()
            invariant
                iter.seq() == all,
                settings.oxide is Some,
                clients@ == all,
                by_silo@ == silo_clients(all.take(iter.index())),
                forall|j: int| 0 <= j < iter.index() ==> (#[trigger] all[j]).1 is Ok,
        {
            assert(all.take(iter.index() + 1).drop_last() =~= all.take(iter.index()));
            assert(all[iter.index()] == entry);
            match entry.1 {
                Ok(client) => {
                    by_silo.insert(entry.0.as_str().to_owned(), client);
                },
                Err(fault) => {
                    let error = OxideError::AuthFailed(entry.0.as_str().to_owned(), fault);
                    return Err(error);
                },
            }
        }
        assert(all.take(all.len() as int) =~= all);
        Ok(
            OxideTokens {
                state: Some(
                    OxideState {
                        clients: by_silo,
                        allow_tokens_without_expiry: oxide.allow_tokens_without_expiry,
                        max_duration: oxide.max_duration,
                    },
                ),
            },
        )
    }

    /// The device authorization flow starts with the client of the silo, or the error tells why it
    /// does not.
    pub open spec fn starts<'a>(
        self,
        request: OxideTokenRequest,
        started: Result<DeviceAuthRequest<'a, C>, OxideError>,
    ) -> bool {
        match self@ {
            None => started matches Err(OxideError::NotConfigured),
            Some(state) => if !is_allowed_duration(
                request.duration,
                state.allow_tokens_without_expiry,
                state.max_duration,
            ) {
                started matches Err(error) && error == if request.duration == 0
                    && !state.allow_tokens_without_expiry {
                    OxideError::NoExpirationDisallowed
                } else {
                    OxideError::TooLongExpiration(state.max_duration)
                }
            } else if !state.clients.contains_key(request.silo@) {
                started matches Err(OxideError::SiloNotConfigured(silo)) && silo@ == request.silo@
            } else {
                started matches Ok(s) && s.spec_client() == state.clients[request.silo@]
                    && s.spec_ttl() == token_ttl(request.duration)
            },
        }
    }

    /// Asks for a token. First the device authorization flow is started with the silo.
    pub fn get(&self, request: &OxideTokenRequest) -> (started: Result<
        DeviceAuthRequest<'_, C>,
        OxideError,
    >)
        ensures
            self.starts(*request, started),
    {
        let state = match &self.state {
            Some(state) => state,
            None => {
                return Err(OxideError::NotConfigured);
            },
        };
        match validate_duration(
            request.duration,
            state.allow_tokens_without_expiry,
            state.max_duration,
        ) {
            Ok(_) => {},
            Err(error) => {
                return Err(error);
            },
        }
        match state.clients.get(request.silo.as_str()) {
            Some(client) => {
                let ttl = if request.duration == 0 {
                    None
                } else {
                    Some(request.duration)
                };
                Ok(DeviceAuthRequest { client, ttl })
            },
            None => Err(OxideError::SiloNotConfigured(request.silo.as_str().to_owned())),
        }
    }
}

/// The client that was made for an entry of the manifest is the one that serves a request whose
/// URL has the same canonical form, unless a later entry has that form too.
pub proof fn canonical_form_finds_the_client<C>(
    clients: Seq<(Url, Result<C, String>)>,
    manifest_url: Seq<char>,
    request_url: Seq<char>,
    i: int,
)
    requires
        0 <= i < clients.len(),
        clients[i].1 is Ok,
        canonical_url(manifest_url) == Ok::<Seq<char>, Seq<char>>(clients[i].0@),
        canonical_url(request_url) == canonical_url(manifest_url),
        forall|j: int| i < j < clients.len() ==> (#[trigger] clients[j]).0@ != clients[i].0@,
    ensures
        ({
            let silo = canonical_url(request_url)->Ok_0;
            &&& silo_clients(clients).contains_key(silo)
            &&& silo_clients(clients)[silo] == clients[i].1->Ok_0
        }),
    decreases clients.len(),
{
    if i < clients.len() - 1 {
        let init = clients.drop_last();
        assert forall|j: int| i < j < init.len() implies (#[trigger] init[j]).0@ != init[i].0@ by {
            assert(init[j] == clients[j]);
        }
        assert(clients[clients.len() - 1].0@ != clients[i].0@);
        canonical_form_finds_the_client(init, manifest_url, request_url, i);
    }
}

/// The lifetime that a silo is asked for: none for a token that never expires.
pub open spec fn token_ttl(duration: u32) -> Option<u32> {
    if duration == 0 {
        None
    } else {
        Some(duration)
    }
}

/// The lifetime that a silo is asked for is never above the maximum, and is left out only where
/// tokens without expiry are allowed.
pub proof fn lifetime_is_limited(duration: u32, without_expiry: bool, max: u32)
    requires
        is_allowed_duration(duration, without_expiry, max),
    ensures
        match token_ttl(duration) {
            Some(ttl) => 0 < ttl <= max,
            None => without_expiry,
        },
{
}

/// What a silo answered at the start of the device authorization flow.
#[derive(Debug)]
pub enum DeviceAuthReply {
    /// It agreed; its answer could be read or not.
    Accepted(Result<DeviceAuthorizationResponse, ByteStreamError>),
    /// It refused; its explanation could be read or not.
    Refused(Result<DeviceAccessTokenError, ByteStreamError>),
    /// There was no proper answer.
    Failed(String),
}

/// The start of the device authorization flow.
pub struct DeviceAuthRequest<'a, C> {
    client: &'a C,
    ttl: Option<u32>,
}

impl<'a, C> DeviceAuthRequest<'a, C> {
    /// The client of the silo.
    pub closed spec fn spec_client(self) -> C {
        *self.client
    }

    /// The lifetime of the token in seconds, or none if it never expires.
    pub closed spec fn spec_ttl(self) -> Option<u32> {
        self.ttl
    }

    /// The client of the silo.
    pub fn client(&self) -> (client: &'a C)
        ensures
            *client == self.spec_client(),
    {
        self.client
    }

    /// The lifetime of the token in seconds, or none if it never expires.
    pub fn ttl_seconds(&self) -> (ttl: Option<u32>)
        ensures
            ttl == self.spec_ttl(),
    {
        self.ttl
    }

    /// Goes on after the silo's answer.
    pub fn answer(self, reply: DeviceAuthReply) -> (step: Result<Confirmation<'a, C>, OxideError>)
        ensures
            match reply {
                DeviceAuthReply::Accepted(Ok(response)) => step matches Ok(s) && {
                    &&& s.spec_client() == self.spec_client()
                    &&& s.spec_user_code() == response.user_code@
                    &&& s.spec_device_code() == response.device_code@
                },
                DeviceAuthReply::Accepted(Err(fault)) => step matches Err(OxideError::ByteStream(f))
                    && f == fault,
                DeviceAuthReply::Refused(Ok(error)) => step matches Err(
                    OxideError::DeviceAuthRequest(e),
                ) && e == error,
                DeviceAuthReply::Refused(Err(fault)) => step matches Err(OxideError::ByteStream(f))
                    && f == fault,
                DeviceAuthReply::Failed(fault) => step matches Err(OxideError::OxideByteError(f))
                    && f == fault,
            },
    {
        match reply {
            DeviceAuthReply::Accepted(read) => match read {
                Ok(response) => Ok(
                    Confirmation {
                        client: self.client,
                        user_code: response.user_code,
                        device_code: response.device_code,
                    },
                ),
                Err(fault) => Err(OxideError::ByteStream(fault)),
            },
            DeviceAuthReply::Refused(read) => match read {
                Ok(error) => Err(OxideError::DeviceAuthRequest(error)),
                Err(fault) => Err(OxideError::ByteStream(fault)),
            },
            DeviceAuthReply::Failed(fault) => Err(OxideError::OxideByteError(fault)),
        }
    }
}

/// The confirmation of the user code, which this service gives itself.
pub struct Confirmation<'a, C> {
    client: &'a C,
    user_code: String,
    device_code: String,
}

impl<'a, C> Confirmation<'a, C> {
    /// The client of the silo.
    pub closed spec fn spec_client(self) -> C {
        *self.client
    }

    /// The code to confirm.
    pub closed spec fn spec_user_code(self) -> Seq<char> {
        self.user_code@
    }

    /// The code that the token is fetched with.
    pub closed spec fn spec_device_code(self) -> Seq<char> {
        self.device_code@
    }

    /// The client of the silo.
    pub fn client(&self) -> (client: &'a C)
        ensures
            *client == self.spec_client(),
    {
        self.client
    }

    /// The code to confirm.
    pub fn user_code(&self) -> (code: &str)
        ensures
            code@ == self.spec_user_code(),
    {
        self.user_code.as_str()
    }

    /// Goes on after the silo's answer.
    pub fn answer(self, reply: Result<(), String>) -> (step: Result<
        AccessTokenQuery<'a, C>,
        OxideError,
    >)
        ensures
            match reply {
                Ok(_) => step matches Ok(s) && {
                    &&& s.spec_client() == self.spec_client()
                    &&& s.spec_device_code() == self.spec_device_code()
                },
                Err(fault) => step matches Err(OxideError::Oxide(f)) && f == fault,
            },
    {
        match reply {
            Ok(_) => Ok(AccessTokenQuery { client: self.client, device_code: self.device_code }),
            Err(fault) => Err(OxideError::Oxide(fault)),
        }
    }
}

/// The request that ends the device authorization flow.
pub struct AccessTokenQuery<'a, C> {
    client: &'a C,
    device_code: String,
}

impl<'a, C> AccessTokenQuery<'a, C> {
    /// The client of the silo.
    pub closed spec fn spec_client(self) -> C {
        *self.client
    }

    /// The code that the token is fetched with.
    pub closed spec fn spec_device_code(self) -> Seq<char> {
        self.device_code@
    }

    /// The client of the silo.
    pub fn client(&self) -> (client: &'a C)
        ensures
            *client == self.spec_client(),
    {
        self.client
    }

    /// The code that the token is fetched with.
    pub fn device_code(&self) -> (code: &str)
        ensures
            code@ == self.spec_device_code(),
    {
        self.device_code.as_str()
    }

    /// Ends after the silo's answer, which could be read or not: the token that it gave out is the
    /// one issued.
    pub fn answer(
        self,
        reply: Result<Result<DeviceAccessTokenGrant, ByteStreamError>, String>,
    ) -> (token: Result<Token, OxideError>)
        ensures
            match reply {
                Ok(Ok(grant)) => token matches Ok(t) && t.access_token == grant.access_token,
                Ok(Err(fault)) => token matches Err(OxideError::ByteStream(f)) && f == fault,
                Err(fault) => token matches Err(OxideError::OxideByteError(f)) && f == fault,
            },
    {
        match reply {
            Ok(read) => match read {
                Ok(grant) => Ok(Token { access_token: grant.access_token }),
                Err(fault) => Err(OxideError::ByteStream(fault)),
            },
            Err(fault) => Err(OxideError::OxideByteError(fault)),
        }
    }
}

/// The lifetime that a silo is asked for is the requested one, to the second. It is left out for a
/// lifetime of zero, and only then.
pub proof fn lifetimes_are_the_requested<'a, C>(
    tokens: &'a OxideTokens<C>,
    request: &OxideTokenRequest,
    started: DeviceAuthRequest<'a, C>,
    ttl: Option<u32>,
)
    requires
        call_ensures(
            OxideTokens::<C>::get,
            (tokens, request),
            Ok::<DeviceAuthRequest<'a, C>, OxideError>(started),
        ),
        call_ensures(DeviceAuthRequest::<'a, C>::ttl_seconds, (&started,), ttl),
    ensures
        request.duration > 0 ==> ttl == Some(request.duration),
        request.duration == 0 ==> ttl is None,
{
}

/// A lifetime is allowed up to the maximum, and zero only where tokens may never expire.
pub proof fn lifetimes_are_allowed_up_to_the_maximum(
    duration: u32,
    without_expiry: bool,
    max: u32,
    valid: Result<(), OxideError>,
)
    requires
        call_ensures(validate_duration, (duration, without_expiry, max), valid),
    ensures
        0 < duration <= max ==> valid is Ok,
        duration == 0 && without_expiry ==> valid is Ok,
        duration == 0 && !without_expiry ==> valid matches Err(OxideError::NoExpirationDisallowed),
        duration > max ==> (valid matches Err(OxideError::TooLongExpiration(own)) && own == max),
{
}

/// Which clients there are under a URL.
proof fn lemma_silo_clients<C>(clients: Seq<(Url, Result<C, String>)>, silo: Seq<char>)
    requires
        forall|i: int| 0 <= i < clients.len() ==> (#[trigger] clients[i]).1 is Ok,
    ensures
        silo_clients(clients).contains_key(silo) <==> exists|i: int|
            0 <= i < clients.len() && (#[trigger] clients[i]).0@ == silo,
        silo_clients(clients).contains_key(silo) ==> exists|i: int|
            {
                &&& 0 <= i < clients.len()
                &&& (#[trigger] clients[i]).0@ == silo
                &&& clients[i].1 == Ok::<C, String>(silo_clients(clients)[silo])
                &&& forall|j: int| i < j < clients.len() ==> (#[trigger] clients[j]).0@ != silo
            },
    decreases clients.len(),
{
    if clients.len() > 0 {
        let init = clients.drop_last();
        let last = clients.len() - 1;
        assert forall|i: int| 0 <= i < init.len() implies (#[trigger] init[i]).1 is Ok by {
            assert(clients[i].1 is Ok);
        }
        lemma_silo_clients(init, silo);
        assert(clients[last].1 is Ok);
        assert forall|i: int| 0 <= i < init.len() implies #[trigger] init[i] == clients[i] by {}
        if clients[last].0@ == silo {
            assert(clients[last].1 == Ok::<C, String>(silo_clients(clients)[silo]));
        } else {
            if exists|i: int| 0 <= i < clients.len() && (#[trigger] clients[i]).0@ == silo {
                let i = choose|i: int| 0 <= i < clients.len() && (#[trigger] clients[i]).0@ == silo;
                assert(init[i].0@ == silo);
            }
            if silo_clients(init).contains_key(silo) {
                let i = choose|i: int|
                    {
                        &&& 0 <= i < init.len()
                        &&& (#[trigger] init[i]).0@ == silo
                        &&& init[i].1 == Ok::<C, String>(silo_clients(init)[silo])
                        &&& forall|j: int| i < j < init.len() ==> (#[trigger] init[j]).0@ != silo
                    };
                assert(clients[i] == init[i]);
                assert forall|j: int| i < j < clients.len() implies (#[trigger] clients[j]).0@
                    != silo by {
                    if j < last {
                        assert(init[j] == clients[j]);
                    }
                }
            }
        }
    }
}

/// A silo is asked with the client that was made for its URL, the last of several, and for each
/// lifetime that the settings allow. What is refused is refused because nothing is configured, for
/// its lifetime, or because there is no client for its URL, in that order.
pub proof fn silos_are_asked_with_their_own_client<'a, C>(
    settings: &Settings,
    clients: Vec<(Url, Result<C, String>)>,
    tokens: &'a OxideTokens<C>,
    request: &OxideTokenRequest,
    started: Result<DeviceAuthRequest<'a, C>, OxideError>,
    client: &'a C,
)
    requires
        call_ensures(
            OxideTokens::<C>::new,
            (settings, clients),
            Ok::<OxideTokens<C>, OxideError>(*tokens),
        ),
        call_ensures(OxideTokens::<C>::get, (tokens, request), started),
        started matches Ok(s) ==> call_ensures(DeviceAuthRequest::<'a, C>::client, (&s,), client),
    ensures
        match settings.oxide {
            None => started matches Err(OxideError::NotConfigured),
            Some(oxide) => if request.duration == 0 && !oxide.allow_tokens_without_expiry {
                started matches Err(OxideError::NoExpirationDisallowed)
            } else if request.duration > oxide.max_duration {
                started matches Err(OxideError::TooLongExpiration(max)) && max
                    == oxide.max_duration
            } else if forall|i: int|
                0 <= i < clients@.len() ==> (#[trigger] clients@[i]).0@ != request.silo@ {
                started matches Err(OxideError::SiloNotConfigured(silo)) && silo@ == request.silo@
            } else {
                &&& started is Ok
                &&& exists|i: int|
                    {
                        &&& 0 <= i < clients@.len()
                        &&& (#[trigger] clients@[i]).0@ == request.silo@
                        &&& clients@[i].1 == Ok::<C, String>(*client)
                        &&& forall|j: int|
                            i < j < clients@.len() ==> (#[trigger] clients@[j]).0@ != request.silo@
                    }
            },
        },
{
    if settings.oxide is Some {
        lemma_silo_clients(clients@, request.silo@);
    }
}

/// Tokens can be issued where every client could be made, and otherwise the first that could not is
/// told of. Where nothing is configured no client is needed.
pub proof fn silos_need_their_clients<C>(
    settings: &Settings,
    clients: Vec<(Url, Result<C, String>)>,
    tokens: Result<OxideTokens<C>, OxideError>,
)
    requires
        call_ensures(OxideTokens::<C>::new, (settings, clients), tokens),
    ensures
        tokens is Ok <==> settings.oxide is None || forall|i: int|
            0 <= i < clients@.len() ==> (#[trigger] clients@[i]).1 is Ok,
        tokens is Err ==> exists|i: int|
            {
                &&& 0 <= i < clients@.len()
                &&& (#[trigger] clients@[i]).1 is Err
                &&& tokens->Err_0 matches OxideError::AuthFailed(silo, fault)
                &&& silo@ == clients@[i].0@
                &&& fault == clients@[i].1->Err_0
                &&& forall|j: int| 0 <= j < i ==> (#[trigger] clients@[j]).1 is Ok
            },
{
}

/// Each silo of the manifest is configured under the canonical form of its URL and with its own
/// credential, in the order of the manifest. An entry that cannot be used is told of: the first
/// one, for its credential before its URL.
pub proof fn silos_are_configured_as_listed(
    settings: &Settings,
    manifest: Vec<(String, Result<String, String>)>,
    silos: Result<Vec<Silo>, OxideError>,
)
    requires
        settings.oxide is Some,
        settings.oxide->Some_0.silos == Ok::<Vec<(String, Result<String, String>)>, String>(
            manifest,
        ),
        call_ensures(configured_silos, (settings,), silos),
    ensures
        silos is Ok <==> forall|i: int|
            0 <= i < manifest@.len() ==> (#[trigger] manifest@[i]).1 is Ok && canonical_url(
                manifest@[i].0@,
            ) is Ok,
        silos matches Ok(list) ==> {
            &&& list@.len() == manifest@.len()
            &&& forall|i: int|
                #![trigger list@[i]]
                0 <= i < list@.len() ==> {
                    &&& canonical_url(manifest@[i].0@) == Ok::<Seq<char>, Seq<char>>(list@[i].url@)
                    &&& list@[i].credential@ == manifest@[i].1->Ok_0@
                }
        },
        silos is Err ==> exists|i: int|
            {
                &&& 0 <= i < manifest@.len()
                &&& forall|j: int|
                    0 <= j < i ==> (#[trigger] manifest@[j]).1 is Ok && canonical_url(
                        manifest@[j].0@,
                    ) is Ok
                &&& match (#[trigger] manifest@[i]).1 {
                    Err(fault) => silos->Err_0 matches OxideError::ResolveParam(f) && f@ == fault@,
                    Ok(_) => silos->Err_0 matches OxideError::InvalidSiloUrl(url, f) && url@
                        == manifest@[i].0@ && canonical_url(url@) == Err::<Seq<char>, Seq<char>>(
                        f@,
                    ),
                }
            },
{
    if silos is Ok {
        assert forall|i: int| 0 <= i < manifest@.len() implies (#[trigger] manifest@[i]).1 is Ok
            && canonical_url(manifest@[i].0@) is Ok by {
            assert(is_silo_of(silos->Ok_0@[i], manifest@[i]));
        }
    } else {
        let error = silos->Err_0;
        let i = choose|i: int|
            {
                &&& 0 <= i < manifest@.len()
                &&& is_entry_fault(error, #[trigger] manifest@[i])
                &&& forall|j: int| 0 <= j < i ==> is_usable(#[trigger] manifest@[j])
            };
        assert forall|j: int| 0 <= j < i implies (#[trigger] manifest@[j]).1 is Ok
            && canonical_url(manifest@[j].0@) is Ok by {
            assert(is_usable(manifest@[j]));
        }
        assert(is_entry_fault(error, manifest@[i]));
    }
}

/// Without a manifest no silo is configured, and one that cannot be read is told of.
pub proof fn silos_need_a_manifest(settings: &Settings, silos: Result<Vec<Silo>, OxideError>)
    requires
        call_ensures(configured_silos, (settings,), silos),
    ensures
        settings.oxide is None ==> (silos matches Ok(list) && list@.len() == 0),
        settings.oxide matches Some(oxide) ==> (oxide.silos matches Err(fault) ==> (
        silos matches Err(OxideError::ResolveParam(f)) && f@ == fault@)),
{
}

/// The code that a silo gives out for the user is the one that is confirmed, the code that it gives
/// out for the device is the one that the token is fetched with, and the token that it gives out
/// for that is the one issued. All of it is asked of the same silo.
pub proof fn codes_are_used_as_given_out<'a, C>(
    started: DeviceAuthRequest<'a, C>,
    first: &'a C,
    response: DeviceAuthorizationResponse,
    confirmation: Result<Confirmation<'a, C>, OxideError>,
    second: &'a C,
    user_code: &str,
    query: Result<AccessTokenQuery<'a, C>, OxideError>,
    third: &'a C,
    device_code: &str,
    grant: DeviceAccessTokenGrant,
    token: Result<Token, OxideError>,
)
    requires
        call_ensures(DeviceAuthRequest::<'a, C>::client, (&started,), first),
        call_ensures(
            DeviceAuthRequest::<'a, C>::answer,
            (started, DeviceAuthReply::Accepted(Ok(response))),
            confirmation,
        ),
        confirmation matches Ok(c) ==> {
            &&& call_ensures(Confirmation::<'a, C>::client, (&c,), second)
            &&& call_ensures(Confirmation::<'a, C>::user_code, (&c,), user_code)
            &&& call_ensures(Confirmation::<'a, C>::answer, (c, Ok::<(), String>(())), query)
        },
        query matches Ok(q) ==> {
            &&& call_ensures(AccessTokenQuery::<'a, C>::client, (&q,), third)
            &&& call_ensures(AccessTokenQuery::<'a, C>::device_code, (&q,), device_code)
            &&& call_ensures(
                AccessTokenQuery::<'a, C>::answer,
                (
                    q,
                    Ok::<Result<DeviceAccessTokenGrant, ByteStreamError>, String>(
                        Ok::<DeviceAccessTokenGrant, ByteStreamError>(grant),
                    ),
                ),
                token,
            )
        },
    ensures
        confirmation is Ok,
        *second == *first,
        user_code@ == response.user_code@,
        query is Ok,
        *third == *first,
        device_code@ == response.device_code@,
        token is Ok,
        token->Ok_0.access_token == grant.access_token,
{
}

/// A silo that refuses, or whose answer cannot be had or read, ends the exchange with that reason.
pub proof fn failures_of_a_silo_are_told_as_they_came<'a, C>(
    started: DeviceAuthRequest<'a, C>,
    reply: DeviceAuthReply,
    confirmation: Result<Confirmation<'a, C>, OxideError>,
)
    requires
        call_ensures(DeviceAuthRequest::<'a, C>::answer, (started, reply), confirmation),
    ensures
        confirmation is Ok <==> reply matches DeviceAuthReply::Accepted(Ok(_)),
        reply matches DeviceAuthReply::Refused(Ok(reason)) ==> confirmation->Err_0
            == OxideError::DeviceAuthRequest(reason),
        reply matches DeviceAuthReply::Refused(Err(fault)) ==> confirmation->Err_0
            == OxideError::ByteStream(fault),
        reply matches DeviceAuthReply::Accepted(Err(fault)) ==> confirmation->Err_0
            == OxideError::ByteStream(fault),
        reply matches DeviceAuthReply::Failed(fault) ==> confirmation->Err_0
            == OxideError::OxideByteError(fault),
{
}

/// What fails after the start of the exchange is told as it came.
pub proof fn later_failures_are_told_as_they_came<'a, C>(
    confirmation: Confirmation<'a, C>,
    confirmed: Result<(), String>,
    query: Result<AccessTokenQuery<'a, C>, OxideError>,
    last: AccessTokenQuery<'a, C>,
    reply: Result<Result<DeviceAccessTokenGrant, ByteStreamError>, String>,
    token: Result<Token, OxideError>,
)
    requires
        call_ensures(Confirmation::<'a, C>::answer, (confirmation, confirmed), query),
        call_ensures(AccessTokenQuery::<'a, C>::answer, (last, reply), token),
    ensures
        query is Ok <==> confirmed is Ok,
        confirmed matches Err(fault) ==> query->Err_0 == OxideError::Oxide(fault),
        token is Ok <==> reply matches Ok(Ok(_)),
        reply matches Ok(Err(fault)) ==> token->Err_0 == OxideError::ByteStream(fault),
        reply matches Err(fault) ==> token->Err_0 == OxideError::OxideByteError(fault),
{
}

/// An error is to be exposed only where it tells of the request: of its silo or its lifetime, or
/// that there are no such tokens.
pub proof fn only_errors_of_the_request_are_exposed(error: &OxideError, safe: bool)
    requires
        call_ensures(OxideError::safe_to_expose, (error,), safe),
    ensures
        safe <==> {
            ||| *error is SiloNotConfigured
            ||| *error is NotConfigured
            ||| *error is NoExpirationDisallowed
            ||| *error is TooLongExpiration
        },
{
}

/// A message names the silo, the URL or the maximum that the error is about, and of the inside
/// nothing but its kind.
pub proof fn messages_name_the_silo_or_the_limit(error: &OxideError, text: String)
    requires
        call_ensures(OxideError::message, (error,), text),
    ensures
        match *error {
            OxideError::SiloNotConfigured(silo) => text@ == "The silo "@ + silo@
                + " is not configured in this instance of oidcx"@,
            OxideError::InvalidSiloUrl(url, fault) => text@ == "The configured silo url "@ + url@
                + " is not a valid url: "@ + fault@,
            OxideError::AuthFailed(silo, _) => text@ == "Failed to authenticate with silo "@
                + silo@,
            OxideError::TooLongExpiration(max) => exists|digits: Seq<char>|
                {
                    &&& #[trigger] is_decimal_of(digits, max as int)
                    &&& text@ == "The duration of this token is more than the maximum of "@ + digits
                        + " seconds"@
                },
            OxideError::NotConfigured => text@ == "The Oxide token provider is not configured"@,
            OxideError::NoExpirationDisallowed => text@
                == "Tokens with no expiration are not allowed"@,
            OxideError::ByteStream(_) => text@ == "Error reading response"@,
            OxideError::DeviceAuthRequest(_) => text@
                == "Failed to issue device access token request"@,
            OxideError::ResolveParam(_) => text@
                == "Failed to resolve the silo manifest or a silo credential"@,
            OxideError::Oxide(_) | OxideError::OxideByteError(_) => text@
                == "Remote service error"@,
        },
{
    if let OxideError::TooLongExpiration(max) = *error {
        lemma_decimal(max as nat);
    }
}

/// Any token can be asked for, and any settings can be started with.
pub proof fn any_oxide_token_can_be_asked_for<C>(
    settings: &Settings,
    clients: Vec<(Url, Result<C, String>)>,
    tokens: &OxideTokens<C>,
    request: &OxideTokenRequest,
)
    ensures
        call_requires(configured_silos, (settings,)),
        call_requires(OxideTokens::<C>::new, (settings, clients)),
        call_requires(OxideTokens::<C>::get, (tokens, request)),
{
}

} // verus!
