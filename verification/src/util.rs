//! URLs in their canonical form, and bodies that arrive in chunks.

use vstd::prelude::*;

verus! {

/// The canonical form of a URL, or what is wrong with it.
pub uninterp spec fn canonical_url(text: Seq<char>) -> Result<Seq<char>, Seq<char>>;

/// Calls `reqwest::Url::from_str`, which reads a URL, and prints the outcome. What it prints
/// depends on the text alone: the canonical form of a URL, in which letters of the host are lower
/// case, a default port is left out and the path is not empty, or a description of what is wrong.
/// [`canonical_url`] names it.
#[verifier::external_body]
fn parse_url(text: &str) -> (canonical: Result<String, String>)
    ensures
        match canonical {
            Ok(url) => canonical_url(text@) == Ok::<Seq<char>, Seq<char>>(url@),
            Err(fault) => canonical_url(text@) == Err::<Seq<char>, Seq<char>>(fault@),
        },
{
    match text.parse::<reqwest::Url>() {
        Ok(url) => Ok(url.to_string()),
        Err(fault) => Err(fault.to_string()),
    }
}

/// `text` is the canonical form of some URL.
pub open spec fn is_canonical_url(text: Seq<char>) -> bool {
    exists|source: Seq<char>| #[trigger] canonical_url(source) == Ok::<Seq<char>, Seq<char>>(text)
}

/// A URL in its canonical form.
#[derive(Debug)]
pub struct Url {
    text: String,
}

impl View for Url {
    type V = Seq<char>;

    closed spec fn view(&self) -> Seq<char> {
        self.text@
    }
}

impl Url {
    #[verifier::type_invariant]
    spec fn is_canonical(self) -> bool {
        is_canonical_url(self.text@)
    }

    /// Reads a URL, or says what is wrong with it.
    pub fn parse(text: &str) -> (url: Result<Url, String>)
        ensures
            match url {
                Ok(u) => canonical_url(text@) == Ok::<Seq<char>, Seq<char>>(u@),
                Err(fault) => canonical_url(text@) == Err::<Seq<char>, Seq<char>>(fault@),
            },
    {
        match parse_url(text) {
            Ok(canonical) => Ok(Url { text: canonical }),
            Err(fault) => Err(fault),
        }
    }

    /// The canonical form.
    pub fn as_str(&self) -> (text: &str)
        ensures
            text@ == self@,
            is_canonical_url(text@),
    {
        proof {
            use_type_invariant(self);
        }
        self.text.as_str()
    }
}

/// Why a body could not be read.
#[derive(Clone, Copy, Debug, PartialEq, Eq, Structural)]
pub enum ByteStreamError {
    FailedToRead,
    FailedToParse,
}

impl ByteStreamError {
    /// What went wrong, in words.
    pub open spec fn spec_message(self) -> Seq<char> {
        match self {
            ByteStreamError::FailedToRead => "Failed to read bytes from stream"@,
            ByteStreamError::FailedToParse => "Failed to parse read bytes"@,
        }
    }

    /// What went wrong, in words.
    pub fn message(&self) -> (text: String)
        ensures
            text@ == self.spec_message(),
    {
        match self {
            ByteStreamError::FailedToRead => "Failed to read bytes from stream".to_owned(),
            ByteStreamError::FailedToParse => "Failed to parse read bytes".to_owned(),
        }
    }
}

/// The bytes of a body of which some chunks have arrived.
#[derive(Debug)]
pub struct PartialBody {
    bytes: Vec<u8>,
}

impl View for PartialBody {
    type V = Seq<u8>;

    closed spec fn view(&self) -> Seq<u8> {
        self.bytes@
    }
}

impl PartialBody {
    /// A body of which nothing has arrived.
    pub fn new() -> (body: PartialBody)
        ensures
            body@ == Seq::<u8>::empty(),
    {
        PartialBody { bytes: Vec::new() }
    }

    /// The body after its next chunk. A chunk that cannot be read ends it.
    pub fn chunk<E>(self, chunk: Result<Vec<u8>, E>) -> (body: Result<PartialBody, ByteStreamError>)
        ensures
            match chunk {
                Ok(bytes) => body matches Ok(b) && b@ == self@ + bytes@,
                Err(_) => body == Err::<PartialBody, ByteStreamError>(
                    ByteStreamError::FailedToRead,
                ),
            },
    {
        match chunk {
            Ok(mut next) => {
                let mut bytes = self.bytes;
                bytes.append(&mut next);
                Ok(PartialBody { bytes })
            },
            Err(_) => Err(ByteStreamError::FailedToRead),
        }
    }

    /// The bytes that have arrived.
    pub fn into_bytes(self) -> (bytes: Vec<u8>)
        ensures
            bytes@ == self@,
    {
        self.bytes
    }
}

/// The outcome of reading a body of which `parsed` was made.
pub fn parsed_body<T, E>(parsed: Result<T, E>) -> (outcome: Result<T, ByteStreamError>)
    ensures
        match parsed {
            Ok(value) => outcome == Ok::<T, ByteStreamError>(value),
            Err(_) => outcome == Err::<T, ByteStreamError>(ByteStreamError::FailedToParse),
        },
{
    match parsed {
        Ok(value) => Ok(value),
        Err(_) => Err(ByteStreamError::FailedToParse),
    }
}

/// What a URL is read as is its canonical form, and what is none is refused with the reason.
pub proof fn urls_are_read_in_canonical_form(
    source: &str,
    url: Result<Url, String>,
    text: &str,
)
    requires
        call_ensures(Url::parse, (source,), url),
        url matches Ok(u) ==> call_ensures(Url::as_str, (&u,), text),
    ensures
        url is Ok ==> canonical_url(source@) == Ok::<Seq<char>, Seq<char>>(text@),
        url matches Err(fault) ==> canonical_url(source@) == Err::<Seq<char>, Seq<char>>(fault@),
{
}

/// A body is its chunks one after the other, and a chunk that cannot be read ends it.
pub proof fn bodies_are_their_chunks<E>(
    body: PartialBody,
    arrived: Vec<u8>,
    chunk: Result<Vec<u8>, E>,
    next: Result<PartialBody, ByteStreamError>,
    all: Vec<u8>,
)
    requires
        call_ensures(PartialBody::into_bytes, (body,), arrived),
        call_ensures(PartialBody::chunk::<E>, (body, chunk), next),
        next matches Ok(n) ==> call_ensures(PartialBody::into_bytes, (n,), all),
    ensures
        next is Ok <==> chunk is Ok,
        chunk matches Ok(bytes) ==> all@ == arrived@ + bytes@,
        next matches Err(error) ==> error == ByteStreamError::FailedToRead,
{
}

/// A body of which nothing has arrived is empty.
pub proof fn bodies_start_empty(body: PartialBody, bytes: Vec<u8>)
    requires
        call_ensures(PartialBody::new, (), body),
        call_ensures(PartialBody::into_bytes, (body,), bytes),
    ensures
        bytes@.len() == 0,
{
}

/// A body is read as what was made of its bytes.
pub proof fn bodies_are_read_as_parsed<T, E>(
    parsed: Result<T, E>,
    outcome: Result<T, ByteStreamError>,
)
    requires
        call_ensures(parsed_body::<T, E>, (parsed,), outcome),
    ensures
        outcome is Ok <==> parsed is Ok,
        outcome is Ok ==> outcome->Ok_0 == parsed->Ok_0,
        outcome is Err ==> outcome->Err_0 == ByteStreamError::FailedToParse,
{
}

/// A message says whether a body could not be read or not be understood.
pub proof fn messages_tell_reading_from_parsing(error: &ByteStreamError, text: String)
    requires
        call_ensures(ByteStreamError::message, (error,), text),
    ensures
        *error == ByteStreamError::FailedToRead ==> text@ == "Failed to read bytes from stream"@,
        *error == ByteStreamError::FailedToParse ==> text@ == "Failed to parse read bytes"@,
{
}

} // verus!
