use vstd::prelude::*;

verus! {

/// Everything that can go wrong while talking to a gateway.
#[derive(Debug, Clone, Copy, PartialEq, Eq)]
pub enum Error {
    /// No local address could be bound.
    Bind,
    /// Discovery exhausted all attempts without receiving a reply.
    Timeout,
    /// The `Location` header was missing or did not parse as a URL.
    Location,
    /// No usable control URL was found in the device description.
    ControlUrl,
    /// The discovered URL does not name a literal host and an explicit port.
    HostPort,
    /// A non-200 HTTP response; carries the status code when one was parsable.
    StatusCode(Option<u16>),
    /// Underlying transport failure.
    Io,
    /// Malformed HTTP response.
    Http,
    /// Response bytes were not valid UTF-8.
    Utf8,
    /// Malformed XML in a response body.
    Xml,
    /// A URL could not be parsed.
    Url,
    /// Timer subsystem failure.
    Timer,
}

} // verus!
