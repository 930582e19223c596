//! Client core for the UPnP Internet Gateway Device protocol.
//!
//! The library covers the protocol logic of an IGD client: interpreting
//! SSDP M-SEARCH replies, parsing HTTP responses, locating the
//! WANIPConnection service in a device description, building the SOAP
//! requests for `GetExternalIPAddress` and `AddAnyPortMapping`, and
//! interpreting their responses.  Socket and timer handling live outside
//! the library; its functions map plain bytes and values to plain values.

pub mod addr;
pub mod ascii;
pub mod error;
pub mod discovery;
pub mod http;
pub mod session;
pub mod soap;
pub mod xml;
