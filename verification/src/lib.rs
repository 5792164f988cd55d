//! A single-use loopback HTTP listener core for completing an OAuth
//! authorization-code redirect on a desktop machine.
//!
//! The library holds the verified logic of the flow: classifying raw
//! requests, extracting the callback URL from its carrying header,
//! rendering the bridge page and the wire responses, and the two-attempt
//! worker state machine. Socket I/O and event publication live with the
//! embedding application, which feeds raw request text in and carries the
//! chosen response and the captured URL out.

use vstd::prelude::*;

pub mod request;
pub mod response;
pub mod worker;

verus! {

/// The fixed callback port. It is part of the redirect URI registered with
/// the identity provider, so it is never renegotiated at runtime.
pub const OAUTH_PORT: u16 = 17927;

} // verus!
