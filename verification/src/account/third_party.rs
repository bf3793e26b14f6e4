//! Third-party identifiers of an account.

use vstd::prelude::*;

verus! {

/// A request for the caller's third-party identifiers.
#[derive(Debug)]
pub struct ThirdPartyRequest {
    /// The caller, as the transport layer authenticated them.
    pub sender_user: Option<String>,
}

/// An identifier from outside the server, such as an e-mail address.
#[derive(Debug, PartialEq, Eq)]
pub struct ThirdPartyIdentifier {
    pub medium: String,
    pub address: String,
}

/// The caller's third-party identifiers.
#[derive(Debug, PartialEq, Eq)]
pub struct ThirdPartyResponse {
    pub threepids: Vec<ThirdPartyIdentifier>,
}

/// Lists the third-party identifiers of the authenticated caller. The server
/// keeps none, so the list is empty.
pub fn third_party_route(body: &ThirdPartyRequest) -> (res: ThirdPartyResponse)
    requires
        body.sender_user is Some,
    ensures
        res.threepids@ == Seq::<ThirdPartyIdentifier>::empty(),
{
    ThirdPartyResponse { threepids: Vec::new() }
}

} // verus!
