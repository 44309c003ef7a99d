//! Tickets: the JSON form of a node's address that users pass to each other
//! to connect, and bare endpoint ids.

use vstd::prelude::*;

verus! {

#[verifier::external_type_specification]
#[verifier::external_body]
pub struct ExEndpointAddr(iroh::EndpointAddr);

/// Whether `text` is the JSON of an endpoint address (`serde_json::from_str::<EndpointAddr>` succeeds).
pub uninterp spec fn is_ticket_json(text: Seq<char>) -> bool;

/// The endpoint id, in its display form, of the address whose JSON is `text`.
pub uninterp spec fn ticket_id_text(text: Seq<char>) -> Seq<char>;

/// Whether `text` is an endpoint id (`text.parse::<EndpointId>()` succeeds).
pub uninterp spec fn is_endpoint_id_text(text: Seq<char>) -> bool;

/// `serde_json::from_str::<EndpointAddr>(text)`: the address a ticket holds,
/// with its endpoint id shown by `Display`.
#[verifier::external_body]
pub(crate) fn parse_ticket(text: &str) -> (r: Option<(iroh::EndpointAddr, String)>)
    ensures
        r is Some <==> is_ticket_json(text@),
        r matches Some(p) ==> p.1@ == ticket_id_text(text@),
{
    serde_json::from_str::<iroh::EndpointAddr>(text).ok().map(|addr| {
        let id = addr.id.to_string();
        (addr, id)
    })
}

/// `text.parse::<EndpointId>()`, as the address `EndpointAddr::from(id)`.
#[verifier::external_body]
pub(crate) fn parse_endpoint_id(text: &str) -> (r: Option<iroh::EndpointAddr>)
    ensures
        r is Some <==> is_endpoint_id_text(text@),
{
    text.parse::<iroh::EndpointId>().ok().map(iroh::EndpointAddr::from)
}

} // verus!
