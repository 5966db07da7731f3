//! Well-formedness of peer addresses.
//!
//! Addresses are multiaddresses in their text form, such as
//! `/ip4/127.0.0.1/tcp/9000`. The grammar is that of the transport library; the
//! node only needs to know whether a text belongs to it.

use vstd::prelude::*;

verus! {

/// Whether `text` is the text form of a multiaddress, as the transport library
/// parses it.
pub uninterp spec fn is_multiaddr(text: Seq<char>) -> bool;

/// Whether `text` has the shape that every multiaddress has: it is empty, or
/// it begins with a slash.
pub open spec fn is_rooted(text: Seq<char>) -> bool {
    text.len() == 0 || text[0] == '/'
}

/// Tells whether a text is a multiaddress.
///
/// Trusted: calls `str::parse::<libp2p::Multiaddr>`, which is
/// `multiaddr::Multiaddr::from_str`, and reports whether it returned `Ok`. The
/// parser reads nothing but its argument, so its verdict is given the name
/// [`is_multiaddr`]. Its first step rejects any text whose first piece, up to
/// the first slash, is not empty; the second clause states that.
#[verifier::external_body]
pub(crate) fn parses(text: &str) -> (ok: bool)
    ensures
        ok == is_multiaddr(text@),
        ok ==> is_rooted(text@),
{
    text.parse::<libp2p::Multiaddr>().is_ok()
}

} // verus!
