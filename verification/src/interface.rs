//! Where the interface sends a client for a tenant's flow.
use vstd::prelude::*;

verus! {

/// The address of a flow's page in the interface: the base address, then
/// `/flow/` and the flow's slug, then the request's query after a `?` where
/// there is one.
pub open spec fn spec_flow_location(base: Seq<char>, slug: Seq<char>, query: Option<Seq<char>>) -> Seq<char> {
    match query {
        Some(q) => base + "/flow/"@ + slug + "?"@ + q,
        None => base + "/flow/"@ + slug,
    }
}

/// Builds the address that a tenant's flow redirects to.
pub fn flow_location(base: &str, slug: &str, query: Option<&str>) -> (r: String)
    ensures
        r@ == spec_flow_location(
            base@,
            slug@,
            match query {
                Some(q) => Some(q@),
                None => None,
            },
        ),
{
    let mut out = base.to_owned();
    out.append("/flow/");
    out.append(slug);
    if let Some(q) = query {
        out.append("?");
        out.append(q);
    }
    out
}

} // verus!
