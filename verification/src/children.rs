//! Nexus children endpoints: canonicalizes a path-supplied child identifier
//! plus query string into the canonical URI a backend child is keyed by,
//! matches it against a nexus's children by exact string equality, and
//! builds the add/remove child requests from a fetched nexus.

use vstd::prelude::*;
use vstd::string::StringExecFns;

use crate::message_bus::AddNexusChild;
use crate::message_bus::BusError;
use crate::message_bus::Child;
use crate::message_bus::Filter;
use crate::message_bus::Nexus;
use crate::message_bus::RemoveNexusChild;
use crate::rest_error::error_response;
use crate::rest_error::is_error_response;
use crate::rest_error::JsonBody;
use crate::rest_error::RestResponse;
use crate::router::route;
use crate::router::Handler;
use crate::router::Method;
use crate::router::Route;

verus! {

/// Whether a string parses as an absolute URL.
pub uninterp spec fn is_url(s: Seq<char>) -> bool;

/// Relies on url::Url::parse: whether a string parses as an absolute URL
/// depends on the string alone.
#[verifier::external_body]
fn parse_as_url(s: &str) -> (r: bool)
    ensures
        r == is_url(s@),
{
    url::Url::parse(s).is_ok()
}

/// The canonical URI for a path-supplied child identifier and query string:
/// a URL-shaped identifier is kept verbatim, with `?{query}` appended when a
/// query string is present; anything else falls back to the legacy default
/// `aio://` scheme, and the query string is deliberately discarded.
pub open spec fn child_uri_spec(id: Seq<char>, query: Seq<char>) -> Seq<char> {
    if is_url(id) {
        if query.len() == 0 {
            id
        } else {
            id + "?"@ + query
        }
    } else {
        "aio://"@ + id
    }
}

/// Canonicalizes a child identifier and query string into the single form a
/// backend child is keyed by.
pub fn build_child_uri(child_id: String, query: &str) -> (r: String)
    ensures
        r@ == child_uri_spec(child_id@, query@),
{
    if parse_as_url(child_id.as_str()) {
        if query.is_empty() {
            child_id
        } else {
            child_id.concat("?").concat(query)
        }
    } else {
        String::from_str("aio://").concat(child_id.as_str())
    }
}

/// Whether some child of the sequence is keyed by exactly this URI.
pub open spec fn has_child_uri(children: Seq<Child>, uri: Seq<char>) -> bool {
    exists|i: int| 0 <= i < children.len() && children[i].uri@ == uri
}

/// Scans a nexus's children for an exact string match against the canonical
/// URI. No further normalization is performed: callers must supply the same
/// literal representation used at creation time. Absence is `NotFound`.
pub fn find_nexus_child(nexus: &Nexus, child_uri: &String) -> (r: Result<Child, BusError>)
    ensures
        match r {
            Ok(c) => c.uri@ == child_uri@ && (exists|i: int|
                0 <= i < nexus.children@.len() && nexus.children@[i] == c && (forall|j: int|
                    0 <= j < i ==> nexus.children@[j].uri@ != child_uri@)),
            Err(e) => e is NotFound && !has_child_uri(nexus.children@, child_uri@),
        },
        r is Ok <==> has_child_uri(nexus.children@, child_uri@),
{
    let n = nexus.children.len();
    let mut i: usize = 0;
    while i < n
        invariant
            n == nexus.children@.len(),
            0 <= i <= n,
            forall|j: int| 0 <= j < i ==> nexus.children@[j].uri@ != child_uri@,
        decreases n - i,
    {
        if nexus.children[i].uri == *child_uri {
            let c = nexus.children[i].clone();
            assert(nexus.children@[i as int] == c);
            return Ok(c);
        }
        i += 1;
    }
    Err(BusError::NotFound)
}

/// Well-formedness of a nexus: each child URI is unique within it.
pub open spec fn nexus_wf(n: Nexus) -> bool {
    forall|i: int, j: int|
        0 <= i < n.children@.len() && 0 <= j < n.children@.len() && i != j
            ==> n.children@[i].uri@ != n.children@[j].uri@
}

/// Law: within a well-formed nexus an exact URI match is unique, so a child
/// found by its URI is the one child of the nexus holding that URI.
pub proof fn lemma_found_child_is_unique(n: Nexus, c: Child, k: int)
    requires
        nexus_wf(n),
        0 <= k < n.children@.len(),
        n.children@[k].uri@ == c.uri@,
        exists|i: int| 0 <= i < n.children@.len() && n.children@[i] == c,
    ensures
        n.children@[k] == c,
{
    let i = choose|i: int| 0 <= i < n.children@.len() && n.children@[i] == c;
    assert(n.children@[i].uri@ == c.uri@);
    if i != k {
        assert(n.children@[i].uri@ != n.children@[k].uri@);
        assert(false);
    }
}

/// The response to listing a nexus's children: the fetched nexus's child
/// collection, or the error translation.
pub fn get_children_response(nexus: Result<Nexus, BusError>) -> (r: RestResponse)
    ensures
        match nexus {
            Ok(n) => r.status == 200 && r.body == JsonBody::Children(n.children),
            Err(e) => is_error_response(e, r),
        },
{
    match nexus {
        Ok(n) => RestResponse { status: 200, body: JsonBody::Children(n.children) },
        Err(e) => error_response(e),
    }
}

/// The response to getting one child: canonicalizes the identifier, looks
/// the child up in the fetched nexus, and serializes it; a missing child or
/// a failed fetch is translated as the error it is.
pub fn get_child_response(child_id: String, query: &str, nexus: Result<Nexus, BusError>) -> (r:
    RestResponse)
    ensures
        match nexus {
            Ok(n) => {
                let uri = child_uri_spec(child_id@, query@);
                if has_child_uri(n.children@, uri) {
                    r.status == 200 && (r.body matches JsonBody::Child(c) && c.uri@ == uri
                        && (exists|i: int|
                        0 <= i < n.children@.len() && n.children@[i] == c && (forall|j: int|
                            0 <= j < i ==> n.children@[j].uri@ != uri)))
                } else {
                    r.status == 204 && r.body is Empty
                }
            },
            Err(e) => is_error_response(e, r),
        },
{
    let uri = build_child_uri(child_id, query);
    match nexus {
        Ok(n) => match find_nexus_child(&n, &uri) {
            Ok(c) => RestResponse { status: 200, body: JsonBody::Child(c) },
            Err(e) => error_response(e),
        },
        Err(e) => error_response(e),
    }
}

/// The response to a successfully added child, or the error translation.
pub fn child_response(result: Result<Child, BusError>) -> (r: RestResponse)
    ensures
        match result {
            Ok(c) => r.status == 200 && r.body == JsonBody::Child(c),
            Err(e) => is_error_response(e, r),
        },
{
    match result {
        Ok(c) => RestResponse { status: 200, body: JsonBody::Child(c) },
        Err(e) => error_response(e),
    }
}

/// Builds the add-child request from the fetched nexus: the request is
/// addressed by the nexus's own node and uuid, carries the canonical child
/// URI, and asks for an automatic rebuild.
pub fn add_child_filtered(child_id: String, query: &str, nexus: Result<Nexus, BusError>) -> (r:
    Result<AddNexusChild, BusError>)
    ensures
        match nexus {
            Ok(n) => r matches Ok(a) && a.node == n.node && a.nexus == n.uuid && a.uri@
                == child_uri_spec(child_id@, query@) && a.auto_rebuild == true,
            Err(e) => r matches Err(e2) && e2 == e,
        },
{
    let child_uri = build_child_uri(child_id, query);
    match nexus {
        Ok(n) => Ok(
            AddNexusChild { node: n.node, nexus: n.uuid, uri: child_uri, auto_rebuild: true },
        ),
        Err(e) => Err(e),
    }
}

/// Builds the remove-child request from the fetched nexus, addressed by the
/// nexus's own node and uuid and carrying the canonical child URI.
pub fn delete_child_filtered(child_id: String, query: &str, nexus: Result<Nexus, BusError>) -> (r:
    Result<RemoveNexusChild, BusError>)
    ensures
        match nexus {
            Ok(n) => r matches Ok(d) && d.node == n.node && d.nexus == n.uuid && d.uri@
                == child_uri_spec(child_id@, query@),
            Err(e) => r matches Err(e2) && e2 == e,
        },
{
    let child_uri = build_child_uri(child_id, query);
    match nexus {
        Ok(n) => Ok(RemoveNexusChild { node: n.node, nexus: n.uuid, uri: child_uri }),
        Err(e) => Err(e),
    }
}

/// Filter for listing the children of a nexus addressed by uuid alone.
pub fn get_nexus_children(nexus_id: String) -> (f: Filter)
    ensures
        f == Filter::Nexus(nexus_id),
{
    Filter::Nexus(nexus_id)
}

/// Filter for listing the children of a nexus qualified by its node.
pub fn get_node_nexus_children(node_id: String, nexus_id: String) -> (f: Filter)
    ensures
        f == Filter::NodeNexus(node_id, nexus_id),
{
    Filter::NodeNexus(node_id, nexus_id)
}

/// Filter and raw child identifier for getting one child of a nexus.
pub fn get_nexus_child(nexus_id: String, child_id: String) -> (r: (Filter, String))
    ensures
        r.0 == Filter::Nexus(nexus_id),
        r.1 == child_id,
{
    (Filter::Nexus(nexus_id), child_id)
}

/// Filter and raw child identifier for getting one child, node-qualified.
pub fn get_node_nexus_child(node_id: String, nexus_id: String, child_id: String) -> (r: (
    Filter,
    String,
))
    ensures
        r.0 == Filter::NodeNexus(node_id, nexus_id),
        r.1 == child_id,
{
    (Filter::NodeNexus(node_id, nexus_id), child_id)
}

/// Filter and raw child identifier for adding a child to a nexus.
pub fn add_nexus_child(nexus_id: String, child_id: String) -> (r: (Filter, String))
    ensures
        r.0 == Filter::Nexus(nexus_id),
        r.1 == child_id,
{
    (Filter::Nexus(nexus_id), child_id)
}

/// Filter and raw child identifier for adding a child, node-qualified.
pub fn add_node_nexus_child(node_id: String, nexus_id: String, child_id: String) -> (r: (
    Filter,
    String,
))
    ensures
        r.0 == Filter::NodeNexus(node_id, nexus_id),
        r.1 == child_id,
{
    (Filter::NodeNexus(node_id, nexus_id), child_id)
}

/// Filter and raw child identifier for removing a child from a nexus.
pub fn delete_nexus_child(nexus_id: String, child_id: String) -> (r: (Filter, String))
    ensures
        r.0 == Filter::Nexus(nexus_id),
        r.1 == child_id,
{
    (Filter::Nexus(nexus_id), child_id)
}

/// Filter and raw child identifier for removing a child, node-qualified.
pub fn delete_node_nexus_child(node_id: String, nexus_id: String, child_id: String) -> (r: (
    Filter,
    String,
))
    ensures
        r.0 == Filter::NodeNexus(node_id, nexus_id),
        r.1 == child_id,
{
    (Filter::NodeNexus(node_id, nexus_id), child_id)
}

/// The route table of the nexus children endpoints.
pub fn factory() -> (r: Vec<Route>)
    ensures
        r@.len() == 8,
        r@[0].method == Method::Get && r@[0].path@ == "/v0/nexuses/{nexus_id}/children"@
            && r@[0].handler == Handler::GetNexusChildren,
        r@[1].method == Method::Get && r@[1].path@
            == "/v0/nexuses/{nexus_id}/children/{child_id:.*}"@
            && r@[1].handler == Handler::GetNexusChild,
        r@[2].method == Method::Get && r@[2].path@
            == "/v0/nodes/{node_id}/nexuses/{nexus_id}/children"@
            && r@[2].handler == Handler::GetNodeNexusChildren,
        r@[3].method == Method::Get && r@[3].path@
            == "/v0/nodes/{node_id}/nexuses/{nexus_id}/children/{child_id:.*}"@
            && r@[3].handler == Handler::GetNodeNexusChild,
        r@[4].method == Method::Put && r@[4].path@
            == "/v0/nexuses/{nexus_id}/children/{child_id:.*}"@
            && r@[4].handler == Handler::AddNexusChild,
        r@[5].method == Method::Put && r@[5].path@
            == "/v0/nodes/{node_id}/nexuses/{nexus_id}/children/{child_id:.*}"@
            && r@[5].handler == Handler::AddNodeNexusChild,
        r@[6].method == Method::Delete && r@[6].path@
            == "/v0/nexuses/{nexus_id}/children/{child_id:.*}"@
            && r@[6].handler == Handler::DeleteNexusChild,
        r@[7].method == Method::Delete && r@[7].path@
            == "/v0/nodes/{node_id}/nexuses/{nexus_id}/children/{child_id:.*}"@
            && r@[7].handler == Handler::DeleteNodeNexusChild,
{
    let mut r: Vec<Route> = Vec::new();
    r.push(route(Method::Get, "/v0/nexuses/{nexus_id}/children", Handler::GetNexusChildren));
    r.push(route(Method::Get, "/v0/nexuses/{nexus_id}/children/{child_id:.*}", Handler::GetNexusChild));
    r.push(route(Method::Get, "/v0/nodes/{node_id}/nexuses/{nexus_id}/children", Handler::GetNodeNexusChildren));
    r.push(route(Method::Get, "/v0/nodes/{node_id}/nexuses/{nexus_id}/children/{child_id:.*}", Handler::GetNodeNexusChild));
    r.push(route(Method::Put, "/v0/nexuses/{nexus_id}/children/{child_id:.*}", Handler::AddNexusChild));
    r.push(route(Method::Put, "/v0/nodes/{node_id}/nexuses/{nexus_id}/children/{child_id:.*}", Handler::AddNodeNexusChild));
    r.push(route(Method::Delete, "/v0/nexuses/{nexus_id}/children/{child_id:.*}", Handler::DeleteNexusChild));
    r.push(route(Method::Delete, "/v0/nodes/{node_id}/nexuses/{nexus_id}/children/{child_id:.*}", Handler::DeleteNodeNexusChild));
    r
}

} // verus!
