//! Volume endpoints: list/get by filter, create from the path-derived uuid
//! and body, and delete. Volume deletes are always fully addressed by the
//! uuid, so no cascading resolution is needed.

use vstd::prelude::*;

use crate::bodies::CreateVolumeBody;
use crate::message_bus::BusError;
use crate::message_bus::CreateVolume;
use crate::message_bus::DestroyVolume;
use crate::message_bus::Filter;
use crate::message_bus::Volume;
use crate::rest_error::error_response;
use crate::rest_error::is_error_response;
use crate::rest_error::JsonBody;
use crate::rest_error::RestResponse;
use crate::router::route;
use crate::router::Handler;
use crate::router::Method;
use crate::router::Route;

verus! {

/// The response to a fetched volume collection, or the error translation.
pub fn volumes_response(result: Result<Vec<Volume>, BusError>) -> (r: RestResponse)
    ensures
        match result {
            Ok(volumes) => r.status == 200 && r.body == JsonBody::Volumes(volumes),
            Err(e) => is_error_response(e, r),
        },
{
    match result {
        Ok(volumes) => RestResponse { status: 200, body: JsonBody::Volumes(volumes) },
        Err(e) => error_response(e),
    }
}

/// The response to a fetched volume, or the error translation.
pub fn volume_response(result: Result<Volume, BusError>) -> (r: RestResponse)
    ensures
        match result {
            Ok(volume) => r.status == 200 && r.body == JsonBody::Volume(volume),
            Err(e) => is_error_response(e, r),
        },
{
    match result {
        Ok(volume) => RestResponse { status: 200, body: JsonBody::Volume(volume) },
        Err(e) => error_response(e),
    }
}

/// Filter for listing every volume.
pub fn get_volumes() -> (f: Filter)
    ensures
        f == Filter::All,
{
    Filter::All
}

/// Filter for getting one volume by uuid.
pub fn get_volume(volume_id: String) -> (f: Filter)
    ensures
        f == Filter::Volume(volume_id),
{
    Filter::Volume(volume_id)
}

/// Filter for listing the volumes of a node.
pub fn get_node_volumes(node_id: String) -> (f: Filter)
    ensures
        f == Filter::Node(node_id),
{
    Filter::Node(node_id)
}

/// Filter for getting one volume qualified by a node.
pub fn get_node_volume(node_id: String, volume_id: String) -> (f: Filter)
    ensures
        f == Filter::NodeVolume(node_id, volume_id),
{
    Filter::NodeVolume(node_id, volume_id)
}

/// Builds the create request for a volume from the path-derived uuid and
/// the body's resource-owned attributes.
pub fn put_volume(volume_id: String, body: &CreateVolumeBody) -> (r: CreateVolume)
    ensures
        r.uuid == volume_id,
        r.size == body.size,
        r.nexuses == body.nexuses,
        r.replicas == body.replicas,
{
    body.bus_request(volume_id)
}

/// Builds the destroy request for a volume, addressed by the uuid alone.
pub fn del_nexus(volume_id: String) -> (d: DestroyVolume)
    ensures
        d.uuid == volume_id,
{
    DestroyVolume { uuid: volume_id }
}

/// The route table of the volume endpoints.
pub fn factory() -> (r: Vec<Route>)
    ensures
        r@.len() == 6,
        r@[0].method == Method::Get && r@[0].path@ == "/v0/volumes"@ && r@[0].handler
            == Handler::GetVolumes,
        r@[1].method == Method::Get && r@[1].path@ == "/v0/volumes/{volume_id}"@ && r@[1].handler
            == Handler::GetVolume,
        r@[2].method == Method::Get && r@[2].path@ == "/v0/nodes/{node_id}/volumes"@
            && r@[2].handler == Handler::GetNodeVolumes,
        r@[3].method == Method::Get && r@[3].path@ == "/v0/nodes/{node_id}/volumes/{volume_id}"@
            && r@[3].handler == Handler::GetNodeVolume,
        r@[4].method == Method::Put && r@[4].path@ == "/v0/volumes/{volume_id}"@ && r@[4].handler
            == Handler::PutVolume,
        r@[5].method == Method::Delete && r@[5].path@ == "/v0/volumes/{volume_id}"@
            && r@[5].handler == Handler::DelVolume,
{
    let mut r: Vec<Route> = Vec::new();
    r.push(route(Method::Get, "/v0/volumes", Handler::GetVolumes));
    r.push(route(Method::Get, "/v0/volumes/{volume_id}", Handler::GetVolume));
    r.push(route(Method::Get, "/v0/nodes/{node_id}/volumes", Handler::GetNodeVolumes));
    r.push(route(Method::Get, "/v0/nodes/{node_id}/volumes/{volume_id}", Handler::GetNodeVolume));
    r.push(route(Method::Put, "/v0/volumes/{volume_id}", Handler::PutVolume));
    r.push(route(Method::Delete, "/v0/volumes/{volume_id}", Handler::DelVolume));
    r
}

} // verus!
