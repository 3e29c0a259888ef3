use rest_gateway::bodies::CreateNexusBody;
use rest_gateway::bodies::CreateReplicaBody;
use rest_gateway::bodies::CreateVolumeBody;
use rest_gateway::children;
use rest_gateway::message_bus::CreatePool;
use rest_gateway::message_bus::CreateReplica;
use rest_gateway::message_bus::Filter;
use rest_gateway::message_bus::Protocol;
use rest_gateway::nexuses;
use rest_gateway::nodes;
use rest_gateway::pools;
use rest_gateway::router::Handler;
use rest_gateway::router::Method;
use rest_gateway::volumes;

fn s(x: &str) -> String {
    x.to_string()
}

#[test]
fn the_route_tables_cover_every_endpoint() {
    assert_eq!(nodes::factory().len(), 2);
    assert_eq!(pools::factory().len(), 7);
    assert_eq!(nexuses::factory().len(), 9);
    assert_eq!(children::factory().len(), 8);
    assert_eq!(volumes::factory().len(), 6);
}

#[test]
fn pool_routes_are_registered_under_their_paths() {
    let routes = pools::factory();
    assert_eq!(routes[0].method, Method::Get);
    assert_eq!(routes[0].path, "/v0/pools");
    assert_eq!(routes[0].handler, Handler::GetPools);
    assert_eq!(routes[4].method, Method::Put);
    assert_eq!(routes[4].path, "/v0/nodes/{node_id}/pools/{pool_id}");
    assert_eq!(routes[4].handler, Handler::PutNodePool);
    assert_eq!(routes[6].method, Method::Delete);
    assert_eq!(routes[6].path, "/v0/pools/{pool_id}");
    assert_eq!(routes[6].handler, Handler::DelPool);
}

#[test]
fn child_routes_allow_embedded_slashes_in_the_child_segment() {
    let routes = children::factory();
    assert_eq!(routes[1].method, Method::Get);
    assert_eq!(routes[1].path, "/v0/nexuses/{nexus_id}/children/{child_id:.*}");
    assert_eq!(routes[1].handler, Handler::GetNexusChild);
    assert_eq!(routes[5].method, Method::Put);
    assert_eq!(
        routes[5].path,
        "/v0/nodes/{node_id}/nexuses/{nexus_id}/children/{child_id:.*}"
    );
    assert_eq!(routes[5].handler, Handler::AddNodeNexusChild);
}

#[test]
fn share_routes_are_nexus_only() {
    let routes = nexuses::factory();
    assert_eq!(routes[7].method, Method::Put);
    assert_eq!(routes[7].path, "/v0/nodes/{node_id}/nexuses/{nexus_id}/share/{protocol}");
    assert_eq!(routes[7].handler, Handler::PutNodeNexusShare);
    assert_eq!(routes[8].method, Method::Delete);
    assert_eq!(routes[8].path, "/v0/nodes/{node_id}/nexuses/{nexus_id}/share");
    assert_eq!(routes[8].handler, Handler::DelNodeNexusShare);
}

#[test]
fn list_and_get_filters_follow_the_path_shape() {
    assert!(matches!(pools::get_pools(), Filter::All));
    assert!(matches!(pools::get_pool(s("p1")), Filter::Pool(id) if id == "p1"));
    assert!(matches!(pools::get_node_pools(s("n1")), Filter::Node(id) if id == "n1"));
    assert!(matches!(
        pools::get_node_pool(s("n1"), s("p1")),
        Filter::NodePool(n, p) if n == "n1" && p == "p1"
    ));

    assert!(matches!(nexuses::get_nexuses(), Filter::All));
    assert!(matches!(nexuses::get_nexus(s("x1")), Filter::Nexus(id) if id == "x1"));
    assert!(matches!(nexuses::get_node_nexuses(s("n1")), Filter::Node(id) if id == "n1"));
    assert!(matches!(
        nexuses::get_node_nexus(s("n1"), s("x1")),
        Filter::NodeNexus(n, x) if n == "n1" && x == "x1"
    ));

    assert!(matches!(volumes::get_volumes(), Filter::All));
    assert!(matches!(volumes::get_volume(s("v1")), Filter::Volume(id) if id == "v1"));
    assert!(matches!(volumes::get_node_volumes(s("n1")), Filter::Node(id) if id == "n1"));
    assert!(matches!(
        volumes::get_node_volume(s("n1"), s("v1")),
        Filter::NodeVolume(n, v) if n == "n1" && v == "v1"
    ));

    let (f, child) = children::get_nexus_child(s("x1"), s("/dev/sda"));
    assert!(matches!(f, Filter::Nexus(id) if id == "x1"));
    assert_eq!(child, "/dev/sda");
    let (f, child) = children::delete_node_nexus_child(s("n1"), s("x1"), s("/dev/sda"));
    assert!(matches!(f, Filter::NodeNexus(n, x) if n == "n1" && x == "x1"));
    assert_eq!(child, "/dev/sda");
}

#[test]
fn bodies_are_enriched_with_the_path_derived_ids() {
    let body = CreateReplicaBody { size: 4096, thin: true, share: Protocol::Nvmf };
    let r = body.bus_request(s("n1"), s("p1"), s("r1"));
    assert_eq!(r.node, "n1");
    assert_eq!(r.pool, "p1");
    assert_eq!(r.uuid, "r1");
    assert_eq!(r.size, 4096);
    assert!(r.thin);
    assert_eq!(r.share, Protocol::Nvmf);

    let body = CreateNexusBody { size: 8192, children: vec![s("aio:///dev/sda")] };
    let r = nexuses::put_node_nexus(s("n1"), s("x1"), &body);
    assert_eq!(r.node, "n1");
    assert_eq!(r.uuid, "x1");
    assert_eq!(r.size, 8192);
    assert_eq!(r.children, vec![s("aio:///dev/sda")]);

    let body = CreateVolumeBody { size: 16384, nexuses: 1, replicas: 2 };
    let r = volumes::put_volume(s("v1"), &body);
    assert_eq!(r.uuid, "v1");
    assert_eq!(r.size, 16384);
    assert_eq!(r.nexuses, 1);
    assert_eq!(r.replicas, 2);

    let r = volumes::del_nexus(s("v1"));
    assert_eq!(r.uuid, "v1");
}

#[test]
fn bodies_come_from_typed_requests_by_dropping_the_address() {
    let create = CreatePool { node: s("n1"), name: s("p1"), disks: vec![s("/dev/sdb")] };
    let body = rest_gateway::bodies::CreatePoolBody::from(create);
    assert_eq!(body.disks, vec![s("/dev/sdb")]);

    let create = CreateReplica {
        node: s("n1"),
        uuid: s("r1"),
        pool: s("p1"),
        size: 4096,
        thin: false,
        share: Protocol::Iscsi,
    };
    let body = CreateReplicaBody::from(create);
    assert_eq!(body.size, 4096);
    assert!(!body.thin);
    assert_eq!(body.share, Protocol::Iscsi);
}

#[test]
fn share_requests_carry_no_key_and_the_path_protocol() {
    let share = nexuses::put_node_nexus_share(s("n1"), s("x1"), Protocol::Nvmf);
    assert_eq!(share.node, "n1");
    assert_eq!(share.uuid, "x1");
    assert!(share.key.is_none());
    assert_eq!(share.protocol, Protocol::Nvmf);

    let unshare = nexuses::del_node_nexus_share(s("n1"), s("x1"));
    assert_eq!(unshare.node, "n1");
    assert_eq!(unshare.uuid, "x1");
}
