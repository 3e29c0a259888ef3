use rest_gateway::bodies::CreatePoolBody;
use rest_gateway::message_bus::BusError;
use rest_gateway::message_bus::Filter;
use rest_gateway::message_bus::Nexus;
use rest_gateway::message_bus::Pool;
use rest_gateway::message_bus::PoolState;
use rest_gateway::nexuses::destroy_nexus;
use rest_gateway::nexuses::destroy_nexus_resolved;
use rest_gateway::nexuses::DestroyNexusStep;
use rest_gateway::pools::del_pool;
use rest_gateway::pools::destroy_pool;
use rest_gateway::pools::destroy_pool_resolved;
use rest_gateway::pools::pool_response;
use rest_gateway::pools::put_node_pool;
use rest_gateway::pools::DestroyPoolStep;
use rest_gateway::rest_error::unit_response;
use rest_gateway::rest_error::JsonBody;

fn pool_on(node: &str, name: &str) -> Pool {
    Pool {
        node: node.to_string(),
        name: name.to_string(),
        disks: vec!["/dev/sdb".to_string()],
        state: PoolState::Online,
        capacity: 100 * 1024 * 1024,
        used: 0,
    }
}

#[test]
fn fully_qualified_pool_delete_destroys_directly() {
    let step = destroy_pool(Filter::NodePool("n1".to_string(), "p1".to_string()));
    match step {
        DestroyPoolStep::Destroy(d) => {
            assert_eq!(d.node, "n1");
            assert_eq!(d.name, "p1");
        }
        _ => panic!("expected a direct destroy"),
    }
}

#[test]
fn partially_qualified_pool_delete_resolves_to_the_same_destroy_request() {
    // Addressed by pool id alone: first a lookup with that same filter.
    let step = destroy_pool(Filter::Pool("p1".to_string()));
    let (filter, pool_id) = match step {
        DestroyPoolStep::Lookup { filter, pool_id } => (filter, pool_id),
        _ => panic!("expected a lookup step"),
    };
    assert!(matches!(&filter, Filter::Pool(id) if id == "p1"));

    // The backend says the owning node is n1: the resolved destroy request
    // equals the one Filter::NodePool(n1, p1) builds directly.
    let resolved = destroy_pool_resolved(pool_id, Ok(pool_on("n1", "p1"))).unwrap();
    assert_eq!(resolved.node, "n1");
    assert_eq!(resolved.name, "p1");
}

#[test]
fn failed_pool_lookup_short_circuits_the_delete() {
    let r = destroy_pool_resolved("p1".to_string(), Err(BusError::NotFound));
    assert!(matches!(r, Err(BusError::NotFound)));
}

#[test]
fn pool_delete_with_a_foreign_filter_is_rejected() {
    let step = destroy_pool(Filter::Replica("r1".to_string()));
    assert!(matches!(step, DestroyPoolStep::Reject));

    // The rejection is a caller error raised before any backend call, not
    // the backend's not-found mapping.
    let r = rest_gateway::pools::destroy_pool_rejected();
    assert_eq!(r.status, 400);
    match r.body {
        JsonBody::Error { error, message } => {
            assert_eq!(error, "InvalidFilter");
            assert_eq!(message, "Invalid filter for pool deletes");
        }
        _ => panic!("expected a structured error body"),
    }
}

#[test]
fn nexus_delete_with_a_foreign_filter_is_rejected() {
    let step = destroy_nexus(Filter::Volume("v1".to_string()));
    assert!(matches!(step, DestroyNexusStep::Reject));

    let r = rest_gateway::nexuses::destroy_nexus_rejected();
    assert_eq!(r.status, 400);
    match r.body {
        JsonBody::Error { error, message } => {
            assert_eq!(error, "InvalidFilter");
            assert_eq!(message, "Invalid filter for nexus deletes");
        }
        _ => panic!("expected a structured error body"),
    }
}

#[test]
fn nexus_delete_mirrors_the_pool_resolver() {
    let step = destroy_nexus(Filter::NodeNexus("n1".to_string(), "x1".to_string()));
    match step {
        DestroyNexusStep::Destroy(d) => {
            assert_eq!(d.node, "n1");
            assert_eq!(d.uuid, "x1");
        }
        _ => panic!("expected a direct destroy"),
    }

    let step = destroy_nexus(Filter::Nexus("x1".to_string()));
    let (filter, nexus_id) = match step {
        DestroyNexusStep::Lookup { filter, nexus_id } => (filter, nexus_id),
        _ => panic!("expected a lookup step"),
    };
    assert!(matches!(&filter, Filter::Nexus(id) if id == "x1"));

    let nexus = Nexus {
        node: "n1".to_string(),
        uuid: "x1".to_string(),
        size: 10 * 1024 * 1024,
        children: vec![],
    };
    let resolved = destroy_nexus_resolved(nexus_id, Ok(nexus)).unwrap();
    assert_eq!(resolved.node, "n1");
    assert_eq!(resolved.uuid, "x1");

    let r = destroy_nexus_resolved("x1".to_string(), Err(BusError::NotFound));
    assert!(matches!(r, Err(BusError::NotFound)));
}

#[test]
fn create_then_delete_by_pool_id_resolves_the_owning_node() {
    // PUT /v0/nodes/n1/pools/p1 {disks: ["/dev/sdb"]}
    let body = CreatePoolBody { disks: vec!["/dev/sdb".to_string()] };
    let create = put_node_pool("n1".to_string(), "p1".to_string(), &body);
    assert_eq!(create.node, "n1");
    assert_eq!(create.name, "p1");
    assert_eq!(create.disks, vec!["/dev/sdb".to_string()]);

    // The backend creates the pool and answers with it: 200 and the pool.
    let mut backend: Vec<Pool> = Vec::new();
    backend.push(Pool {
        node: create.node,
        name: create.name,
        disks: create.disks,
        state: PoolState::Online,
        capacity: 100 * 1024 * 1024,
        used: 0,
    });
    let r = pool_response(Ok(pool_on("n1", "p1")));
    assert_eq!(r.status, 200);
    match r.body {
        JsonBody::Pool(p) => {
            assert_eq!(p.node, "n1");
            assert_eq!(p.name, "p1");
            assert_eq!(p.disks, vec!["/dev/sdb".to_string()]);
        }
        _ => panic!("expected a pool body"),
    }

    // DELETE /v0/pools/p1: the resolver first reads the pool to learn the
    // owning node, then builds the fully qualified destroy request.
    let step = del_pool("p1".to_string());
    let (filter, pool_id) = match step {
        DestroyPoolStep::Lookup { filter, pool_id } => (filter, pool_id),
        _ => panic!("expected a lookup step"),
    };
    let looked_up = match &filter {
        Filter::Pool(id) => backend.iter().find(|p| &p.name == id),
        _ => panic!("expected a pool filter"),
    };
    let looked_up = looked_up.expect("the pool was just created");
    let destroy = destroy_pool_resolved(
        pool_id,
        Ok(pool_on(&looked_up.node, &looked_up.name)),
    )
    .unwrap();
    assert_eq!(destroy.node, "n1");
    assert_eq!(destroy.name, "p1");

    // The backend destroys the pool; the deletion answers 200 and empty.
    backend.retain(|p| p.name != destroy.name);
    assert!(backend.is_empty());
    let r = unit_response(Ok(()));
    assert_eq!(r.status, 200);
    assert!(matches!(r.body, JsonBody::Empty));
}
