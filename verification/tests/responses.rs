use rest_gateway::message_bus::BusError;
use rest_gateway::message_bus::Node;
use rest_gateway::message_bus::NodeState;
use rest_gateway::message_bus::Volume;
use rest_gateway::nexuses::share_response;
use rest_gateway::nodes::node_response;
use rest_gateway::nodes::nodes_response;
use rest_gateway::rest_error::JsonBody;
use rest_gateway::volumes::volume_response;
use rest_gateway::volumes::volumes_response;

fn node(id: &str) -> Node {
    Node {
        id: id.to_string(),
        grpc_endpoint: "0.0.0.0:10124".to_string(),
        state: NodeState::Online,
    }
}

#[test]
fn fetched_nodes_are_answered_as_a_collection() {
    let r = nodes_response(Ok(vec![node("n1"), node("n2")]));
    assert_eq!(r.status, 200);
    match r.body {
        JsonBody::Nodes(nodes) => {
            assert_eq!(nodes.len(), 2);
            assert_eq!(nodes[0].id, "n1");
            assert_eq!(nodes[1].id, "n2");
        }
        _ => panic!("expected a nodes body"),
    }
}

#[test]
fn a_fetched_node_is_answered_alone() {
    let r = node_response(Ok(node("n1")));
    assert_eq!(r.status, 200);
    match r.body {
        JsonBody::Node(n) => assert_eq!(n.id, "n1"),
        _ => panic!("expected a node body"),
    }
}

#[test]
fn a_missing_node_is_no_content() {
    let r = node_response(Err(BusError::NotFound));
    assert_eq!(r.status, 204);
    assert!(matches!(r.body, JsonBody::Empty));
}

#[test]
fn a_shared_nexus_answers_with_the_share_uri() {
    let r = share_response(Ok("nvmf://n1/x1".to_string()));
    assert_eq!(r.status, 200);
    match r.body {
        JsonBody::ShareUri(uri) => assert_eq!(uri, "nvmf://n1/x1"),
        _ => panic!("expected a share uri body"),
    }
}

#[test]
fn a_failed_share_is_translated_like_any_error() {
    let r = share_response(Err(BusError::NotUnique));
    assert_eq!(r.status, 500);
    assert!(matches!(r.body, JsonBody::Error { .. }));
}

#[test]
fn fetched_volumes_are_answered_as_a_collection() {
    let v = Volume { uuid: "v1".to_string(), size: 1024, children: vec![] };
    let r = volumes_response(Ok(vec![v]));
    assert_eq!(r.status, 200);
    match r.body {
        JsonBody::Volumes(volumes) => {
            assert_eq!(volumes.len(), 1);
            assert_eq!(volumes[0].uuid, "v1");
        }
        _ => panic!("expected a volumes body"),
    }
}

#[test]
fn a_fetched_volume_is_answered_alone() {
    let v = Volume { uuid: "v1".to_string(), size: 1024, children: vec![] };
    let r = volume_response(Ok(v));
    assert_eq!(r.status, 200);
    match r.body {
        JsonBody::Volume(volume) => assert_eq!(volume.uuid, "v1"),
        _ => panic!("expected a volume body"),
    }
}
