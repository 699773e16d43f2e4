use layer_sharing::browser::initialize_payload;
use layer_sharing::host::{HostAction, HostApp};
use layer_sharing::ipc::{InitialInfo, Payload};
use layer_sharing::layer_tree::{find_ca_layer_host, get_ca_context_id, CaLayer};

fn plain(sublayers: Vec<CaLayer>) -> CaLayer {
    CaLayer { host_context: None, sublayers }
}

fn host(id: u32, sublayers: Vec<CaLayer>) -> CaLayer {
    CaLayer { host_context: Some(id), sublayers }
}

#[test]
fn empty_tree_has_no_host() {
    let root = plain(vec![]);
    assert!(find_ca_layer_host(&root).is_none());
    assert_eq!(get_ca_context_id(&root), None);
}

#[test]
fn root_itself_is_not_searched() {
    let root = host(5, vec![plain(vec![])]);
    assert_eq!(get_ca_context_id(&root), None);
}

#[test]
fn direct_sublayer_host_is_found() {
    let root = plain(vec![plain(vec![]), host(42, vec![]), host(43, vec![])]);
    assert_eq!(get_ca_context_id(&root), Some(42));
    let found = find_ca_layer_host(&root).unwrap();
    assert_eq!(found.host_context, Some(42));
}

#[test]
fn search_is_depth_first_in_order() {
    // The nested host in the first subtree comes before the shallow host in
    // the second one.
    let root = plain(vec![
        plain(vec![plain(vec![]), plain(vec![host(7, vec![])])]),
        host(8, vec![]),
    ]);
    assert_eq!(get_ca_context_id(&root), Some(7));
}

#[test]
fn search_does_not_descend_into_a_host() {
    let root = plain(vec![host(1, vec![host(2, vec![])]), host(3, vec![])]);
    assert_eq!(get_ca_context_id(&root), Some(1));
}

#[test]
fn deep_host_is_found() {
    let mut layer = host(99, vec![]);
    for _ in 0..50 {
        layer = plain(vec![plain(vec![]), layer]);
    }
    let root = plain(vec![layer]);
    assert_eq!(get_ca_context_id(&root), Some(99));
}

#[test]
fn initialize_payload_carries_context_and_size() {
    let root = plain(vec![plain(vec![host(1234, vec![])])]);
    let payload = initialize_payload(&root, 800, 600);
    assert_eq!(
        payload,
        Some(Payload::Initialize(InitialInfo { context_id: 1234, window_width: 800, window_height: 600 }))
    );
}

#[test]
fn initialize_payload_without_host_is_none() {
    let root = plain(vec![plain(vec![plain(vec![])])]);
    assert_eq!(initialize_payload(&root, 800, 600), None);
}

#[test]
fn host_shows_the_context_the_browser_shares() {
    let root = plain(vec![plain(vec![]), plain(vec![host(31337, vec![])])]);
    let payload = initialize_payload(&root, 640, 480).unwrap();
    let info = payload.initial_info().unwrap();
    let mut app = HostApp::new(info);
    assert_eq!(
        app.resumed(),
        vec![
            HostAction::CreateWindow { width: 640, height: 480 },
            HostAction::InjectLayerHost { context_id: 31337 },
        ]
    );
}
