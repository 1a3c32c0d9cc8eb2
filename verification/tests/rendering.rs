//! Rendering the routing daemon's configuration from a roster snapshot.

use peerd::bird::{ExtractError, PeerProps};
use peerd::render::{
    render_roster, Peer, PeersProbe, RenderOutcome, RouteKind, ZoneBirdConf, ZoneSnapshot,
};

fn props_of(pairs: &[(&str, &str)]) -> PeerProps {
    let mut entries: Vec<(Vec<u8>, Vec<u8>)> = Vec::new();
    for (k, v) in pairs {
        entries.push((k.as_bytes().to_vec(), v.as_bytes().to_vec()));
    }
    PeerProps { entries }
}

fn edge_zone(peers: Vec<Peer>) -> ZoneSnapshot {
    ZoneSnapshot {
        bird: Some(ZoneBirdConf {
            protocol_prefix: b"bgp-".to_vec(),
            bgp_template: b"t_bgp".to_vec(),
        }),
        peers: PeersProbe::Available(peers),
    }
}

fn alice(props: PeerProps) -> Peer {
    Peer { name: b"alice".to_vec(), route: RouteKind::Bird, props, ifname: None }
}

fn rendered(zones: &Vec<ZoneSnapshot>) -> Vec<u8> {
    match render_roster(zones) {
        RenderOutcome::Rendered(text) => text,
        _ => panic!("expected a rendered artifact"),
    }
}

#[test]
fn end_to_end_scenario() {
    let props = props_of(&[("bgp_endpoint", "10.0.0.5"), ("bgp_neighbor_as", "65001")]);
    let zones = vec![edge_zone(vec![alice(props)])];
    let text = rendered(&zones);
    let expected = b"# generated by peerd\nprotocol bgp bgp-alice from t_bgp { neighbor 10.0.0.5  as 65001;  };";
    assert_eq!(text, expected.to_vec());
}

#[test]
fn end_to_end_scenario_with_port() {
    let props = props_of(&[
        ("bgp_endpoint", "10.0.0.5"),
        ("bgp_endpoint_port", "179"),
        ("bgp_neighbor_as", "65001"),
    ]);
    let zones = vec![edge_zone(vec![alice(props)])];
    let text = rendered(&zones);
    let expected = b"# generated by peerd\nprotocol bgp bgp-alice from t_bgp { neighbor 10.0.0.5  port 179  as 65001;  };";
    assert_eq!(text, expected.to_vec());
}

#[test]
fn interface_clause_when_resolved() {
    let props = props_of(&[("bgp_endpoint", "10.0.0.5"), ("bgp_neighbor_as", "65001")]);
    let mut peer = alice(props);
    peer.ifname = Some(b"wg0".to_vec());
    let zones = vec![edge_zone(vec![peer])];
    let text = rendered(&zones);
    let expected = b"# generated by peerd\nprotocol bgp bgp-alice from t_bgp { neighbor 10.0.0.5  as 65001; interface 'wg0'; };";
    assert_eq!(text, expected.to_vec());
}

#[test]
fn empty_roster_yields_header_only() {
    let zones: Vec<ZoneSnapshot> = Vec::new();
    assert_eq!(rendered(&zones), b"# generated by peerd".to_vec());
}

#[test]
fn disabled_zone_contributes_nothing() {
    let zones = vec![ZoneSnapshot { bird: None, peers: PeersProbe::Locked }];
    assert_eq!(rendered(&zones), b"# generated by peerd".to_vec());
}

#[test]
fn non_bgp_peer_contributes_nothing() {
    let peer = Peer {
        name: b"bob".to_vec(),
        route: RouteKind::Other,
        props: PeerProps { entries: Vec::new() },
        ifname: None,
    };
    let zones = vec![edge_zone(vec![peer])];
    assert_eq!(rendered(&zones), b"# generated by peerd".to_vec());
}

#[test]
fn rendering_twice_is_byte_identical() {
    let props = props_of(&[("bgp_endpoint", "10.0.0.5"), ("bgp_neighbor_as", "65001")]);
    let zones = vec![edge_zone(vec![alice(props)])];
    let first = rendered(&zones);
    let second = rendered(&zones);
    assert_eq!(first, second);
}

#[test]
fn locked_zone_defers_render() {
    let zones = vec![ZoneSnapshot {
        bird: Some(ZoneBirdConf {
            protocol_prefix: b"bgp-".to_vec(),
            bgp_template: b"t_bgp".to_vec(),
        }),
        peers: PeersProbe::Locked,
    }];
    assert!(matches!(render_roster(&zones), RenderOutcome::Deferred));
}

#[test]
fn malformed_peer_aborts_whole_render() {
    let good = alice(props_of(&[("bgp_endpoint", "10.0.0.5"), ("bgp_neighbor_as", "65001")]));
    let bad = Peer {
        name: b"mallory".to_vec(),
        route: RouteKind::Bird,
        props: props_of(&[("bgp_neighbor_as", "65001")]),
        ifname: None,
    };
    let zones = vec![edge_zone(vec![good, bad])];
    match render_roster(&zones) {
        RenderOutcome::Failed(e) => assert_eq!(e, ExtractError::EndpointMissing),
        _ => panic!("expected the render to fail"),
    }
}

#[test]
fn two_zones_render_in_order() {
    let z1 = edge_zone(vec![alice(props_of(&[
        ("bgp_endpoint", "10.0.0.5"),
        ("bgp_neighbor_as", "65001"),
    ]))]);
    let mut z2 = edge_zone(vec![Peer {
        name: b"carol".to_vec(),
        route: RouteKind::Bird,
        props: props_of(&[("bgp_endpoint", "192.0.2.9"), ("bgp_neighbor_as", "65002")]),
        ifname: None,
    }]);
    if let Some(conf) = &mut z2.bird {
        conf.protocol_prefix = b"ix-".to_vec();
        conf.bgp_template = b"t_ix".to_vec();
    }
    let text = rendered(&vec![z1, z2]);
    let expected = b"# generated by peerd\nprotocol bgp bgp-alice from t_bgp { neighbor 10.0.0.5  as 65001;  };\nprotocol bgp ix-carol from t_ix { neighbor 192.0.2.9  as 65002;  };";
    assert_eq!(text, expected.to_vec());
}
