use hbbs::net::{IpAddress, LanMask, SocketAddress};
use hbbs::rendezvous_server::{
    Data, ListenPorts, LoopAction, LoopEvent, LoopFailure, PkRoute, PunchHole, RendezvousServer,
    ServerKey, Settings, StartError, Timers,
};

fn settings(mask: &str, relays: &[&str], always: &str) -> Settings {
    Settings {
        software_url: "https://example.org/app-1.2.3.exe".to_owned(),
        version: "1.2.3".to_owned(),
        mask: mask.to_owned(),
        local_ip: "192.168.0.2".to_owned(),
        rendezvous_servers: vec!["rs.example.org".to_owned()],
        relay_servers: relays.iter().map(|s| s.to_string()).collect(),
        always_use_relay: always.to_owned(),
    }
}

fn server(mask: &str, relays: &[&str], always: &str) -> RendezvousServer {
    RendezvousServer::start(21116, 7, "key".to_owned(), None, settings(mask, relays, always)).unwrap()
}

fn v4(a: u8, b: u8, c: u8, d: u8, port: u16) -> SocketAddress {
    SocketAddress { ip: IpAddress::V4(u32::from_be_bytes([a, b, c, d])), port }
}

#[test]
fn ports_lie_beside_the_main_port() {
    assert_eq!(
        RendezvousServer::listen_ports(21116),
        Ok(ListenPorts { main: 21116, nat: 21115, ws: 21118 })
    );
    assert_eq!(RendezvousServer::listen_ports(3), Ok(ListenPorts { main: 3, nat: 2, ws: 5 }));
    assert_eq!(RendezvousServer::listen_ports(2), Err(StartError::InvalidPort));
    assert_eq!(RendezvousServer::listen_ports(-1), Err(StartError::InvalidPort));
    assert_eq!(RendezvousServer::listen_ports(i32::MAX - 1), Err(StartError::InvalidPort));
    let ports = ListenPorts { main: 10, nat: 9, ws: 12 };
    assert_eq!(LoopFailure::UdpSocket.port(ports), 10);
    assert_eq!(LoopFailure::Listener.port(ports), 10);
    assert_eq!(LoopFailure::Listener2.port(ports), 9);
    assert_eq!(LoopFailure::Listener3.port(ports), 12);
}

#[test]
fn start_refuses_a_port_without_room() {
    let r = RendezvousServer::start(1, 0, String::new(), None, settings("", &[], ""));
    assert!(matches!(r, Err(StartError::InvalidPort)));
}

#[test]
fn start_takes_over_the_settings() {
    let rs = server("192.168.0.0/16", &["r1", "r2"], "y");
    assert_eq!(rs.ports, ListenPorts { main: 21116, nat: 21115, ws: 21118 });
    assert_eq!(rs.inner.serial, 7);
    assert_eq!(rs.inner.version, "1.2.3");
    assert_eq!(rs.inner.local_ip, "192.168.0.2");
    assert_eq!(rs.key, "key");
    assert!(rs.always_use_relay);
    assert_eq!(rs.relay_servers.configured, vec!["r1".to_owned(), "r2".to_owned()]);
    assert_eq!(rs.relay_servers.healthy, vec!["r1".to_owned(), "r2".to_owned()]);
    let mask = rs.inner.mask.unwrap();
    assert_eq!(mask.address(), 0xc0a8_0000);
    assert_eq!(mask.prefix(), 16);

    let rs = server("not a mask", &[], "N");
    assert!(rs.inner.mask.is_none());
    assert_eq!(rs.inner.local_ip, "");
    assert!(!rs.always_use_relay);
}

#[test]
fn key_setting_that_is_a_secret_key_gives_its_public_half() {
    let sk: Vec<u8> = (0u8..64).collect();
    let setting = base64::encode(&sk);
    match RendezvousServer::get_server_sk(&setting) {
        ServerKey::Settled { key, sk: Some(secret) } => {
            assert_eq!(key, base64::encode(&sk[32..]));
            assert_eq!(secret, sk);
        }
        _ => panic!("the setting holds a secret key"),
    }
}

#[test]
fn key_setting_that_is_no_secret_key_stands_for_itself() {
    let short = base64::encode([1u8; 32]);
    for setting in ["my shared key", short.as_str(), "AAAA"] {
        match RendezvousServer::get_server_sk(setting) {
            ServerKey::Settled { key, sk: None } => assert_eq!(key, setting),
            _ => panic!("the setting stands for itself"),
        }
    }
}

#[test]
fn empty_and_placeholder_keys_ask_for_a_key_pair() {
    assert!(matches!(RendezvousServer::get_server_sk(""), ServerKey::Generate { publish: false }));
    assert!(matches!(RendezvousServer::get_server_sk("-"), ServerKey::Generate { publish: true }));
    assert!(matches!(RendezvousServer::get_server_sk("_"), ServerKey::Generate { publish: true }));

    let made = (String::from("PUBLIC"), Some(vec![1u8; 64]));
    let (key, sk) = ServerKey::Generate { publish: true }.resolve(made.0.clone(), made.1.clone());
    assert_eq!((key.as_str(), sk), ("PUBLIC", Some(vec![1u8; 64])));
    let (key, sk) = ServerKey::Generate { publish: false }.resolve(made.0.clone(), made.1.clone());
    assert_eq!((key.as_str(), sk), ("", Some(vec![1u8; 64])));
    let settled = ServerKey::Settled { key: "own".to_owned(), sk: None };
    let (key, sk) = settled.resolve(made.0, made.1);
    assert_eq!((key.as_str(), sk), ("own", None));
}

#[test]
fn lan_mask_is_read_in_cidr_notation() {
    let m = LanMask::parse("10.1.9.32/16").unwrap();
    assert_eq!((m.address(), m.prefix()), (u32::from_be_bytes([10, 1, 9, 32]), 16));
    let m = LanMask::parse("127.0.0.0").unwrap();
    assert_eq!((m.address(), m.prefix()), (0x7f00_0000, 32));
    let m = LanMask::parse("127.0.0.0/255.255.0.0").unwrap();
    assert_eq!((m.address(), m.prefix()), (0x7f00_0000, 16));
    assert!(LanMask::parse("").is_none());
    assert!(LanMask::parse("10.a.b/8").is_none());
    assert!(LanMask::parse("10.0.0.0/33").is_none());
    assert!(LanMask::new(0, 33).is_none());
    assert!(LanMask::new(0, 32).is_some());
}

#[test]
fn lan_membership_goes_by_the_prefix() {
    let m = LanMask::parse("127.0.0.0/24").unwrap();
    assert!(m.contains(IpAddress::V4(u32::from_be_bytes([127, 0, 0, 70]))));
    assert!(!m.contains(IpAddress::V4(u32::from_be_bytes([127, 0, 1, 70]))));
    let all = LanMask::new(0x0a00_0000, 0).unwrap();
    assert!(all.contains(IpAddress::V4(0xffff_ffff)));
    let one = LanMask::new(0x0a00_0001, 32).unwrap();
    assert!(one.contains(IpAddress::V4(0x0a00_0001)));
    assert!(!one.contains(IpAddress::V4(0x0a00_0000)));
    // the address of the network need not be its lowest one
    let odd = LanMask::parse("10.1.9.32/16").unwrap();
    assert!(odd.contains(IpAddress::V4(u32::from_be_bytes([10, 1, 200, 1]))));
    assert!(!odd.contains(IpAddress::V4(u32::from_be_bytes([10, 2, 9, 32]))));
}

#[test]
fn ipv6_addresses_count_by_the_ipv4_address_they_carry() {
    let rs = server("192.168.0.0/16", &[], "");
    let mapped = SocketAddress { ip: IpAddress::V6(0xffff_c0a8_0105), port: 1 };
    let compatible = SocketAddress { ip: IpAddress::V6(0xc0a8_0105), port: 1 };
    let other = SocketAddress { ip: IpAddress::V6((0x2001u128 << 112) | 0xc0a8_0105), port: 1 };
    let mapped_elsewhere = SocketAddress { ip: IpAddress::V6(0xffff_0a00_0001), port: 1 };
    assert!(rs.is_lan(mapped));
    assert!(rs.is_lan(compatible));
    assert!(!rs.is_lan(other));
    assert!(!rs.is_lan(mapped_elsewhere));
    assert!(rs.is_lan(v4(192, 168, 1, 5, 9)));
    assert!(!rs.is_lan(v4(10, 0, 0, 1, 9)));
    assert_eq!(IpAddress::V6(0xffff_c0a8_0105).to_ipv4(), Some(0xc0a8_0105));
    assert_eq!(IpAddress::V6(1).to_ipv4(), Some(1));
    assert_eq!(IpAddress::V6(1u128 << 32).to_ipv4(), None);

    let open = server("", &[], "");
    assert!(!open.is_lan(v4(192, 168, 1, 5, 9)));
}

#[test]
fn loop_events_lead_to_their_actions() {
    let mut rs = server("", &["r1", "r2"], "");
    assert_eq!(rs.io_loop(LoopEvent::RelayTimer), LoopAction::CheckRelayServers);
    assert_eq!(rs.io_loop(LoopEvent::PeerTimer), LoopAction::CheckOnlinePeers);
    assert_eq!(rs.io_loop(LoopEvent::StatsTimer), LoopAction::LogStats);
    assert_eq!(rs.io_loop(LoopEvent::Queued(Data::Msg)), LoopAction::Send);
    assert_eq!(rs.io_loop(LoopEvent::Datagram { handled: true }), LoopAction::Continue);
    assert_eq!(
        rs.io_loop(LoopEvent::Datagram { handled: false }),
        LoopAction::Fail(LoopFailure::UdpSocket)
    );
    assert_eq!(rs.io_loop(LoopEvent::SocketError), LoopAction::Fail(LoopFailure::UdpSocket));
    assert_eq!(rs.io_loop(LoopEvent::SocketEmpty), LoopAction::Continue);
    assert_eq!(rs.io_loop(LoopEvent::Accepted2 { ok: true }), LoopAction::ServeNatProbe);
    assert_eq!(
        rs.io_loop(LoopEvent::Accepted2 { ok: false }),
        LoopAction::Fail(LoopFailure::Listener2)
    );
    assert_eq!(rs.io_loop(LoopEvent::Accepted3 { ok: true }), LoopAction::Serve { ws: true });
    assert_eq!(
        rs.io_loop(LoopEvent::Accepted3 { ok: false }),
        LoopAction::Fail(LoopFailure::Listener3)
    );
    assert_eq!(rs.io_loop(LoopEvent::Accepted { ok: true }), LoopAction::Serve { ws: false });
    assert_eq!(
        rs.io_loop(LoopEvent::Accepted { ok: false }),
        LoopAction::Fail(LoopFailure::Listener)
    );

    let reachable = LoopEvent::Queued(Data::RelayServers(vec!["r2".to_owned()]));
    assert_eq!(rs.io_loop(reachable), LoopAction::Continue);
    assert_eq!(rs.relay_servers.healthy, vec!["r2".to_owned()]);
    assert_eq!(rs.relay_servers.configured, vec!["r1".to_owned(), "r2".to_owned()]);

    let configured = LoopEvent::Queued(Data::RelayServers0(vec!["only".to_owned()]));
    assert_eq!(rs.io_loop(configured), LoopAction::Continue);
    assert_eq!(rs.relay_servers.configured, vec!["only".to_owned()]);
    assert_eq!(rs.relay_servers.healthy, vec!["only".to_owned()]);
    assert_eq!(rs.io_loop(LoopEvent::RelayTimer), LoopAction::Continue);
}

#[test]
fn punch_hole_is_direct_in_the_lan_and_relayed_elsewhere() {
    let mut rs = server("192.168.0.0/16", &["relay-a", "relay-b"], "");
    let _ = rs.pm.update_pk("INSIDE", v4(192, 168, 0, 9, 5), &[1], &[2], "a", 0, &Ok(false));
    let _ = rs.pm.update_pk("OUTSIDE", v4(8, 8, 8, 8, 6), &[1], &[2], "a", 0, &Ok(false));

    assert!(matches!(
        rs.punch_hole(v4(192, 168, 0, 7, 1), "NOBODY"),
        PunchHole::Reply(hbbs::peer::RegisterPkResult::NOT_EXIST)
    ));
    match rs.punch_hole(v4(192, 168, 0, 7, 1), "INSIDE") {
        PunchHole::Direct { peer_addr } => assert_eq!(peer_addr, v4(192, 168, 0, 9, 5)),
        _ => panic!("two peers in the local network connect directly"),
    }
    assert_eq!(rs.relay_servers.rotation, 0);
    let mut relays = Vec::new();
    for (from, to) in [
        (v4(192, 168, 0, 7, 1), "OUTSIDE"),
        (v4(9, 9, 9, 9, 1), "INSIDE"),
        (v4(9, 9, 9, 9, 1), "OUTSIDE"),
    ] {
        match rs.punch_hole(from, to) {
            PunchHole::Relayed { relay_server, .. } => relays.push(relay_server),
            _ => panic!("a peer outside the local network needs a relay"),
        }
    }
    assert_eq!(relays, vec!["relay-a", "relay-b", "relay-a"]);

    let mut always = server("192.168.0.0/16", &["relay-a"], "Y");
    let _ = always.pm.update_pk("INSIDE", v4(192, 168, 0, 9, 5), &[1], &[2], "a", 0, &Ok(false));
    match always.punch_hole(v4(192, 168, 0, 7, 1), "INSIDE") {
        PunchHole::Relayed { peer_addr, relay_server } => {
            assert_eq!(peer_addr, v4(192, 168, 0, 9, 5));
            assert_eq!(relay_server, "relay-a");
        }
        _ => panic!("every connection is to be relayed"),
    }
}

#[test]
fn responses_are_signed_with_the_secret_key() {
    let (pk, sk) = sodiumoxide::crypto::sign::gen_keypair();
    let mut rs = server("", &[], "");
    assert_eq!(rs.sign(b"route"), None);
    rs.inner.sk = Some(vec![1u8; 10]);
    assert_eq!(rs.sign(b"route"), None);
    rs.inner.sk = Some(sk.0.to_vec());
    let signed = rs.sign(b"route").unwrap();
    assert_eq!(signed.len(), 64 + 5);
    assert_ne!(signed, b"route".to_vec());
    assert_eq!(sodiumoxide::crypto::sign::verify(&signed, &pk), Ok(b"route".to_vec()));
    assert_eq!(rs.sign(b"route").unwrap(), signed);
}

#[test]
fn timers_and_routes_follow_the_settings() {
    assert_eq!(
        RendezvousServer::timers(None),
        Timers { check_relay_ms: 3_000, check_peers_secs: 3, stats_secs: 60 }
    );
    assert_eq!(RendezvousServer::timers(Some("10")).check_peers_secs, 10);
    assert_eq!(RendezvousServer::timers(Some("soon")).check_peers_secs, 3);
    assert_eq!(RendezvousServer::register_pk_route(""), PkRoute::Register);
    assert_eq!(RendezvousServer::register_pk_route("OLD001"), PkRoute::Rename);
}

#[test]
fn clients_must_present_the_key_where_there_is_one() {
    let rs = server("", &[], "");
    assert!(rs.allows("key"));
    assert!(!rs.allows("other"));
    assert!(!rs.allows(""));
    let open = RendezvousServer::start(21116, 0, String::new(), None, settings("", &[], "")).unwrap();
    assert!(open.allows("anything"));
    assert!(open.allows(""));
}

#[test]
fn key_plans_follow_the_key() {
    assert!(matches!(ServerKey::plan(String::new(), None), ServerKey::Generate { publish: false }));
    assert!(matches!(ServerKey::plan("-".to_owned(), None), ServerKey::Generate { publish: true }));
    match ServerKey::plan("--".to_owned(), Some(vec![1])) {
        ServerKey::Settled { key, sk } => assert_eq!((key.as_str(), sk), ("--", Some(vec![1]))),
        _ => panic!("the key stands for itself"),
    }
    assert_eq!(RendezvousServer::secret_key(Some(vec![0; 64])), Some(vec![0; 64]));
    assert_eq!(RendezvousServer::secret_key(Some(vec![0; 63])), None);
    assert_eq!(RendezvousServer::secret_key(None), None);
    let sk: Vec<u8> = (0u8..64).collect();
    assert_eq!(RendezvousServer::public_half(&sk), (32u8..64).collect::<Vec<u8>>());
}
