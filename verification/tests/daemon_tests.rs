use beacon::beacon::{Beacon, Command, Message};
use beacon::cli::BeaconCli;
use beacon::discovery::record_peer;
use beacon::crypto::Keypair;
use beacon::beacon::{topic_name, BeaconSub};
use beacon::p2p::{
    daemon_action, dial_address, mdns_view_changes, DaemonAction, MdnsUpdate, MessageReport,
    P2pNode, ViewChange,
};

fn cli(args: &[&str]) -> BeaconCli {
    BeaconCli { args: args.iter().map(|s| s.to_string()).collect() }
}

#[test]
fn test_main() {
    println!("test_main");
}

#[test]
fn cli_commands() {
    assert_eq!(cli(&["beacon", "create", "lamp"]).get_command(), Command::Create("lamp".to_string()));
    assert_eq!(cli(&["beacon", "delete", "lamp"]).get_command(), Command::Delete("lamp".to_string()));
    assert_eq!(
        cli(&["beacon", "broadcast", "lamp", "true"]).get_command(),
        Command::Broadcast("lamp".to_string(), true)
    );
    assert_eq!(
        cli(&["beacon", "broadcast", "lamp", "false"]).get_command(),
        Command::Broadcast("lamp".to_string(), false)
    );
    assert_eq!(
        cli(&["beacon", "subscribe", "lamp", "abcd"]).get_command(),
        Command::Subscribe { name: "lamp".to_string(), pubkey: "abcd".to_string() }
    );
    assert_eq!(
        cli(&["beacon", "unsubscribe", "lamp"]).get_command(),
        Command::Unsubscribe("lamp".to_string())
    );
    let mut c = cli(&["beacon", "create", "lamp", "extra"]);
    assert_eq!(c.get_command(), Command::Create("lamp".to_string()));
    assert_eq!(c.args.len(), 4);
}

#[test]
fn cli_refuses_what_it_cannot_parse() {
    assert!(cli(&["beacon", "create", "lamp"]).accepts_args());
    assert!(!cli(&["beacon", "create"]).accepts_args());
    assert!(!cli(&["beacon"]).accepts_args());
    assert!(!cli(&["beacon", "launch", "lamp"]).accepts_args());
    assert!(!cli(&["beacon", "broadcast", "lamp"]).accepts_args());
    assert!(!cli(&["beacon", "broadcast", "lamp", "yes"]).accepts_args());
    assert!(!cli(&["beacon", "broadcast", "lamp", "True"]).accepts_args());
    assert!(cli(&["beacon", "broadcast", "lamp", "false"]).accepts_args());
    assert!(!cli(&["beacon", "subscribe", "lamp"]).accepts_args());
    assert!(cli(&["beacon", "subscribe", "lamp", "k"]).accepts_args());
}

#[test]
fn discovery_records_each_peer_once() {
    let mut peers: Vec<String> = Vec::new();
    record_peer(&mut peers, "10.0.0.1".to_string());
    record_peer(&mut peers, "10.0.0.2".to_string());
    record_peer(&mut peers, "10.0.0.1".to_string());
    record_peer(&mut peers, "10.0.0.2".to_string());
    record_peer(&mut peers, "10.0.0.3".to_string());
    assert_eq!(peers, vec!["10.0.0.1", "10.0.0.2", "10.0.0.3"]);
}

#[test]
fn mdns_changes() {
    assert_eq!(
        mdns_view_changes(&MdnsUpdate::Discovered(3)),
        vec![ViewChange::Add(0), ViewChange::Add(1), ViewChange::Add(2)]
    );
    assert_eq!(mdns_view_changes(&MdnsUpdate::Discovered(0)), vec![]);
    assert_eq!(
        mdns_view_changes(&MdnsUpdate::Expired(vec![false, true, false, true])),
        vec![ViewChange::Remove(0), ViewChange::Remove(2)]
    );
    assert_eq!(mdns_view_changes(&MdnsUpdate::Expired(vec![true])), vec![]);
}

fn copy(m: &Message, beacon_state: bool, broadcast_time: i64) -> Message {
    Message { beacon_state, broadcast_time, pubkey: m.pubkey.clone(), sig: m.sig.clone() }
}

#[test]
fn node_reports_only_news() {
    let b = Beacon::new(&String::from("lamp")).unwrap();
    let expected_hex: String =
        b.keypair.public.to_bytes().iter().map(|x| format!("{:02x}", x)).collect();
    let mut node = P2pNode::new(None).unwrap();

    let first = b.create_message_at(true, 7);
    assert_eq!(
        node.receive_message(first),
        MessageReport::StateChanged { pubkey_hex: expected_hex.clone(), beacon_state: true }
    );
    assert_eq!(node.watched.len(), 1);
    assert_eq!(node.watched[0].name, expected_hex);

    // same time, then older: stale, state kept
    assert_eq!(node.receive_message(b.create_message_at(false, 7)), MessageReport::Stale);
    assert_eq!(node.receive_message(b.create_message_at(false, 3)), MessageReport::Stale);
    let kept = node.watched[0].last_message.as_ref().unwrap();
    assert_eq!(kept.broadcast_time, 7);
    assert!(kept.beacon_state);

    // a forged message changes nothing
    let forged = copy(kept, false, 9);
    assert_eq!(node.receive_message(forged), MessageReport::BadSignature);
    assert_eq!(node.watched[0].last_message.as_ref().unwrap().broadcast_time, 7);

    // newer: taken as the new state
    assert_eq!(
        node.receive_message(b.create_message_at(false, 8)),
        MessageReport::StateChanged { pubkey_hex: expected_hex.clone(), beacon_state: false }
    );
    assert_eq!(node.watched.len(), 1);
    let kept = node.watched[0].last_message.as_ref().unwrap();
    assert_eq!(kept.broadcast_time, 8);
    assert!(!kept.beacon_state);

    // another beacon gets its own entry
    let other = Beacon::new(&String::from("door")).unwrap();
    assert!(matches!(
        node.receive_message(other.create_message_at(true, 1)),
        MessageReport::StateChanged { beacon_state: true, .. }
    ));
    assert_eq!(node.watched.len(), 2);
    assert_eq!(node.my_beacons.len(), 0);
}

#[test]
fn subscription_accepts_newer_signed_messages_of_its_beacon() {
    let b = Beacon::new(&String::from("lamp")).unwrap();
    let other = Beacon::new(&String::from("door")).unwrap();
    let mut sub = BeaconSub {
        name: "lamp".to_string(),
        pubkey: b.keypair.public.clone(),
        last_message: None,
    };
    assert!(!sub.accept_message(other.create_message_at(true, 5)));
    assert!(sub.last_message.is_none());
    assert!(sub.accept_message(b.create_message_at(true, 5)));
    assert_eq!(sub.last_message.as_ref().unwrap().broadcast_time, 5);
    assert!(!sub.accept_message(b.create_message_at(false, 4)));
    assert!(!sub.accept_message(b.create_message_at(false, 5)));
    let kept = sub.last_message.as_ref().unwrap();
    assert!(kept.beacon_state);
    let forged = copy(kept, true, 6);
    assert!(!sub.accept_message(forged));
    assert!(sub.accept_message(b.create_message_at(false, 6)));
    let kept = sub.last_message.as_ref().unwrap();
    assert_eq!(kept.broadcast_time, 6);
    assert!(!kept.beacon_state);
    assert_eq!(sub.name, "lamp");
}

fn hex_bytes(s: &str) -> Vec<u8> {
    (0..s.len() / 2).map(|i| u8::from_str_radix(&s[2 * i..2 * i + 2], 16).unwrap()).collect()
}

#[test]
fn report_names_the_beacon_in_lowercase_hex() {
    let public = "d75a980182b10ab7d54bfed3c964073a0ee172f3daa62325af021a68f707511a";
    let mut bytes = hex_bytes("9d61b19deffd5a60ba844af492ec2cc44449c5697b326919703bac031cae7f60");
    bytes.extend(hex_bytes(public));
    let b = Beacon { name: "rfc".to_string(), keypair: Keypair::from_bytes(&bytes).unwrap() };
    assert_eq!(topic_name(&b.keypair.public), public);
    let m = b.create_message_at(false, 1);
    let mut node = P2pNode::new(None).unwrap();
    assert_eq!(
        node.receive_message(m),
        MessageReport::StateChanged { pubkey_hex: public.to_string(), beacon_state: false }
    );
}

#[test]
fn node_broadcasts_its_first_beacon() {
    let idle = P2pNode::new(None).unwrap();
    assert!(idle.my_beacons.is_empty());
    assert!(idle.broadcast_tick().is_none());

    let mut node = P2pNode::new(Some("porch".to_string())).unwrap();
    assert_eq!(node.my_beacons.len(), 1);
    assert_eq!(node.my_beacons[0].name, "porch");
    let m = node.broadcast_tick().unwrap();
    assert!(m.beacon_state);
    assert!(m.verify());
    assert_eq!(m.pubkey.to_bytes(), node.my_beacons[0].keypair.public.to_bytes());

    let m2 = node.broadcast_tick().unwrap();
    assert!(m2.verify());
    assert!(m2.broadcast_time >= m.broadcast_time);
    assert!(node.on_swarm_pending(0));
    assert!(!node.listening);
    assert!(node.on_swarm_pending(2));
    assert!(node.listening);
    assert!(!node.on_swarm_pending(2));
}

#[test]
fn daemon_actions() {
    assert_eq!(daemon_action(Command::Create("a".to_string())), DaemonAction::CreateBeacon("a".to_string()));
    assert_eq!(daemon_action(Command::Delete("a".to_string())), DaemonAction::DeleteBeacon("a".to_string()));
    assert_eq!(
        daemon_action(Command::Broadcast("a".to_string(), false)),
        DaemonAction::BroadcastState("a".to_string(), false)
    );
    assert_eq!(daemon_action(Command::Unsubscribe("a".to_string())), DaemonAction::Unrecognized);
    assert_eq!(daemon_action(Command::ListBeacons()), DaemonAction::Unrecognized);
    assert_eq!(
        daemon_action(Command::Subscribe { name: "a".to_string(), pubkey: "b".to_string() }),
        DaemonAction::Unrecognized
    );
}

#[test]
fn dial_addresses() {
    assert_eq!(dial_address(&"192.168.1.4".to_string()), "/ip4/192.168.1.4");
}
