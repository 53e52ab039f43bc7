use std::collections::VecDeque;

use tunnel_sim::codec::build_ipv4_udp;
use tunnel_sim::engine::make_peer_pair;
use tunnel_sim::pump::{process_incoming, pump};
use tunnel_sim::scenario::{
    encapsulate_and_send, run_scenario, scenario_payload_bytes, start_handshake, ScenarioError,
};

fn expected_packet() -> Vec<u8> {
    let payload = scenario_payload_bytes();
    build_ipv4_udp([10, 0, 0, 1], [10, 0, 0, 2], 12345, 54321, &payload)
}

#[test]
fn end_to_end_delivery() {
    let received = run_scenario().expect("scenario should deliver the packet");
    assert_eq!(received, expected_packet());
    assert_eq!(received.len(), 48);
}

#[test]
fn handshake_pump_converges() {
    let (mut a, mut b) = make_peer_pair().expect("construction");
    let mut a2b: VecDeque<Vec<u8>> = VecDeque::new();
    let mut b2a: VecDeque<Vec<u8>> = VecDeque::new();
    let mut a_tun: VecDeque<Vec<u8>> = VecDeque::new();
    let mut b_tun: VecDeque<Vec<u8>> = VecDeque::new();
    let mut a_errors: Vec<String> = Vec::new();
    let mut b_errors: Vec<String> = Vec::new();
    assert!(start_handshake(&mut a, &mut a2b));
    assert_eq!(a2b.len(), 1);
    let quiescent = pump(
        &mut a, &mut b, &mut a2b, &mut b2a, &mut a_tun, &mut b_tun, &mut a_errors, &mut b_errors,
    );
    assert!(quiescent);
    assert!(a2b.is_empty());
    assert!(b2a.is_empty());
    // handshake-only traffic delivers nothing to either interface
    assert!(a_tun.is_empty());
    assert!(b_tun.is_empty());
    assert!(a_errors.is_empty());
    assert!(b_errors.is_empty());
}

#[test]
fn pump_with_empty_queues_does_nothing() {
    let (mut a, mut b) = make_peer_pair().expect("construction");
    let mut a2b: VecDeque<Vec<u8>> = VecDeque::new();
    let mut b2a: VecDeque<Vec<u8>> = VecDeque::new();
    let mut a_tun: VecDeque<Vec<u8>> = VecDeque::new();
    let mut b_tun: VecDeque<Vec<u8>> = VecDeque::new();
    let mut a_errors: Vec<String> = Vec::new();
    let mut b_errors: Vec<String> = Vec::new();
    let quiescent = pump(
        &mut a, &mut b, &mut a2b, &mut b2a, &mut a_tun, &mut b_tun, &mut a_errors, &mut b_errors,
    );
    assert!(quiescent);
    assert!(a2b.is_empty() && b2a.is_empty() && a_tun.is_empty() && b_tun.is_empty());
    assert!(a_errors.is_empty() && b_errors.is_empty());
}

#[test]
fn no_duplication() {
    let (mut a, mut b) = make_peer_pair().expect("construction");
    let mut a2b: VecDeque<Vec<u8>> = VecDeque::new();
    let mut b2a: VecDeque<Vec<u8>> = VecDeque::new();
    let mut a_tun: VecDeque<Vec<u8>> = VecDeque::new();
    let mut b_tun: VecDeque<Vec<u8>> = VecDeque::new();
    let mut a_errors: Vec<String> = Vec::new();
    let mut b_errors: Vec<String> = Vec::new();
    start_handshake(&mut a, &mut a2b);
    assert!(pump(
        &mut a, &mut b, &mut a2b, &mut b2a, &mut a_tun, &mut b_tun, &mut a_errors, &mut b_errors,
    ));
    let inner = expected_packet();
    // one encapsulate call that yielded a network-bound datagram
    encapsulate_and_send(&mut a, &inner, &mut a2b).expect("tunnel should be established");
    assert!(pump(
        &mut a, &mut b, &mut a2b, &mut b2a, &mut a_tun, &mut b_tun, &mut a_errors, &mut b_errors,
    ));
    assert_eq!(a_tun.len() + b_tun.len(), 1);
    // pumping again without new traffic must not deliver anything twice
    assert!(pump(
        &mut a, &mut b, &mut a2b, &mut b2a, &mut a_tun, &mut b_tun, &mut a_errors, &mut b_errors,
    ));
    assert_eq!(a_tun.len() + b_tun.len(), 1);
    assert_eq!(b_tun.pop_front().as_deref(), Some(&inner[..]));
}

#[test]
fn error_containment() {
    let (mut a, mut b) = make_peer_pair().expect("construction");
    let mut a2b: VecDeque<Vec<u8>> = VecDeque::new();
    let mut b2a: VecDeque<Vec<u8>> = VecDeque::new();
    let mut a_tun: VecDeque<Vec<u8>> = VecDeque::new();
    let mut b_tun: VecDeque<Vec<u8>> = VecDeque::new();
    let mut a_errors: Vec<String> = Vec::new();
    let mut b_errors: Vec<String> = Vec::new();
    start_handshake(&mut a, &mut a2b);
    assert!(pump(
        &mut a, &mut b, &mut a2b, &mut b2a, &mut a_tun, &mut b_tun, &mut a_errors, &mut b_errors,
    ));
    // inject a corrupted datagram out of band into B's inbound queue
    a2b.push_back(vec![0x7E; 64]);
    let did = process_incoming(&mut b, &mut a2b, &mut b2a, &mut b_tun, &mut b_errors);
    assert!(did);
    assert_eq!(b_errors.len(), 1);
    assert!(b_tun.is_empty());
    // legitimate traffic still completes afterwards
    let inner = expected_packet();
    encapsulate_and_send(&mut a, &inner, &mut a2b).expect("tunnel should be established");
    assert!(pump(
        &mut a, &mut b, &mut a2b, &mut b2a, &mut a_tun, &mut b_tun, &mut a_errors, &mut b_errors,
    ));
    assert_eq!(b_tun.pop_front().as_deref(), Some(&inner[..]));
    assert_eq!(b_errors.len(), 1);
}

#[test]
fn oversized_corrupt_datagrams_contained() {
    let (mut a, mut b) = make_peer_pair().expect("construction");
    let mut a2b: VecDeque<Vec<u8>> = VecDeque::new();
    let mut b2a: VecDeque<Vec<u8>> = VecDeque::new();
    let mut a_tun: VecDeque<Vec<u8>> = VecDeque::new();
    let mut b_tun: VecDeque<Vec<u8>> = VecDeque::new();
    let mut a_errors: Vec<String> = Vec::new();
    let mut b_errors: Vec<String> = Vec::new();
    start_handshake(&mut a, &mut a2b);
    assert!(pump(
        &mut a, &mut b, &mut a2b, &mut b2a, &mut a_tun, &mut b_tun, &mut a_errors, &mut b_errors,
    ));
    // datagrams far larger than a full-size transport packet, shaped as
    // data packets addressed to every session slot, must each be
    // rejected as an error, whichever slot holds B's session
    for slot in 0u32..8 {
        let mut datagram = vec![0u8; 70016];
        datagram[0] = 4; // data packet type, little-endian
        datagram[4..8].copy_from_slice(&(256 + slot).to_le_bytes());
        a2b.push_back(datagram);
    }
    let did = process_incoming(&mut b, &mut a2b, &mut b2a, &mut b_tun, &mut b_errors);
    assert!(did);
    assert_eq!(b_errors.len(), 8);
    assert!(b_tun.is_empty());
    // legitimate traffic still completes afterwards
    let inner = expected_packet();
    encapsulate_and_send(&mut a, &inner, &mut a2b).expect("tunnel should be established");
    assert!(pump(
        &mut a, &mut b, &mut a2b, &mut b2a, &mut a_tun, &mut b_tun, &mut a_errors, &mut b_errors,
    ));
    assert_eq!(b_tun.pop_front().as_deref(), Some(&inner[..]));
}

#[test]
fn encapsulate_without_session_reports_outcome() {
    let (mut a, _b) = make_peer_pair().expect("construction");
    let mut a2b: VecDeque<Vec<u8>> = VecDeque::new();
    let payload = scenario_payload_bytes();
    // with no session the engine queues the payload and starts a
    // handshake, which is itself network-bound
    assert!(encapsulate_and_send(&mut a, &payload, &mut a2b).is_ok());
    assert_eq!(a2b.len(), 1);
    // a second attempt finds the handshake already in flight: no
    // network-bound result, so the scenario-level error comes back
    let r = encapsulate_and_send(&mut a, &payload, &mut a2b);
    assert!(matches!(r, Err(ScenarioError::Encapsulation(_))));
    assert_eq!(a2b.len(), 1);
}
