//! The scenario driver: builds two peers, lets one initiate the
//! handshake, pumps the in-memory network to quiescence, sends a single
//! known IPv4/UDP packet through the tunnel, pumps again, and hands back
//! what the other peer's interface received.

use vstd::prelude::*;
use std::collections::VecDeque;
use boringtun::noise::Tunn;
use crate::codec::{build_ipv4_udp, build_ipv4_udp_spec};
use crate::engine::{EngineOutput, engine_encapsulate, engine_handshake_initiation, make_peer_pair};
use crate::pump::pump;

verus! {

/// A scenario-level failure: these abort the run, unlike per-datagram
/// decapsulation errors, which the pump merely records.
#[derive(Debug)]
pub enum ScenarioError {
    /// An engine could not be constructed from the generated keys.
    Construction(String),
    /// Encapsulating the test payload did not yield a network-bound
    /// datagram: the tunnel was not established, or the engine refused
    /// the payload. Carries the unexpected outcome.
    Encapsulation(EngineOutput),
    /// The pump gave up before a pass without work.
    NoQuiescence,
    /// Nothing reached the receiving peer's interface queue.
    NoDelivery,
    /// The delivered bytes differ from the bytes that were sent.
    PayloadMismatch,
}

/// Byte-for-byte equality of two buffers.
pub fn bytes_eq(x: &Vec<u8>, y: &Vec<u8>) -> (r: bool)
    ensures
        r == (x@ == y@),
{
    if x.len() != y.len() {
        return false;
    }
    let mut i: usize = 0;
    while i < x.len()
        invariant
            i <= x@.len(),
            x@.len() == y@.len(),
            forall|j: int| 0 <= j < i ==> x@[j] == y@[j],
        decreases x@.len() - i,
    {
        if x[i] != y[i] {
            return false;
        }
        i = i + 1;
    }
    proof {
        assert(x@ =~= y@);
    }
    true
}

/// Asks the engine for a handshake initiation datagram and queues it on
/// the wire; reports whether one was produced.
pub fn start_handshake(me: &mut Tunn, outgoing_net: &mut VecDeque<Vec<u8>>) -> (sent: bool)
    ensures
        sent ==> final(outgoing_net)@.len() == old(outgoing_net)@.len() + 1 && old(
            outgoing_net,
        )@.is_prefix_of(final(outgoing_net)@),
        !sent ==> final(outgoing_net)@ == old(outgoing_net)@,
{
    match engine_handshake_initiation(me) {
        EngineOutput::ToNetwork(pkt) => {
            proof {
                assert(outgoing_net@ =~= outgoing_net@.push(pkt).subrange(
                    0,
                    outgoing_net@.len() as int,
                ));
            }
            outgoing_net.push_back(pkt);
            true
        },
        _ => false,
    }
}

/// Encrypts `plaintext` through the peer's engine and queues the
/// resulting datagram on `outgoing_net`. Exactly one datagram is queued
/// on success; any other engine outcome leaves the queue untouched and
/// is handed back inside the error. The plaintext is bounded so that it
/// fits a full-size transport packet with its fixed overhead, even when
/// the engine queues it internally until a session exists.
pub fn encapsulate_and_send(
    me: &mut Tunn,
    plaintext: &Vec<u8>,
    outgoing_net: &mut VecDeque<Vec<u8>>,
) -> (r: Result<(), ScenarioError>)
    requires
        plaintext@.len() <= crate::engine::MAX_PLAINTEXT_LEN,
    ensures
        r is Ok ==> final(outgoing_net)@.len() == old(outgoing_net)@.len() + 1 && old(
            outgoing_net,
        )@.is_prefix_of(final(outgoing_net)@),
        r is Err ==> final(outgoing_net)@ == old(outgoing_net)@ && r->Err_0 is Encapsulation,
{
    match engine_encapsulate(me, plaintext) {
        EngineOutput::ToNetwork(wg) => {
            proof {
                assert(outgoing_net@ =~= outgoing_net@.push(wg).subrange(
                    0,
                    outgoing_net@.len() as int,
                ));
            }
            outgoing_net.push_back(wg);
            Ok(())
        },
        other => Err(ScenarioError::Encapsulation(other)),
    }
}

/// The bytes of the test payload, "hello over boringtun".
pub open spec fn scenario_payload() -> Seq<u8> {
    seq![
        104u8,
        101u8,
        108u8,
        108u8,
        111u8,
        32u8,
        111u8,
        118u8,
        101u8,
        114u8,
        32u8,
        98u8,
        111u8,
        114u8,
        105u8,
        110u8,
        103u8,
        116u8,
        117u8,
        110u8,
    ]
}

/// Builds the test payload as a buffer.
pub fn scenario_payload_bytes() -> (p: Vec<u8>)
    ensures
        p@ == scenario_payload(),
{
    let mut p: Vec<u8> = Vec::new();
    p.push(104);
    p.push(101);
    p.push(108);
    p.push(108);
    p.push(111);
    p.push(32);
    p.push(111);
    p.push(118);
    p.push(101);
    p.push(114);
    p.push(32);
    p.push(98);
    p.push(111);
    p.push(114);
    p.push(105);
    p.push(110);
    p.push(103);
    p.push(116);
    p.push(117);
    p.push(110);
    proof {
        assert(p@ =~= scenario_payload());
    }
    p
}

/// The exact datagram the scenario sends through the tunnel: a UDP
/// packet from 10.0.0.1:12345 to 10.0.0.2:54321 carrying the test
/// payload.
pub open spec fn scenario_packet() -> Seq<u8> {
    build_ipv4_udp_spec(
        seq![10u8, 0u8, 0u8, 1u8],
        seq![10u8, 0u8, 0u8, 2u8],
        12345u16,
        54321u16,
        scenario_payload(),
    )
}

/// Runs the whole exchange: peer A initiates the handshake, the pump
/// runs to quiescence, A encapsulates the test packet, the pump runs
/// again, and the run succeeds only if B's interface received bytes
/// equal to the packet A sent — which success proves are exactly
/// `scenario_packet`.
pub fn run_scenario() -> (r: Result<Vec<u8>, ScenarioError>)
    ensures
        r is Ok ==> r->Ok_0@ == scenario_packet(),
{
    let pair = match make_peer_pair() {
        Ok(p) => p,
        Err(e) => {
            return Err(ScenarioError::Construction(e));
        },
    };
    let (mut a, mut b) = pair;
    let mut a2b_net: VecDeque<Vec<u8>> = VecDeque::new();
    let mut b2a_net: VecDeque<Vec<u8>> = VecDeque::new();
    let mut a_tun: VecDeque<Vec<u8>> = VecDeque::new();
    let mut b_tun: VecDeque<Vec<u8>> = VecDeque::new();
    let mut a_errors: Vec<String> = Vec::new();
    let mut b_errors: Vec<String> = Vec::new();
    start_handshake(&mut a, &mut a2b_net);
    if !pump(
        &mut a,
        &mut b,
        &mut a2b_net,
        &mut b2a_net,
        &mut a_tun,
        &mut b_tun,
        &mut a_errors,
        &mut b_errors,
    ) {
        return Err(ScenarioError::NoQuiescence);
    }
    let payload = scenario_payload_bytes();
    let src: [u8; 4] = [10, 0, 0, 1];
    let dst: [u8; 4] = [10, 0, 0, 2];
    let inner = build_ipv4_udp(src, dst, 12345, 54321, &payload);
    proof {
        assert(src@ =~= seq![10u8, 0u8, 0u8, 1u8]);
        assert(dst@ =~= seq![10u8, 0u8, 0u8, 2u8]);
    }
    match encapsulate_and_send(&mut a, &inner, &mut a2b_net) {
        Ok(()) => {},
        Err(e) => {
            return Err(e);
        },
    }
    if !pump(
        &mut a,
        &mut b,
        &mut a2b_net,
        &mut b2a_net,
        &mut a_tun,
        &mut b_tun,
        &mut a_errors,
        &mut b_errors,
    ) {
        return Err(ScenarioError::NoQuiescence);
    }
    match b_tun.pop_front() {
        Option::Some(received) => {
            if bytes_eq(&received, &inner) {
                Ok(received)
            } else {
                Err(ScenarioError::PayloadMismatch)
            }
        },
        Option::None => Err(ScenarioError::NoDelivery),
    }
}

} // verus!
