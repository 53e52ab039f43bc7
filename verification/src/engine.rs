//! The tunnel engine collaborator: an opaque per-peer protocol state
//! machine. The library drives it through a handful of trusted wrappers
//! and switches on the tagged outcome they return; it never looks inside.

use vstd::prelude::*;
use boringtun::noise::{Tunn, TunnResult};
use boringtun::x25519::{PublicKey, StaticSecret};
use rand_core::OsRng;

verus! {

#[verifier::external_type_specification]
#[verifier::external_body]
pub struct ExTunn(Tunn);

#[verifier::external_type_specification]
#[verifier::external_body]
pub struct ExStaticSecret(StaticSecret);

#[verifier::external_type_specification]
#[verifier::external_body]
pub struct ExPublicKey(PublicKey);

/// One tagged outcome of an engine operation: a datagram that belongs on
/// the wire, a decrypted payload that belongs on the local interface, no
/// further output, or a per-datagram failure with its description.
#[derive(Debug)]
pub enum EngineOutput {
    ToNetwork(Vec<u8>),
    ToInterface(Vec<u8>),
    Done,
    Failed(String),
}

/// How many datagrams the engine holds in its internal queue of blocked
/// packets (boringtun's `packet_queue`), waiting for a session.
pub uninterp spec fn engine_queue_len(t: Tunn) -> nat;

/// Whether the engine has a handshake in flight
/// (boringtun's `Handshake::is_in_progress`).
pub uninterp spec fn engine_handshaking(t: Tunn) -> bool;

/// Relies on x25519 `StaticSecret::random_from_rng` with the operating
/// system's RNG. The key is random: nothing is promised of it.
#[verifier::external_body]
pub(crate) fn generate_secret() -> StaticSecret {
    StaticSecret::random_from_rng(OsRng)
}

/// Relies on x25519 `PublicKey::from(&StaticSecret)`: derives the public
/// key that belongs to a secret key.
#[verifier::external_body]
pub(crate) fn public_of(sk: &StaticSecret) -> PublicKey {
    PublicKey::from(sk)
}

/// Relies on boringtun `Tunn::new`: builds one peer's engine from its own
/// secret key and the remote public key, with no pre-shared key and no
/// rate limiter; fails only on malformed parameters, with a static
/// description that is passed along.
#[verifier::external_body]
pub(crate) fn engine_new(
    sk: StaticSecret,
    peer_pk: PublicKey,
    keepalive: Option<u16>,
    index: u32,
) -> Result<Tunn, String> {
    match Tunn::new(sk, peer_pk, None, keepalive, index, None) {
        Ok(t) => Ok(t),
        Err(e) => Err(e.to_string()),
    }
}

/// Relies on boringtun `Tunn::format_handshake_initiation` without forced
/// resend: it writes a handshake initiation datagram, or reports `Done`
/// when a handshake is already in flight. The scratch buffer covers the
/// fixed-size initiation message.
#[verifier::external_body]
pub(crate) fn engine_handshake_initiation(me: &mut Tunn) -> EngineOutput {
    let mut scratch = vec![0u8; 2048];
    match me.format_handshake_initiation(&mut scratch, false) {
        TunnResult::WriteToNetwork(p) => EngineOutput::ToNetwork(p.to_vec()),
        TunnResult::WriteToTunnelV4(p, _) => EngineOutput::ToInterface(p.to_vec()),
        TunnResult::WriteToTunnelV6(p, _) => EngineOutput::ToInterface(p.to_vec()),
        TunnResult::Done => EngineOutput::Done,
        TunnResult::Err(e) => EngineOutput::Failed(format!("{:?}", e)),
    }
}

/// Longest plaintext the library hands to the engine: a full-size 64 KiB
/// transport packet minus the 32 bytes of fixed overhead. A longer one
/// could be queued inside the engine until a session exists and would
/// then overflow the inbound scratch buffer when sent from that queue.
pub const MAX_PLAINTEXT_LEN: usize = 65504;

/// Relies on boringtun `Tunn::encapsulate`. The scratch buffer meets the
/// documented minimum of the payload length plus 32 bytes of overhead and
/// no less than 148 bytes; the bound on the plaintext keeps any packet
/// the engine queues internally small enough for the inbound scratch.
#[verifier::external_body]
pub(crate) fn engine_encapsulate(me: &mut Tunn, plaintext: &Vec<u8>) -> EngineOutput
    requires
        plaintext@.len() <= MAX_PLAINTEXT_LEN,
{
    let mut scratch = vec![0u8; plaintext.len() + 256];
    match me.encapsulate(plaintext.as_slice(), &mut scratch) {
        TunnResult::WriteToNetwork(p) => EngineOutput::ToNetwork(p.to_vec()),
        TunnResult::WriteToTunnelV4(p, _) => EngineOutput::ToInterface(p.to_vec()),
        TunnResult::WriteToTunnelV6(p, _) => EngineOutput::ToInterface(p.to_vec()),
        TunnResult::Done => EngineOutput::Done,
        TunnResult::Err(e) => EngineOutput::Failed(format!("{:?}", e)),
    }
}

/// Relies on boringtun `Tunn::decapsulate`, called with no sender address
/// and a scratch buffer sized to the larger of 64 KiB and the inbound
/// datagram, so that even an oversized or corrupt datagram is rejected as
/// an error rather than overflowing the buffer.
/// An empty datagram asks the engine for queued follow-up output: per the
/// source, that call dequeues one internally queued packet and re-queues
/// it only when it yields no network-bound result, so the internal queue
/// never grows; a network-bound result either shrank the queue or, with
/// the queue unchanged, started the one handshake that was not yet in
/// flight.
#[verifier::external_body]
pub(crate) fn engine_decapsulate(me: &mut Tunn, datagram: &Vec<u8>) -> (r: EngineOutput)
    ensures
        datagram@.len() == 0 ==> engine_queue_len(*final(me)) <= engine_queue_len(*old(me)),
        datagram@.len() == 0 && r is ToNetwork ==> (engine_queue_len(*final(me))
            < engine_queue_len(*old(me)) || (engine_queue_len(*final(me)) == engine_queue_len(
            *old(me),
        ) && !engine_handshaking(*old(me)) && engine_handshaking(*final(me)))),
{
    let cap: usize = if datagram.len() > 65536 { datagram.len() } else { 65536 };
    let mut scratch = vec![0u8; cap];
    match me.decapsulate(None, datagram.as_slice(), &mut scratch) {
        TunnResult::WriteToNetwork(p) => EngineOutput::ToNetwork(p.to_vec()),
        TunnResult::WriteToTunnelV4(p, _) => EngineOutput::ToInterface(p.to_vec()),
        TunnResult::WriteToTunnelV6(p, _) => EngineOutput::ToInterface(p.to_vec()),
        TunnResult::Done => EngineOutput::Done,
        TunnResult::Err(e) => EngineOutput::Failed(format!("{:?}", e)),
    }
}

/// Builds two engines that point at each other: each peer's own secret
/// key, the other's public key, a 25-unit keepalive, and distinct session
/// indices.
pub fn make_peer_pair() -> Result<(Tunn, Tunn), String> {
    let a_sk = generate_secret();
    let b_sk = generate_secret();
    let a_pk = public_of(&a_sk);
    let b_pk = public_of(&b_sk);
    let a = match engine_new(a_sk, b_pk, Some(25), 0) {
        Ok(t) => t,
        Err(e) => {
            return Err(e);
        },
    };
    let b = match engine_new(b_sk, a_pk, Some(25), 1) {
        Ok(t) => t,
        Err(e) => {
            return Err(e);
        },
    };
    Ok((a, b))
}

} // verus!
