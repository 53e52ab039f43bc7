//! The datagram pump: drains every inbound datagram into a peer's engine,
//! routes all output the engine produces, and repeats across both peers
//! until a full pass does no work.

use vstd::prelude::*;
use std::collections::VecDeque;
use boringtun::noise::Tunn;
use crate::engine::{EngineOutput, engine_decapsulate, engine_handshaking, engine_queue_len};

verus! {

/// Upper bound on full passes in one `pump` call. A converging exchange
/// settles in a handful of passes; the bound exists so that the pump is
/// total even against an engine that never quiesces.
pub const MAX_PUMP_PASSES: usize = 0x1000;

proof fn lemma_prefix_trans<T>(a: Seq<T>, b: Seq<T>, c: Seq<T>)
    requires
        a.is_prefix_of(b),
        b.is_prefix_of(c),
    ensures
        a.is_prefix_of(c),
{
    assert(a =~= c.subrange(0, a.len() as int));
}

proof fn lemma_prefix_push<T>(a: Seq<T>, x: T)
    ensures
        a.is_prefix_of(a.push(x)),
{
    assert(a =~= a.push(x).subrange(0, a.len() as int));
}

proof fn lemma_prefix_refl<T>(a: Seq<T>)
    ensures
        a.is_prefix_of(a),
{
    assert(a =~= a.subrange(0, a.len() as int));
}

/// Routes everything the engine has pending after one inbound datagram,
/// starting from the outcome `first` of decapsulating it: network-bound
/// output is forwarded to `outgoing_net` — `first` itself at the front —
/// and the engine is asked again with an empty datagram, until it reports
/// anything else; a decrypted payload is delivered to `out_tun`, an error
/// is recorded in `errors`, and a `Done` changes nothing. At most one
/// payload or one error per inbound datagram, never both.
fn drain_engine(
    me: &mut Tunn,
    first: EngineOutput,
    outgoing_net: &mut VecDeque<Vec<u8>>,
    out_tun: &mut VecDeque<Vec<u8>>,
    errors: &mut Vec<String>,
)
    ensures
        old(outgoing_net)@.is_prefix_of(final(outgoing_net)@),
        old(out_tun)@.is_prefix_of(final(out_tun)@),
        old(errors)@.is_prefix_of(final(errors)@),
        final(out_tun)@.len() + final(errors)@.len() <= old(out_tun)@.len() + old(errors)@.len()
            + 1,
        first is ToNetwork ==> final(outgoing_net)@.len() > old(outgoing_net)@.len()
            && final(outgoing_net)@[old(outgoing_net)@.len() as int] == first->ToNetwork_0,
        first is ToInterface ==> final(out_tun)@ == old(out_tun)@.push(first->ToInterface_0)
            && final(outgoing_net)@ == old(outgoing_net)@ && final(errors)@ == old(errors)@,
        first is Done ==> final(outgoing_net)@ == old(outgoing_net)@
            && final(out_tun)@ == old(out_tun)@ && final(errors)@ == old(errors)@,
        first is Failed ==> final(errors)@ == old(errors)@.push(first->Failed_0)
            && final(outgoing_net)@ == old(outgoing_net)@ && final(out_tun)@ == old(out_tun)@,
{
    let empty: Vec<u8> = Vec::new();
    let ghost first0 = first;
    proof {
        lemma_prefix_refl(outgoing_net@);
        lemma_prefix_refl(out_tun@);
        lemma_prefix_refl(errors@);
    }
    match first {
        EngineOutput::ToNetwork(pkt0) => {
            outgoing_net.push_back(pkt0);
            proof {
                lemma_prefix_push(old(outgoing_net)@, pkt0);
            }
            loop
                invariant_except_break
                    out_tun@ == old(out_tun)@,
                    errors@ == old(errors)@,
                invariant
                    old(outgoing_net)@.is_prefix_of(outgoing_net@),
                    old(out_tun)@.is_prefix_of(out_tun@),
                    old(errors)@.is_prefix_of(errors@),
                    out_tun@.len() + errors@.len() <= old(out_tun)@.len() + old(errors)@.len()
                        + 1,
                    outgoing_net@.len() > old(outgoing_net)@.len(),
                    outgoing_net@[old(outgoing_net)@.len() as int] == first0->ToNetwork_0,
                    empty@.len() == 0,
                ensures
                    old(outgoing_net)@.is_prefix_of(outgoing_net@),
                    old(out_tun)@.is_prefix_of(out_tun@),
                    old(errors)@.is_prefix_of(errors@),
                    out_tun@.len() + errors@.len() <= old(out_tun)@.len() + old(errors)@.len()
                        + 1,
                    outgoing_net@.len() > old(outgoing_net)@.len(),
                    outgoing_net@[old(outgoing_net)@.len() as int] == first0->ToNetwork_0,
                decreases
                        engine_queue_len(*me),
                        (if engine_handshaking(*me) {
                            0int
                        } else {
                            1int
                        }),
            {
                let r = engine_decapsulate(me, &empty);
                match r {
                    EngineOutput::ToNetwork(p) => {
                        proof {
                            lemma_prefix_push(outgoing_net@, p);
                            lemma_prefix_trans(old(outgoing_net)@, outgoing_net@, outgoing_net@.push(p));
                        }
                        outgoing_net.push_back(p);
                    },
                    EngineOutput::ToInterface(p) => {
                        proof {
                            lemma_prefix_push(out_tun@, p);
                        }
                        out_tun.push_back(p);
                        break ;
                    },
                    EngineOutput::Done => {
                        break ;
                    },
                    EngineOutput::Failed(e) => {
                        proof {
                            lemma_prefix_push(errors@, e);
                        }
                        errors.push(e);
                        break ;
                    },
                }
            }
        },
        EngineOutput::ToInterface(p) => {
            proof {
                lemma_prefix_push(out_tun@, p);
            }
            out_tun.push_back(p);
        },
        EngineOutput::Done => {},
        EngineOutput::Failed(e) => {
            proof {
                lemma_prefix_push(errors@, e);
            }
            errors.push(e);
        },
    }
}

/// Feeds every datagram waiting on `incoming_net` to this peer's engine
/// and routes what the engine returns: network-bound datagrams to
/// `outgoing_net`, decrypted payloads to `out_tun`, and per-datagram
/// error reports to `errors`, one at most of the latter two per inbound
/// datagram. Reports whether there was anything to do; a failed datagram
/// never stops the ones behind it.
pub fn process_incoming(
    me: &mut Tunn,
    incoming_net: &mut VecDeque<Vec<u8>>,
    outgoing_net: &mut VecDeque<Vec<u8>>,
    out_tun: &mut VecDeque<Vec<u8>>,
    errors: &mut Vec<String>,
) -> (did_any: bool)
    ensures
        did_any == (old(incoming_net)@.len() > 0),
        final(incoming_net)@.len() == 0,
        old(outgoing_net)@.is_prefix_of(final(outgoing_net)@),
        old(out_tun)@.is_prefix_of(final(out_tun)@),
        old(errors)@.is_prefix_of(final(errors)@),
        final(out_tun)@.len() + final(errors)@.len() <= old(out_tun)@.len() + old(errors)@.len()
            + old(incoming_net)@.len(),
        !did_any ==> *final(me) == *old(me) && final(outgoing_net)@ == old(outgoing_net)@
            && final(out_tun)@ == old(out_tun)@ && final(errors)@ == old(errors)@,
{
    let mut did_any: bool = false;
    proof {
        lemma_prefix_refl(outgoing_net@);
        lemma_prefix_refl(out_tun@);
        lemma_prefix_refl(errors@);
    }
    while incoming_net.len() != 0
        invariant
            incoming_net@.len() <= old(incoming_net)@.len(),
            did_any == (incoming_net@.len() < old(incoming_net)@.len()),
            old(outgoing_net)@.is_prefix_of(outgoing_net@),
            old(out_tun)@.is_prefix_of(out_tun@),
            old(errors)@.is_prefix_of(errors@),
            out_tun@.len() + errors@.len() <= old(out_tun)@.len() + old(errors)@.len() + (old(
                incoming_net,
            )@.len() - incoming_net@.len()),
            !did_any ==> *me == *old(me) && outgoing_net@ == old(outgoing_net)@ && out_tun@ == old(
                out_tun,
            )@ && errors@ == old(errors)@,
        decreases incoming_net@.len(),
    {
        let dg = incoming_net.pop_front();
        match dg {
            Option::Some(datagram) => {
                did_any = true;
                let ghost net_snap = outgoing_net@;
                let ghost tun_snap = out_tun@;
                let ghost err_snap = errors@;
                let first = engine_decapsulate(me, &datagram);
                drain_engine(me, first, outgoing_net, out_tun, errors);
                proof {
                    lemma_prefix_trans(old(outgoing_net)@, net_snap, outgoing_net@);
                    lemma_prefix_trans(old(out_tun)@, tun_snap, out_tun@);
                    lemma_prefix_trans(old(errors)@, err_snap, errors@);
                }
            },
            Option::None => {
                proof {
                    assert(false);
                }
            },
        }
    }
    did_any
}

/// Drains both peers against each other — everything A's engine sends
/// reaches B's inbound wire queue and the other way round — until one
/// full pass does no work at all, and reports whether that quiescent
/// pass was reached within `MAX_PUMP_PASSES` passes. On quiescence both
/// wire queues are empty; the interface queues and error logs only ever
/// grow; and a call with both wire queues already empty changes nothing.
pub fn pump(
    a: &mut Tunn,
    b: &mut Tunn,
    a2b_net: &mut VecDeque<Vec<u8>>,
    b2a_net: &mut VecDeque<Vec<u8>>,
    a_tun: &mut VecDeque<Vec<u8>>,
    b_tun: &mut VecDeque<Vec<u8>>,
    a_errors: &mut Vec<String>,
    b_errors: &mut Vec<String>,
) -> (quiescent: bool)
    ensures
        quiescent ==> final(a2b_net)@.len() == 0 && final(b2a_net)@.len() == 0,
        old(a_tun)@.is_prefix_of(final(a_tun)@),
        old(b_tun)@.is_prefix_of(final(b_tun)@),
        old(a_errors)@.is_prefix_of(final(a_errors)@),
        old(b_errors)@.is_prefix_of(final(b_errors)@),
        old(a2b_net)@.len() == 0 && old(b2a_net)@.len() == 0 ==> quiescent && *final(a) == *old(a)
            && *final(b) == *old(b) && final(a2b_net)@ == old(a2b_net)@ && final(b2a_net)@ == old(
            b2a_net,
        )@ && final(a_tun)@ == old(a_tun)@ && final(b_tun)@ == old(b_tun)@ && final(a_errors)@
            == old(a_errors)@ && final(b_errors)@ == old(b_errors)@,
{
    let mut passes: usize = 0;
    proof {
        lemma_prefix_refl(a_tun@);
        lemma_prefix_refl(b_tun@);
        lemma_prefix_refl(a_errors@);
        lemma_prefix_refl(b_errors@);
    }
    while passes < MAX_PUMP_PASSES
        invariant
            old(a_tun)@.is_prefix_of(a_tun@),
            old(b_tun)@.is_prefix_of(b_tun@),
            old(a_errors)@.is_prefix_of(a_errors@),
            old(b_errors)@.is_prefix_of(b_errors@),
            old(a2b_net)@.len() == 0 && old(b2a_net)@.len() == 0 ==> passes == 0 && *a == *old(a)
                && *b == *old(b) && a2b_net@ == old(a2b_net)@ && b2a_net@ == old(b2a_net)@
                && a_tun@ == old(a_tun)@ && b_tun@ == old(b_tun)@ && a_errors@ == old(a_errors)@
                && b_errors@ == old(b_errors)@,
        decreases MAX_PUMP_PASSES - passes,
    {
        let ghost a_tun_snap = a_tun@;
        let ghost b_tun_snap = b_tun@;
        let ghost a_err_snap = a_errors@;
        let ghost b_err_snap = b_errors@;
        let p1 = process_incoming(a, b2a_net, a2b_net, a_tun, a_errors);
        let p2 = process_incoming(b, a2b_net, b2a_net, b_tun, b_errors);
        proof {
            lemma_prefix_trans(old(a_tun)@, a_tun_snap, a_tun@);
            lemma_prefix_trans(old(b_tun)@, b_tun_snap, b_tun@);
            lemma_prefix_trans(old(a_errors)@, a_err_snap, a_errors@);
            lemma_prefix_trans(old(b_errors)@, b_err_snap, b_errors@);
        }
        if !p1 && !p2 {
            return true;
        }
        passes = passes + 1;
    }
    false
}

} // verus!
