//! Deterministic IPv4/UDP packet construction and header-checksum
//! verification, used as the known payload the pump must deliver intact.

use vstd::prelude::*;

verus! {

/// The 16-bit big-endian word formed by bytes `i` and `i + 1` of `h`.
pub open spec fn be_word(h: Seq<u8>, i: int) -> int {
    h[i] * 0x100 + h[i + 1]
}

/// Sum of the big-endian 16-bit words of `h` at even offsets below `n`,
/// with the checksum field (bytes 10 and 11) counted as zero.
pub open spec fn header_sum(h: Seq<u8>, n: int) -> int
    decreases n,
{
    if n < 2 {
        0
    } else {
        header_sum(h, n - 2) + if n - 2 == 10 {
            0
        } else {
            be_word(h, n - 2)
        }
    }
}

/// Sum of all big-endian 16-bit words of `h` at even offsets below `n`,
/// the checksum field included: the validation form of the sum.
pub open spec fn full_sum(h: Seq<u8>, n: int) -> int
    decreases n,
{
    if n < 2 {
        0
    } else {
        full_sum(h, n - 2) + be_word(h, n - 2)
    }
}

/// Folds carries from bit 16 and above back into the low 16 bits until
/// none remain.
pub open spec fn fold_carries(x: int) -> int
    decreases x when x >= 0
{
    if x > 0xFFFF {
        fold_carries(x % 0x10000 + x / 0x10000)
    } else {
        x
    }
}

/// The IPv4 header checksum of the 20-byte header `h`: the one's
/// complement of the folded word sum, the checksum field counted as zero.
pub open spec fn ipv4_checksum_spec(h: Seq<u8>) -> int {
    0xFFFF - fold_carries(header_sum(h, 20))
}

proof fn lemma_header_sum_bounds(h: Seq<u8>, n: int)
    requires
        n >= 0,
    ensures
        0 <= header_sum(h, n) <= 0xFFFF * n,
    decreases n,
{
    if n >= 2 {
        lemma_header_sum_bounds(h, n - 2);
    }
}

proof fn lemma_full_sum_bounds(h: Seq<u8>, n: int)
    requires
        n >= 0,
    ensures
        0 <= full_sum(h, n) <= 0xFFFF * n,
    decreases n,
{
    if n >= 2 {
        lemma_full_sum_bounds(h, n - 2);
    }
}

proof fn lemma_fold_bounds(x: int)
    requires
        x >= 0,
    ensures
        0 <= fold_carries(x) <= 0xFFFF,
    decreases x,
{
    if x > 0xFFFF {
        lemma_fold_bounds(x % 0x10000 + x / 0x10000);
    }
}

proof fn lemma_fold_positive(x: int)
    requires
        x > 0,
    ensures
        fold_carries(x) > 0,
    decreases x,
{
    if x > 0xFFFF {
        lemma_fold_positive(x % 0x10000 + x / 0x10000);
    }
}

proof fn lemma_fold_congruent(x: int)
    requires
        x >= 0,
    ensures
        fold_carries(x) % 0xFFFF == x % 0xFFFF,
    decreases x,
{
    if x > 0xFFFF {
        let q = x / 0x10000;
        let r = x % 0x10000;
        vstd::arithmetic::div_mod::lemma_fundamental_div_mod(x, 0x10000);
        assert(x == 0xFFFF * q + (r + q));
        vstd::arithmetic::div_mod::lemma_mod_multiples_vanish(q, r + q, 0xFFFF);
        lemma_fold_congruent(r + q);
    }
}

proof fn lemma_header_sum_agrees(h: Seq<u8>, h2: Seq<u8>, n: int)
    requires
        n % 2 == 0,
        forall|i: int| #![auto] 0 <= i < n && i != 10 && i != 11 ==> h2[i] == h[i],
    ensures
        header_sum(h2, n) == header_sum(h, n),
    decreases n,
{
    if n >= 2 {
        lemma_header_sum_agrees(h, h2, n - 2);
    }
}

proof fn lemma_full_eq_header_below(h: Seq<u8>, n: int)
    requires
        n <= 10,
    ensures
        full_sum(h, n) == header_sum(h, n),
    decreases n,
{
    if n >= 2 {
        lemma_full_eq_header_below(h, n - 2);
    }
}

proof fn lemma_full_vs_header(h: Seq<u8>, n: int)
    requires
        n >= 12,
        n % 2 == 0,
    ensures
        full_sum(h, n) == header_sum(h, n) + be_word(h, 10),
    decreases n,
{
    if n == 12 {
        lemma_full_eq_header_below(h, 10);
    } else {
        lemma_full_vs_header(h, n - 2);
    }
}

/// Law: for a 20-byte header whose checksum field is zero, writing the
/// computed checksum into bytes 10 and 11 yields a header on which the
/// validation form of the algorithm — sum all ten words, the checksum
/// included, and fold the carries — gives 0xFFFF, whose one's complement
/// is zero.
pub proof fn lemma_checksum_self_consistent(h: Seq<u8>)
    requires
        h.len() == 20,
        h[10] == 0,
        h[11] == 0,
    ensures
        ({
            let c = ipv4_checksum_spec(h);
            let h2 = h.update(10, (c / 0x100) as u8).update(11, (c % 0x100) as u8);
            fold_carries(full_sum(h2, 20)) == 0xFFFF
        }),
{
    let s = header_sum(h, 20);
    lemma_header_sum_bounds(h, 20);
    lemma_fold_bounds(s);
    let f = fold_carries(s);
    let c = ipv4_checksum_spec(h);
    assert(c == 0xFFFF - f);
    let hi = (c / 0x100) as u8;
    let lo = (c % 0x100) as u8;
    let h2 = h.update(10, hi).update(11, lo);
    vstd::arithmetic::div_mod::lemma_fundamental_div_mod(c, 0x100);
    assert(be_word(h2, 10) == c);
    lemma_header_sum_agrees(h, h2, 20);
    lemma_full_vs_header(h2, 20);
    let t = full_sum(h2, 20);
    assert(t == s + c);
    if s == 0 {
        assert(fold_carries(0) == 0);
    }
    assert(t > 0);
    lemma_fold_congruent(s);
    lemma_fold_congruent(t);
    lemma_fold_positive(t);
    lemma_fold_bounds(t);
    vstd::arithmetic::div_mod::lemma_mod_add_multiples_vanish(s - f, 0xFFFF);
    vstd::arithmetic::div_mod::lemma_sub_mod_noop(s, f, 0xFFFF);
    assert((s - f) % 0xFFFF == 0) by {
        assert(s % 0xFFFF == f % 0xFFFF);
        assert((s % 0xFFFF - f % 0xFFFF) % 0xFFFF == (s - f) % 0xFFFF);
        assert((0int) % 0xFFFF == 0);
    }
    assert(t % 0xFFFF == 0);
    assert(fold_carries(t) % 0xFFFF == 0);
    if fold_carries(t) < 0xFFFF {
        vstd::arithmetic::div_mod::lemma_small_mod(fold_carries(t) as nat, 0xFFFF);
    }
}

/// Computes the IPv4 header checksum of a 20-byte header, the checksum
/// field itself skipped.
pub fn ipv4_checksum(hdr: &Vec<u8>) -> (r: u16)
    requires
        hdr@.len() == 20,
    ensures
        r == ipv4_checksum_spec(hdr@),
{
    let mut sum: u32 = 0;
    let mut i: usize = 0;
    while i < 20
        invariant
            hdr@.len() == 20,
            i % 2 == 0,
            i <= 20,
            sum == header_sum(hdr@, i as int),
        decreases 20 - i,
    {
        proof {
            lemma_header_sum_bounds(hdr@, i as int);
        }
        if i != 10 {
            let w: u32 = (hdr[i] as u32) * 0x100 + (hdr[i + 1] as u32);
            sum = sum + w;
        }
        i = i + 2;
    }
    while sum > 0xFFFF
        invariant
            fold_carries(sum as int) == fold_carries(header_sum(hdr@, 20)),
        decreases sum,
    {
        sum = sum % 0x10000 + sum / 0x10000;
    }
    (0xFFFF - sum) as u16
}

/// Checks a complete 20-byte header in the validation form of the
/// algorithm: sums all ten words, the checksum field included, folds the
/// carries, and accepts when the one's complement of the result is zero.
pub fn ipv4_header_valid(hdr: &Vec<u8>) -> (ok: bool)
    requires
        hdr@.len() == 20,
    ensures
        ok == (fold_carries(full_sum(hdr@, 20)) == 0xFFFF),
{
    let mut sum: u32 = 0;
    let mut i: usize = 0;
    while i < 20
        invariant
            hdr@.len() == 20,
            i % 2 == 0,
            i <= 20,
            sum == full_sum(hdr@, i as int),
        decreases 20 - i,
    {
        proof {
            lemma_full_sum_bounds(hdr@, i as int);
        }
        let w: u32 = (hdr[i] as u32) * 0x100 + (hdr[i + 1] as u32);
        sum = sum + w;
        i = i + 2;
    }
    while sum > 0xFFFF
        invariant
            fold_carries(sum as int) == fold_carries(full_sum(hdr@, 20)),
        decreases sum,
    {
        sum = sum % 0x10000 + sum / 0x10000;
    }
    sum == 0xFFFF
}

/// The 20-byte IPv4 header for the given addresses and total length:
/// version 4, header length 5 words, identification 0, the don't-fragment
/// flag set, TTL 64, protocol UDP, and the checksum field still zero.
pub open spec fn ip_header_zero_ck(src: Seq<u8>, dst: Seq<u8>, total_len: int) -> Seq<u8> {
    seq![
        0x45u8,
        0u8,
        (total_len / 0x100) as u8,
        (total_len % 0x100) as u8,
        0u8,
        0u8,
        0x40u8,
        0u8,
        64u8,
        17u8,
        0u8,
        0u8,
        src[0],
        src[1],
        src[2],
        src[3],
        dst[0],
        dst[1],
        dst[2],
        dst[3],
    ]
}

/// The 8-byte UDP header: ports and length big-endian, checksum zero,
/// which IPv4 permits.
pub open spec fn udp_header(src_port: int, dst_port: int, udp_len: int) -> Seq<u8> {
    seq![
        (src_port / 0x100) as u8,
        (src_port % 0x100) as u8,
        (dst_port / 0x100) as u8,
        (dst_port % 0x100) as u8,
        (udp_len / 0x100) as u8,
        (udp_len % 0x100) as u8,
        0u8,
        0u8,
    ]
}

/// The complete datagram `build_ipv4_udp` constructs: the IPv4 header
/// with its checksum written into bytes 10 and 11, the UDP header, and
/// the raw payload.
pub open spec fn build_ipv4_udp_spec(
    src: Seq<u8>,
    dst: Seq<u8>,
    src_port: u16,
    dst_port: u16,
    payload: Seq<u8>,
) -> Seq<u8> {
    let total_len = 28 + payload.len() as int;
    let pre = ip_header_zero_ck(src, dst, total_len);
    let c = ipv4_checksum_spec(pre);
    let hdr = pre.update(10, (c / 0x100) as u8).update(11, (c % 0x100) as u8);
    hdr + udp_header(src_port as int, dst_port as int, 8 + payload.len() as int) + payload
}

/// Builds a minimal IPv4/UDP datagram around `payload`: a fixed 20-byte
/// IPv4 header with a correct checksum, an 8-byte UDP header with a zero
/// checksum, then the payload bytes. A pure function of its inputs.
pub fn build_ipv4_udp(
    src: [u8; 4],
    dst: [u8; 4],
    src_port: u16,
    dst_port: u16,
    payload: &Vec<u8>,
) -> (pkt: Vec<u8>)
    requires
        payload@.len() <= 0xFFFF - 28,
    ensures
        pkt@ == build_ipv4_udp_spec(src@, dst@, src_port, dst_port, payload@),
        pkt@.len() == 28 + payload@.len(),
{
    let total_len: usize = 28 + payload.len();
    let tl_hi: u8 = (total_len / 0x100) as u8;
    let tl_lo: u8 = (total_len % 0x100) as u8;
    let mut pre: Vec<u8> = Vec::new();
    pre.push(0x45);
    pre.push(0x00);
    pre.push(tl_hi);
    pre.push(tl_lo);
    pre.push(0x00);
    pre.push(0x00);
    pre.push(0x40);
    pre.push(0x00);
    pre.push(64);
    pre.push(17);
    pre.push(0x00);
    pre.push(0x00);
    pre.push(src[0]);
    pre.push(src[1]);
    pre.push(src[2]);
    pre.push(src[3]);
    pre.push(dst[0]);
    pre.push(dst[1]);
    pre.push(dst[2]);
    pre.push(dst[3]);
    proof {
        assert(pre@ =~= ip_header_zero_ck(src@, dst@, total_len as int));
    }
    let c: u16 = ipv4_checksum(&pre);
    let udp_len: usize = 8 + payload.len();
    let mut pkt: Vec<u8> = Vec::new();
    pkt.push(0x45);
    pkt.push(0x00);
    pkt.push(tl_hi);
    pkt.push(tl_lo);
    pkt.push(0x00);
    pkt.push(0x00);
    pkt.push(0x40);
    pkt.push(0x00);
    pkt.push(64);
    pkt.push(17);
    pkt.push((c / 0x100) as u8);
    pkt.push((c % 0x100) as u8);
    pkt.push(src[0]);
    pkt.push(src[1]);
    pkt.push(src[2]);
    pkt.push(src[3]);
    pkt.push(dst[0]);
    pkt.push(dst[1]);
    pkt.push(dst[2]);
    pkt.push(dst[3]);
    pkt.push((src_port / 0x100) as u8);
    pkt.push((src_port % 0x100) as u8);
    pkt.push((dst_port / 0x100) as u8);
    pkt.push((dst_port % 0x100) as u8);
    pkt.push((udp_len / 0x100) as u8);
    pkt.push((udp_len % 0x100) as u8);
    pkt.push(0x00);
    pkt.push(0x00);
    let ghost head = pkt@;
    let mut k: usize = 0;
    while k < payload.len()
        invariant
            k <= payload@.len(),
            pkt@ == head + payload@.subrange(0, k as int),
        decreases payload@.len() - k,
    {
        pkt.push(payload[k]);
        proof {
            assert(head + payload@.subrange(0, k as int) + seq![payload@[k as int]] =~= head
                + payload@.subrange(0, k + 1));
        }
        k = k + 1;
    }
    proof {
        assert(payload@.subrange(0, payload@.len() as int) =~= payload@);
        assert(pkt@ =~= build_ipv4_udp_spec(src@, dst@, src_port, dst_port, payload@));
    }
    pkt
}

/// Reads the IPv4 total-length field: the big-endian word at bytes 2
/// and 3.
pub fn total_length(pkt: &Vec<u8>) -> (r: u16)
    requires
        pkt@.len() >= 4,
    ensures
        r == be_word(pkt@, 2),
{
    (pkt[2] as u16) * 0x100 + (pkt[3] as u16)
}

/// Law: the built datagram's total-length field reads back as 28 plus the
/// payload length, and its last bytes are the payload, unmodified.
pub proof fn lemma_build_round_trip(
    src: Seq<u8>,
    dst: Seq<u8>,
    src_port: u16,
    dst_port: u16,
    payload: Seq<u8>,
)
    requires
        payload.len() <= 0xFFFF - 28,
    ensures
        ({
            let pkt = build_ipv4_udp_spec(src, dst, src_port, dst_port, payload);
            &&& pkt.len() == 28 + payload.len()
            &&& be_word(pkt, 2) == 28 + payload.len()
            &&& pkt.subrange(28, pkt.len() as int) == payload
        }),
{
    let total_len = 28 + payload.len() as int;
    let pkt = build_ipv4_udp_spec(src, dst, src_port, dst_port, payload);
    vstd::arithmetic::div_mod::lemma_fundamental_div_mod(total_len, 0x100);
    assert(pkt[2] == (total_len / 0x100) as u8);
    assert(pkt[3] == (total_len % 0x100) as u8);
    assert(pkt.subrange(28, pkt.len() as int) =~= payload);
}

} // verus!
