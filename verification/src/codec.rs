use vstd::prelude::*;

use crate::machine::spec_zero_padding;
use crate::records::{Escrow, EscrowStatus, Ident};

verus! {

/// The eight little-endian bytes of a 64-bit word: byte `i` is digit `i`
/// of the word in base 256.
pub open spec fn spec_u64_le(x: u64) -> Seq<u8> {
    seq![
        (x % 0x100) as u8,
        ((x / 0x100) % 0x100) as u8,
        ((x / 0x10000) % 0x100) as u8,
        ((x / 0x1000000) % 0x100) as u8,
        ((x / 0x100000000) % 0x100) as u8,
        ((x / 0x10000000000) % 0x100) as u8,
        ((x / 0x1000000000000) % 0x100) as u8,
        ((x / 0x100000000000000) % 0x100) as u8,
    ]
}

/// The value of eight little-endian bytes, as an unbounded integer.
pub open spec fn spec_u64_value(s: Seq<u8>) -> int
    recommends
        s.len() == 8,
{
    s[0] + s[1] * 0x100 + s[2] * 0x10000 + s[3] * 0x1000000 + s[4] * 0x100000000 + s[5]
        * 0x10000000000 + s[6] * 0x1000000000000 + s[7] * 0x100000000000000
}

/// The value of eight little-endian bytes always fits a 64-bit word.
pub proof fn lemma_u64_value_bounds(s: Seq<u8>)
    requires
        s.len() == 8,
    ensures
        0 <= spec_u64_value(s) < 0x10000000000000000,
{
    assert(s[0] < 0x100 && s[1] < 0x100 && s[2] < 0x100 && s[3] < 0x100 && s[4] < 0x100 && s[5]
        < 0x100 && s[6] < 0x100 && s[7] < 0x100);
}

/// Reading back the little-endian bytes of a word gives the word.
pub proof fn lemma_u64_le_round_trip(x: u64)
    ensures
        spec_u64_value(spec_u64_le(x)) == x,
{
    let n = x as int;
    let q1 = n / 0x100;
    let q2 = n / 0x10000;
    let q3 = n / 0x1000000;
    let q4 = n / 0x100000000;
    let q5 = n / 0x10000000000;
    let q6 = n / 0x1000000000000;
    let q7 = n / 0x100000000000000;
    vstd::arithmetic::div_mod::lemma_div_denominator(n, 0x100, 0x100);
    vstd::arithmetic::div_mod::lemma_div_denominator(n, 0x10000, 0x100);
    vstd::arithmetic::div_mod::lemma_div_denominator(n, 0x1000000, 0x100);
    vstd::arithmetic::div_mod::lemma_div_denominator(n, 0x100000000, 0x100);
    vstd::arithmetic::div_mod::lemma_div_denominator(n, 0x10000000000, 0x100);
    vstd::arithmetic::div_mod::lemma_div_denominator(n, 0x1000000000000, 0x100);
    assert(q1 / 0x100 == q2 && q2 / 0x100 == q3 && q3 / 0x100 == q4 && q4 / 0x100 == q5 && q5
        / 0x100 == q6 && q6 / 0x100 == q7);
    vstd::arithmetic::div_mod::lemma_fundamental_div_mod(n, 0x100);
    vstd::arithmetic::div_mod::lemma_fundamental_div_mod(q1, 0x100);
    vstd::arithmetic::div_mod::lemma_fundamental_div_mod(q2, 0x100);
    vstd::arithmetic::div_mod::lemma_fundamental_div_mod(q3, 0x100);
    vstd::arithmetic::div_mod::lemma_fundamental_div_mod(q4, 0x100);
    vstd::arithmetic::div_mod::lemma_fundamental_div_mod(q5, 0x100);
    vstd::arithmetic::div_mod::lemma_fundamental_div_mod(q6, 0x100);
    assert(q7 < 0x100) by {
        vstd::arithmetic::div_mod::lemma_div_is_ordered_by_denominator(
            0xffffffffffffffff,
            0x100000000000000,
            0x100000000000000,
        );
        vstd::arithmetic::div_mod::lemma_div_is_ordered(n, 0xffffffffffffffff, 0x100000000000000);
    }
    assert(q7 % 0x100 == q7);
    assert(n == (n % 0x100) + (q1 % 0x100) * 0x100 + (q2 % 0x100) * 0x10000 + (q3 % 0x100)
        * 0x1000000 + (q4 % 0x100) * 0x100000000 + (q5 % 0x100) * 0x10000000000 + (q6 % 0x100)
        * 0x1000000000000 + q7 * 0x100000000000000);
}

/// Appends the eight little-endian bytes of `x`.
pub fn push_u64_le(out: &mut Vec<u8>, x: u64)
    ensures
        final(out)@ == old(out)@ + spec_u64_le(x),
{
    out.push((x % 0x100) as u8);
    out.push(((x / 0x100) % 0x100) as u8);
    out.push(((x / 0x10000) % 0x100) as u8);
    out.push(((x / 0x1000000) % 0x100) as u8);
    out.push(((x / 0x100000000) % 0x100) as u8);
    out.push(((x / 0x10000000000) % 0x100) as u8);
    out.push(((x / 0x1000000000000) % 0x100) as u8);
    out.push(((x / 0x100000000000000) % 0x100) as u8);
    proof {
        assert(final(out)@ =~= old(out)@ + spec_u64_le(x));
    }
}

/// Reads a 64-bit word from eight little-endian bytes starting at `off`.
pub fn read_u64_le(b: &Vec<u8>, off: usize) -> (r: u64)
    requires
        off + 8 <= b@.len(),
    ensures
        r == spec_u64_value(b@.subrange(off as int, off as int + 8)),
{
    // the length is a machine word, so the offset sums below stay in bounds
    let _len: usize = b.len();
    let r = (b[off] as u64) + (b[off + 1] as u64) * 0x100 + (b[off + 2] as u64) * 0x10000 + (b[off
        + 3] as u64) * 0x1000000 + (b[off + 4] as u64) * 0x100000000 + (b[off + 5] as u64)
        * 0x10000000000 + (b[off + 6] as u64) * 0x1000000000000 + (b[off + 7] as u64)
        * 0x100000000000000;
    proof {
        let s = b@.subrange(off as int, off as int + 8);
        assert(s[0] == b@[off as int] && s[1] == b@[off as int + 1] && s[2] == b@[off as int + 2]
            && s[3] == b@[off as int + 3] && s[4] == b@[off as int + 4] && s[5] == b@[off as int
            + 5] && s[6] == b@[off as int + 6] && s[7] == b@[off as int + 7]);
    }
    r
}

/// The canonical 32 bytes of an identity: its four words, each little
/// endian, lowest word first.
pub open spec fn spec_ident_le(id: Ident) -> Seq<u8> {
    spec_u64_le(id.w0) + spec_u64_le(id.w1) + spec_u64_le(id.w2) + spec_u64_le(id.w3)
}

/// The identity whose canonical form is the 32 bytes `s`.
pub open spec fn spec_ident_of(s: Seq<u8>) -> Ident
    recommends
        s.len() == 32,
{
    Ident {
        w0: spec_u64_value(s.subrange(0, 8)) as u64,
        w1: spec_u64_value(s.subrange(8, 16)) as u64,
        w2: spec_u64_value(s.subrange(16, 24)) as u64,
        w3: spec_u64_value(s.subrange(24, 32)) as u64,
    }
}

/// Reading back the canonical bytes of an identity gives the identity.
pub proof fn lemma_ident_round_trip(id: Ident)
    ensures
        spec_ident_le(id).len() == 32,
        spec_ident_of(spec_ident_le(id)) == id,
{
    let s = spec_ident_le(id);
    assert(s.subrange(0, 8) =~= spec_u64_le(id.w0));
    assert(s.subrange(8, 16) =~= spec_u64_le(id.w1));
    assert(s.subrange(16, 24) =~= spec_u64_le(id.w2));
    assert(s.subrange(24, 32) =~= spec_u64_le(id.w3));
    lemma_u64_le_round_trip(id.w0);
    lemma_u64_le_round_trip(id.w1);
    lemma_u64_le_round_trip(id.w2);
    lemma_u64_le_round_trip(id.w3);
}

/// Appends the canonical 32 bytes of an identity.
pub fn push_ident_le(out: &mut Vec<u8>, id: &Ident)
    ensures
        final(out)@ == old(out)@ + spec_ident_le(*id),
{
    push_u64_le(out, id.w0);
    push_u64_le(out, id.w1);
    push_u64_le(out, id.w2);
    push_u64_le(out, id.w3);
    proof {
        assert(final(out)@ =~= old(out)@ + spec_ident_le(*id));
    }
}

/// Reads an identity from 32 canonical bytes starting at `off`.
pub fn read_ident(b: &Vec<u8>, off: usize) -> (r: Ident)
    requires
        off + 32 <= b@.len(),
    ensures
        r == spec_ident_of(b@.subrange(off as int, off as int + 32)),
{
    // the length is a machine word, so the offset sums below stay in bounds
    let _len: usize = b.len();
    let w0 = read_u64_le(b, off);
    let w1 = read_u64_le(b, off + 8);
    let w2 = read_u64_le(b, off + 16);
    let w3 = read_u64_le(b, off + 24);
    proof {
        let s = b@.subrange(off as int, off as int + 32);
        assert(s.subrange(0, 8) =~= b@.subrange(off as int, off as int + 8));
        assert(s.subrange(8, 16) =~= b@.subrange(off as int + 8, off as int + 16));
        assert(s.subrange(16, 24) =~= b@.subrange(off as int + 16, off as int + 24));
        assert(s.subrange(24, 32) =~= b@.subrange(off as int + 24, off as int + 32));
        lemma_u64_value_bounds(s.subrange(0, 8));
        lemma_u64_value_bounds(s.subrange(8, 16));
        lemma_u64_value_bounds(s.subrange(16, 24));
        lemma_u64_value_bounds(s.subrange(24, 32));
    }
    Ident { w0, w1, w2, w3 }
}

/// The 8-byte prefix identifying the record layout on the wire.
pub open spec fn spec_discriminator() -> Seq<u8> {
    seq![31u8, 213u8, 123u8, 187u8, 186u8, 22u8, 218u8, 155u8]
}

/// The one-byte code of each status on the wire.
pub open spec fn spec_status_byte(s: EscrowStatus) -> u8 {
    match s {
        EscrowStatus::Pending => 0u8,
        EscrowStatus::Deposited => 1u8,
        EscrowStatus::Completed => 2u8,
        EscrowStatus::Cancelled => 3u8,
    }
}

/// The status a one-byte wire code stands for.
pub open spec fn spec_status_of(b: u8) -> EscrowStatus
    recommends
        b <= 3,
{
    if b == 0 {
        EscrowStatus::Pending
    } else if b == 1 {
        EscrowStatus::Deposited
    } else if b == 2 {
        EscrowStatus::Completed
    } else {
        EscrowStatus::Cancelled
    }
}

/// `n` zero bytes.
pub open spec fn spec_zeros(n: nat) -> Seq<u8> {
    Seq::new(n, |i: int| 0u8)
}

/// The buyer field on the wire: a presence flag, then the buyer's 32
/// bytes, which are zero when no buyer is committed.
pub open spec fn spec_buyer_bytes(b: Option<Ident>) -> Seq<u8> {
    match b {
        Some(id) => seq![1u8] + spec_ident_le(id),
        None => seq![0u8] + spec_zeros(32),
    }
}

/// The canonical 120-byte wire form of a record: discriminator, asset,
/// seller, buyer flag and bytes, price, derivation nonce, status, and five
/// zero padding bytes, all little-endian.
pub open spec fn spec_encode(e: Escrow) -> Seq<u8> {
    spec_discriminator() + spec_ident_le(e.asset) + spec_ident_le(e.seller) + spec_buyer_bytes(
        e.buyer,
    ) + spec_u64_le(e.price) + seq![e.bump] + seq![spec_status_byte(e.status)] + spec_zeros(5)
}

/// Appends `count` zero bytes.
fn push_zeros(out: &mut Vec<u8>, count: usize)
    ensures
        final(out)@ == old(out)@ + spec_zeros(count as nat),
{
    let mut i: usize = 0;
    while i < count
        invariant
            i <= count,
            out@ == old(out)@ + spec_zeros(i as nat),
        decreases count - i,
    {
        out.push(0u8);
        i += 1;
        proof {
            assert(out@ =~= old(out)@ + spec_zeros(i as nat));
        }
    }
    proof {
        assert(out@ =~= old(out)@ + spec_zeros(count as nat));
    }
}

/// Writes a record in its canonical 120-byte wire form.
#[verifier::rlimit(100)]
pub fn encode_record(e: &Escrow) -> (r: Vec<u8>)
    ensures
        r@ == spec_encode(*e),
        r@.len() == 120,
{
    let mut out: Vec<u8> = Vec::new();
    out.push(31u8);
    out.push(213u8);
    out.push(123u8);
    out.push(187u8);
    out.push(186u8);
    out.push(22u8);
    out.push(218u8);
    out.push(155u8);
    proof {
        assert(out@ =~= spec_discriminator());
    }
    push_ident_le(&mut out, &e.asset);
    push_ident_le(&mut out, &e.seller);
    match &e.buyer {
        Some(b) => {
            out.push(1u8);
            push_ident_le(&mut out, b);
        },
        None => {
            out.push(0u8);
            push_zeros(&mut out, 32);
        },
    }
    proof {
        assert(out@ =~= spec_discriminator() + spec_ident_le(e.asset) + spec_ident_le(e.seller)
            + spec_buyer_bytes(e.buyer));
    }
    push_u64_le(&mut out, e.price);
    out.push(e.bump);
    match e.status {
        EscrowStatus::Pending => out.push(0u8),
        EscrowStatus::Deposited => out.push(1u8),
        EscrowStatus::Completed => out.push(2u8),
        EscrowStatus::Cancelled => out.push(3u8),
    }
    push_zeros(&mut out, 5);
    proof {
        assert(out@ =~= spec_encode(*e));
    }
    out
}

/// Which byte sequences decode: exactly the canonical images of
/// well-formed records.
pub open spec fn spec_decode(s: Seq<u8>) -> Option<Escrow> {
    if s.len() == 120 && s.subrange(0, 8) == spec_discriminator() && (s[72] == 0 || s[72] == 1) && (
    s[72] == 0 ==> (forall|i: int| 73 <= i < 105 ==> s[i] == 0)) && s[114] <= 3 && (forall|i: int|
        115 <= i < 120 ==> s[i] == 0) {
        Some(
            Escrow {
                asset: spec_ident_of(s.subrange(8, 40)),
                seller: spec_ident_of(s.subrange(40, 72)),
                buyer: if s[72] == 1 {
                    Some(spec_ident_of(s.subrange(73, 105)))
                } else {
                    None
                },
                price: spec_u64_value(s.subrange(105, 113)) as u64,
                bump: s[113],
                status: spec_status_of(s[114]),
                reserved: spec_zero_padding(),
            },
        )
    } else {
        None
    }
}

/// Reads a record back from its wire form; refuses anything that is not
/// the canonical image of a well-formed record.
#[verifier::rlimit(100)]
pub fn decode_record(b: &Vec<u8>) -> (r: Option<Escrow>)
    ensures
        r == spec_decode(b@),
        r matches Some(e) ==> e.wf(),
{
    if b.len() != 120 {
        return None;
    }
    if !(b[0] == 31 && b[1] == 213 && b[2] == 123 && b[3] == 187 && b[4] == 186 && b[5] == 22
        && b[6] == 218 && b[7] == 155) {
        proof {
            assert(b@.subrange(0, 8) != spec_discriminator());
        }
        return None;
    }
    proof {
        assert(b@.subrange(0, 8) =~= spec_discriminator());
    }
    let flag = b[72];
    if flag != 0 && flag != 1 {
        return None;
    }
    if flag == 0 {
        let mut i: usize = 73;
        while i < 105
            invariant
                73 <= i <= 105,
                b@.len() == 120,
                b@[72] == 0,
                forall|k: int| 73 <= k < i ==> b@[k] == 0,
            decreases 105 - i,
        {
            if b[i] != 0 {
                proof {
                    assert(!(forall|k: int| 73 <= k < 105 ==> b@[k] == 0)) by {
                        assert(73 <= i < 105 && b@[i as int] != 0);
                    }
                }
                return None;
            }
            i += 1;
        }
    }
    let status_byte = b[114];
    if status_byte > 3 {
        return None;
    }
    let mut i: usize = 115;
    while i < 120
        invariant
            115 <= i <= 120,
            b@.len() == 120,
            forall|k: int| 115 <= k < i ==> b@[k] == 0,
        decreases 120 - i,
    {
        if b[i] != 0 {
            proof {
                assert(!(forall|k: int| 115 <= k < 120 ==> b@[k] == 0)) by {
                    assert(115 <= i < 120 && b@[i as int] != 0);
                }
            }
            return None;
        }
        i += 1;
    }
    let asset = read_ident(b, 8);
    let seller = read_ident(b, 40);
    let buyer = if flag == 1 {
        Some(read_ident(b, 73))
    } else {
        None
    };
    let price = read_u64_le(b, 105);
    let bump = b[113];
    let status = if status_byte == 0 {
        EscrowStatus::Pending
    } else if status_byte == 1 {
        EscrowStatus::Deposited
    } else if status_byte == 2 {
        EscrowStatus::Completed
    } else {
        EscrowStatus::Cancelled
    };
    let reserved: [u8; 5] = [0u8; 5];
    let e = Escrow { asset, seller, buyer, price, bump, status, reserved };
    proof {
        broadcast use vstd::array::axiom_spec_array_fill_for_copy_type;

        lemma_u64_value_bounds(b@.subrange(105, 113));
        assert(e.wf());
        assert(e.reserved =~= spec_zero_padding());
        assert(Some(e) == spec_decode(b@));
    }
    Some(e)
}

/// The wire form is 120 bytes long.
#[verifier::rlimit(100)]
proof fn lemma_encode_len(e: Escrow)
    ensures
        spec_encode(e).len() == 120,
{
    assert(spec_ident_le(e.asset).len() == 32);
    assert(spec_ident_le(e.seller).len() == 32);
    assert(spec_buyer_bytes(e.buyer).len() == 33);
}

/// The discriminator opens the wire form.
#[verifier::rlimit(100)]
proof fn lemma_encode_disc(e: Escrow)
    ensures
        spec_encode(e).subrange(0, 8) == spec_discriminator(),
{
    lemma_encode_len(e);
    assert(spec_encode(e).subrange(0, 8) =~= spec_discriminator());
}

/// The asset identity stands at its fixed offset in the wire form.
#[verifier::rlimit(100)]
proof fn lemma_encode_asset(e: Escrow)
    ensures
        spec_encode(e).subrange(8, 40) == spec_ident_le(e.asset),
{
    lemma_encode_len(e);
    assert(spec_encode(e).subrange(8, 40) =~= spec_ident_le(e.asset));
}

/// The seller identity stands at its fixed offset in the wire form.
#[verifier::rlimit(100)]
proof fn lemma_encode_seller(e: Escrow)
    ensures
        spec_encode(e).subrange(40, 72) == spec_ident_le(e.seller),
{
    lemma_encode_len(e);
    assert(spec_encode(e).subrange(40, 72) =~= spec_ident_le(e.seller));
}

/// The buyer flag and bytes stand at their fixed offsets in the wire form.
#[verifier::rlimit(100)]
proof fn lemma_encode_buyer(e: Escrow)
    ensures
        spec_encode(e).subrange(72, 105) == spec_buyer_bytes(e.buyer),
{
    lemma_encode_len(e);
    assert(spec_encode(e).subrange(72, 105) =~= spec_buyer_bytes(e.buyer));
}

/// The price, nonce, status and padding stand at their fixed offsets in
/// the wire form.
#[verifier::rlimit(100)]
proof fn lemma_encode_tail(e: Escrow)
    ensures
        spec_encode(e).subrange(105, 113) == spec_u64_le(e.price),
        spec_encode(e)[113] == e.bump,
        spec_encode(e)[114] == spec_status_byte(e.status),
        forall|i: int| 115 <= i < 120 ==> spec_encode(e)[i] == 0,
{
    lemma_encode_len(e);
    assert(spec_encode(e).subrange(105, 113) =~= spec_u64_le(e.price));
}

/// Each field of a record stands at its fixed offset in the wire form.
pub proof fn lemma_encode_segments(e: Escrow)
    ensures
        spec_encode(e).len() == 120,
        spec_encode(e).subrange(0, 8) == spec_discriminator(),
        spec_encode(e).subrange(8, 40) == spec_ident_le(e.asset),
        spec_encode(e).subrange(40, 72) == spec_ident_le(e.seller),
        spec_encode(e).subrange(72, 105) == spec_buyer_bytes(e.buyer),
        spec_encode(e).subrange(105, 113) == spec_u64_le(e.price),
        spec_encode(e)[113] == e.bump,
        spec_encode(e)[114] == spec_status_byte(e.status),
        forall|i: int| 115 <= i < 120 ==> spec_encode(e)[i] == 0,
{
    lemma_encode_len(e);
    lemma_encode_disc(e);
    lemma_encode_asset(e);
    lemma_encode_seller(e);
    lemma_encode_buyer(e);
    lemma_encode_tail(e);
}

/// A record survives the trip onto the wire and back unchanged.
#[verifier::rlimit(100)]
pub proof fn lemma_codec_round_trip(e: Escrow)
    requires
        e.wf(),
    ensures
        spec_decode(spec_encode(e)) == Some(e),
{
    let s = spec_encode(e);
    lemma_encode_segments(e);
    lemma_ident_round_trip(e.asset);
    lemma_ident_round_trip(e.seller);
    lemma_u64_le_round_trip(e.price);
    match e.buyer {
        Some(id) => {
            assert(s[72] == 1);
            assert(s.subrange(73, 105) =~= spec_ident_le(id));
            lemma_ident_round_trip(id);
        },
        None => {
            assert(s[72] == 0);
            assert(forall|i: int| 73 <= i < 105 ==> s[i] == 0);
        },
    }
    let d = spec_decode(s).unwrap();
    assert(d.status == e.status);
    assert(d.reserved =~= e.reserved) by {
        broadcast use vstd::array::axiom_spec_array_fill_for_copy_type;

    }
    assert(spec_decode(s) == Some(e));
}

} // verus!
