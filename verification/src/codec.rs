use vstd::prelude::*;
use vstd::slice::{slice_subrange, slice_to_vec};
use vstd::string::StrSliceExecFns;
use vstd::utf8::{encode_utf8, encode_utf8_decode_utf8, encode_utf8_valid_utf8, valid_utf8};

use crate::player::{Player, PlayerView};

verus! {

// A player record is stored as a flat byte string: five fixed-width
// little-endian fields, one presence byte with the optional timestamp, and
// the UTF-8 bytes of the name, which run to the end. Only the round trip of
// the logical fields matters to the store; the layout itself is private.

/// The eight little-endian bytes of a 64-bit value.
pub open spec fn le8(v: u64) -> Seq<u8> {
    seq![
        (v & 0xff) as u8,
        ((v >> 8) & 0xff) as u8,
        ((v >> 16) & 0xff) as u8,
        ((v >> 24) & 0xff) as u8,
        ((v >> 32) & 0xff) as u8,
        ((v >> 40) & 0xff) as u8,
        ((v >> 48) & 0xff) as u8,
        ((v >> 56) & 0xff) as u8,
    ]
}

/// The 64-bit value read from eight little-endian bytes.
pub open spec fn le_val(s: Seq<u8>) -> u64 {
    (s[0] as u64) | ((s[1] as u64) << 8) | ((s[2] as u64) << 16) | ((s[3] as u64) << 24)
        | ((s[4] as u64) << 32) | ((s[5] as u64) << 40) | ((s[6] as u64) << 48) | ((s[7] as u64)
        << 56)
}

/// The presence byte of the optional timestamp.
pub open spec fn upd_flag(u: Option<u64>) -> u8 {
    if u is Some {
        1
    } else {
        0
    }
}

/// The encoded optional timestamp, zero when absent.
pub open spec fn upd_val(u: Option<u64>) -> u64 {
    match u {
        Some(t) => t,
        None => 0,
    }
}

/// The nine bytes that carry the optional timestamp.
pub open spec fn updated_bytes(u: Option<u64>) -> Seq<u8> {
    seq![upd_flag(u)] + le8(upd_val(u))
}

/// The stored image of a player record.
pub open spec fn encode_spec(p: PlayerView) -> Seq<u8> {
    le8(p.id) + le8(p.score) + le8(p.secret_value) + le8(p.attempts_left) + le8(p.created_at)
        + updated_bytes(p.updated_at) + encode_utf8(p.name)
}

/// Reading eight little-endian bytes gives back the value they were made of.
pub proof fn lemma_le_val_le8(v: u64)
    ensures
        le_val(le8(v)) == v,
{
    assert(((v & 0xff) as u8 as u64) | ((((v >> 8) & 0xff) as u8 as u64) << 8) | ((((v >> 16)
        & 0xff) as u8 as u64) << 16) | ((((v >> 24) & 0xff) as u8 as u64) << 24) | ((((v >> 32)
        & 0xff) as u8 as u64) << 32) | ((((v >> 40) & 0xff) as u8 as u64) << 40) | ((((v >> 48)
        & 0xff) as u8 as u64) << 48) | ((((v >> 56) & 0xff) as u8 as u64) << 56) == v)
        by (bit_vector);
}

/// Where each piece of the stored image lies.
proof fn lemma_encoding_parts(b: Seq<u8>, p: PlayerView)
    requires
        b == encode_spec(p),
    ensures
        b.len() == 49 + encode_utf8(p.name).len(),
        b.subrange(0, 8) == le8(p.id),
        b.subrange(8, 16) == le8(p.score),
        b.subrange(16, 24) == le8(p.secret_value),
        b.subrange(24, 32) == le8(p.attempts_left),
        b.subrange(32, 40) == le8(p.created_at),
        b[40] == upd_flag(p.updated_at),
        b.subrange(41, 49) == le8(p.upd_at_val()),
        b.subrange(49, b.len() as int) == encode_utf8(p.name),
{
    assert(le8(p.id).len() == 8);
    assert(updated_bytes(p.updated_at).len() == 9);
    assert(b.subrange(0, 8) =~= le8(p.id));
    assert(b.subrange(8, 16) =~= le8(p.score));
    assert(b.subrange(16, 24) =~= le8(p.secret_value));
    assert(b.subrange(24, 32) =~= le8(p.attempts_left));
    assert(b.subrange(32, 40) =~= le8(p.created_at));
    assert(b[40] == updated_bytes(p.updated_at)[0]);
    assert(b.subrange(41, 49) =~= le8(upd_val(p.updated_at)));
    assert(b.subrange(49, b.len() as int) =~= encode_utf8(p.name));
}

impl PlayerView {
    /// The stored timestamp value, zero when absent.
    pub open spec fn upd_at_val(self) -> u64 {
        upd_val(self.updated_at)
    }
}

/// Appends the eight little-endian bytes of `v`.
fn push_u64_le(out: &mut Vec<u8>, v: u64)
    ensures
        final(out)@ == old(out)@ + le8(v),
{
    out.push(#[verifier::truncate] ((v & 0xff) as u8));
    out.push(#[verifier::truncate] (((v >> 8) & 0xff) as u8));
    out.push(#[verifier::truncate] (((v >> 16) & 0xff) as u8));
    out.push(#[verifier::truncate] (((v >> 24) & 0xff) as u8));
    out.push(#[verifier::truncate] (((v >> 32) & 0xff) as u8));
    out.push(#[verifier::truncate] (((v >> 40) & 0xff) as u8));
    out.push(#[verifier::truncate] (((v >> 48) & 0xff) as u8));
    out.push(#[verifier::truncate] (((v >> 56) & 0xff) as u8));
    proof {
        assert(final(out)@ =~= old(out)@ + le8(v));
    }
}

/// Reads the 64-bit value whose little-endian bytes start at `off`.
fn read_u64_le(b: &Vec<u8>, off: usize) -> (r: u64)
    requires
        off + 8 <= b@.len(),
        off + 8 <= usize::MAX,
    ensures
        r == le_val(b@.subrange(off as int, off as int + 8)),
{
    let r = (b[off] as u64) | ((b[off + 1] as u64) << 8) | ((b[off + 2] as u64) << 16) | ((b[off
        + 3] as u64) << 24) | ((b[off + 4] as u64) << 32) | ((b[off + 5] as u64) << 40) | ((b[off
        + 6] as u64) << 48) | ((b[off + 7] as u64) << 56);
    proof {
        let s = b@.subrange(off as int, off as int + 8);
        assert(s[0] == b@[off as int] && s[1] == b@[off as int + 1] && s[2] == b@[off as int + 2]
            && s[3] == b@[off as int + 3] && s[4] == b@[off as int + 4] && s[5] == b@[off as int
            + 5] && s[6] == b@[off as int + 6] && s[7] == b@[off as int + 7]);
    }
    r
}

/// Relies on `String::from_utf8` of std: returns the string whose UTF-8
/// encoding is the given bytes. The bytes are valid UTF-8 by `requires`, so
/// the call cannot fail.
#[verifier::external_body]
fn utf8_to_string(bytes: Vec<u8>) -> (r: String)
    requires
        valid_utf8(bytes@),
    ensures
        encode_utf8(r@) == bytes@,
{
    String::from_utf8(bytes).unwrap()
}

/// Encodes a player record for the durable store.
pub(crate) fn encode_player(player: &Player) -> (r: Vec<u8>)
    ensures
        r@ == encode_spec(player@),
{
    let mut out: Vec<u8> = Vec::new();
    push_u64_le(&mut out, player.id);
    push_u64_le(&mut out, player.score);
    push_u64_le(&mut out, player.secret_value);
    push_u64_le(&mut out, player.attempts_left);
    push_u64_le(&mut out, player.created_at);
    let flag: u8 = if player.updated_at.is_some() {
        1
    } else {
        0
    };
    out.push(flag);
    let upd: u64 = match player.updated_at {
        Some(t) => t,
        None => 0,
    };
    push_u64_le(&mut out, upd);
    let mut name_bytes = player.name.as_str().as_bytes_vec();
    out.append(&mut name_bytes);
    proof {
        assert(out@ =~= encode_spec(player@));
    }
    out
}

/// Decodes a stored image back into the player record it was made from.
pub(crate) fn decode_player(b: &Vec<u8>) -> (r: Player)
    requires
        exists|p: PlayerView| b@ == encode_spec(p),
    ensures
        forall|p: PlayerView| b@ == encode_spec(p) ==> r@ == p,
{
    let ghost p0 = choose|p: PlayerView| b@ == encode_spec(p);
    proof {
        lemma_encoding_parts(b@, p0);
    }
    let id = read_u64_le(b, 0);
    let score = read_u64_le(b, 8);
    let secret_value = read_u64_le(b, 16);
    let attempts_left = read_u64_le(b, 24);
    let created_at = read_u64_le(b, 32);
    let flag = b[40];
    let upd = read_u64_le(b, 41);
    let updated_at: Option<u64> = if flag == 1 {
        Some(upd)
    } else {
        None
    };
    let tail = slice_to_vec(slice_subrange(b.as_slice(), 49, b.len()));
    proof {
        encode_utf8_valid_utf8(p0.name);
        assert(valid_utf8(tail@));
    }
    let name = utf8_to_string(tail);
    let r = Player { id, name, score, secret_value, attempts_left, created_at, updated_at };
    proof {
        assert forall|p: PlayerView| b@ == encode_spec(p) implies r@ == p by {
            lemma_encoding_parts(b@, p);
            lemma_le_val_le8(p.id);
            lemma_le_val_le8(p.score);
            lemma_le_val_le8(p.secret_value);
            lemma_le_val_le8(p.attempts_left);
            lemma_le_val_le8(p.created_at);
            lemma_le_val_le8(p.upd_at_val());
            assert(upd == upd_val(p.updated_at));
            assert(flag == upd_flag(p.updated_at));
            assert(updated_at == p.updated_at);
            encode_utf8_decode_utf8(name@);
            encode_utf8_decode_utf8(p.name);
            assert(encode_utf8(name@) == encode_utf8(p.name));
            assert(name@ == p.name);
        }
    }
    r
}

} // verus!
