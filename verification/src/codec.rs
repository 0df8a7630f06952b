//! The payload codec: the one piece of format-specific logic.
//!
//! A relayed payload is a byte buffer in this versioned wire format, every
//! field mandatory and every deviation rejected:
//!
//! | offset          | size | field                                            |
//! |-----------------|------|--------------------------------------------------|
//! | 0               | 1    | message-type tag; only `TRANSFER_TAG` is known   |
//! | 1               | 1    | recipient length `r`, 3 to 90                    |
//! | 2               | r    | recipient identity, canonical local format       |
//! | 2 + r           | 32   | amount, unsigned big-endian                      |
//! | 34 + r          | 1    | token-identifier length `t`                      |
//! | 35 + r          | t    | token identifier, must be a configured denom     |
//!
//! The buffer must end exactly after the token identifier. The amount field
//! is 32 bytes wide on the wire; a value above `u128::MAX` is a decode error,
//! never a silent truncation, and a zero amount is rejected because a
//! transfer instruction must move a positive amount.
//!
//! Decoding is a pure function of the buffer and the read-only denomination
//! configuration: [`decode_spec`] states the whole format mathematically and
//! [`decode_its_payload`] is proved to return exactly what it says.

use vstd::prelude::*;
use vstd::arithmetic::power::{pow, lemma_pow_increases};

use crate::errors::DecodeError;
use crate::identity::valid_identity;

verus! {

/// The message-type tag of an interchain token transfer.
pub const TRANSFER_TAG: u8 = 1;

/// A decoded transfer instruction: release `amount` of `token` to
/// `recipient`. Transient; produced by decoding and consumed by settlement.
#[derive(Debug)]
pub struct TransferInstruction {
    pub recipient: String,
    pub amount: u128,
    pub token: String,
}

/// The characters spelled by a buffer of ASCII bytes.
pub open spec fn chars_of(bs: Seq<u8>) -> Seq<char> {
    bs.map(|i: int, b: u8| b as char)
}

/// The value of a byte buffer read as an unsigned big-endian integer.
pub open spec fn be_val(s: Seq<u8>) -> nat
    decreases s.len(),
{
    if s.len() == 0 {
        0
    } else {
        be_val(s.drop_last()) * 256 + s.last() as nat
    }
}

/// A big-endian value is bounded by 256 to the width of its buffer.
pub proof fn lemma_be_val_bound(s: Seq<u8>)
    ensures
        be_val(s) < pow(256, s.len() as nat),
    decreases s.len(),
{
    reveal(pow);
    if s.len() > 0 {
        lemma_be_val_bound(s.drop_last());
        assert(pow(256, s.len() as nat) == 256 * pow(256, (s.len() - 1) as nat));
    }
}

/// Reading a buffer big-endian splits at any position into the value of the
/// head scaled by the width of the tail, plus the value of the tail.
pub proof fn lemma_be_val_split(s: Seq<u8>, k: int)
    requires
        0 <= k <= s.len(),
    ensures
        be_val(s) == be_val(s.subrange(0, k)) * pow(256, (s.len() - k) as nat) + be_val(
            s.subrange(k, s.len() as int),
        ),
    decreases s.len(),
{
    reveal(pow);
    if k == s.len() {
        assert(s.subrange(0, k) =~= s);
        assert(s.subrange(k, s.len() as int) =~= Seq::<u8>::empty());
        assert(be_val(Seq::<u8>::empty()) == 0);
        assert(pow(256, (s.len() - k) as nat) == 1);
    } else {
        let dl = s.drop_last();
        lemma_be_val_split(dl, k);
        assert(dl.subrange(0, k) =~= s.subrange(0, k));
        let head = be_val(s.subrange(0, k));
        let tail = s.subrange(k, s.len() as int);
        let p = pow(256, (s.len() - 1 - k) as nat);
        assert(tail.drop_last() =~= dl.subrange(k, dl.len() as int));
        assert(be_val(s) == (head * p + be_val(tail.drop_last())) * 256 + s.last());
        assert(tail.last() == s.last());
        assert(be_val(tail) == be_val(tail.drop_last()) * 256 + s.last());
        assert((head * p + be_val(tail.drop_last())) * 256 == head * (p * 256) + be_val(
            tail.drop_last(),
        ) * 256) by (nonlinear_arith);
        assert(pow(256, (s.len() - k) as nat) == 256 * p);
        assert(be_val(tail) == be_val(tail.drop_last()) * 256 + s.last() as nat);
        assert(be_val(s) == head * (p * 256) + be_val(tail));
        assert(head * (p * 256) == head * pow(256, (s.len() - k) as nat));
    }
}

/// A buffer of zero bytes reads as zero, and only such a buffer does.
pub proof fn lemma_be_val_zero(s: Seq<u8>)
    ensures
        be_val(s) == 0 <==> (forall|i: int| 0 <= i < s.len() ==> s[i] == 0),
    decreases s.len(),
{
    if s.len() > 0 {
        let dl = s.drop_last();
        lemma_be_val_zero(dl);
        assert(be_val(s) == be_val(dl) * 256 + s.last() as nat);
        if be_val(s) == 0 {
            assert(be_val(dl) == 0);
            assert(s.last() == 0);
            assert forall|i: int| 0 <= i < s.len() implies s[i] == 0 by {
                if i < s.len() - 1 {
                    assert(dl[i] == 0);
                    assert(s[i] == dl[i]);
                } else {
                    assert(s[i] == s.last());
                }
            }
        } else {
            if forall|i: int| 0 <= i < s.len() ==> s[i] == 0 {
                assert forall|i: int| 0 <= i < dl.len() implies dl[i] == 0 by {
                    assert(dl[i] == s[i]);
                    assert(s[i] == 0);
                }
                assert(be_val(dl) == 0);
                assert(s.last() == s[s.len() - 1]);
                assert(s.last() == 0);
                assert(be_val(s) == 0);
            }
        }
    }
}

/// Whether a wire token identifier names one of the configured,
/// transferable denominations.
pub open spec fn token_known(tok: Seq<u8>, denoms: Seq<Seq<char>>) -> bool {
    &&& forall|i: int| 0 <= i < tok.len() ==> tok[i] < 128
    &&& exists|i: int| 0 <= i < denoms.len() && denoms[i] == chars_of(tok)
}

/// What decoding a payload returns, for every buffer: either the decoded
/// `(recipient, amount, token)` triple or the exact error, in the order the
/// fields are read.
pub open spec fn decode_spec(bytes: Seq<u8>, denoms: Seq<Seq<char>>) -> Result<
    (Seq<char>, u128, Seq<char>),
    DecodeError,
> {
    if bytes.len() < 2 {
        Err(DecodeError::TooShort)
    } else if bytes[0] != TRANSFER_TAG {
        Err(DecodeError::UnknownTag)
    } else {
        let rlen = bytes[1] as int;
        if rlen < 3 || rlen > 90 {
            Err(DecodeError::BadRecipient)
        } else if bytes.len() < 35 + rlen {
            Err(DecodeError::TooShort)
        } else {
            let recipient = chars_of(bytes.subrange(2, 2 + rlen));
            if !valid_identity(recipient) {
                Err(DecodeError::BadRecipient)
            } else {
                let amount = be_val(bytes.subrange(2 + rlen, 34 + rlen));
                if amount > u128::MAX {
                    Err(DecodeError::AmountOverflow)
                } else if amount == 0 {
                    Err(DecodeError::ZeroAmount)
                } else {
                    let tlen = bytes[34 + rlen] as int;
                    if bytes.len() < 35 + rlen + tlen {
                        Err(DecodeError::TooShort)
                    } else if bytes.len() > 35 + rlen + tlen {
                        Err(DecodeError::TrailingBytes)
                    } else {
                        let tok = bytes.subrange(35 + rlen, 35 + rlen + tlen);
                        if !token_known(tok, denoms) {
                            Err(DecodeError::UnknownToken)
                        } else {
                            Ok((recipient, amount as u128, chars_of(tok)))
                        }
                    }
                }
            }
        }
    }
}

/// The concrete values of the powers of 256 that bound the amount field.
proof fn lemma_pow256_16()
    ensures
        pow(256, 15) == 0x1000000000000000000000000000000,
        pow(256, 16) == 0x100000000000000000000000000000000,
{
    reveal_with_fuel(pow, 17);
}

/// Copies the bytes of `payload` between `from` and `to`.
fn take_bytes(payload: &Vec<u8>, from: usize, to: usize) -> (r: Vec<u8>)
    requires
        from <= to <= payload@.len(),
    ensures
        r@ == payload@.subrange(from as int, to as int),
{
    vstd::slice::slice_to_vec(vstd::slice::slice_subrange(payload.as_slice(), from, to))
}

/// Relies on `alloc::string::String::from_utf8`: a buffer of ASCII bytes is
/// valid UTF-8 and decodes to the string whose characters are exactly those
/// bytes.
#[verifier::external_body]
fn ascii_bytes_to_string(v: Vec<u8>) -> (r: String)
    requires
        forall|i: int| 0 <= i < v@.len() ==> v@[i] < 128,
    ensures
        r@ == chars_of(v@),
{
    String::from_utf8(v).unwrap()
}

/// Decides whether a recipient field spells a well-formed local identity.
fn recipient_bytes_valid(bs: &Vec<u8>) -> (b: bool)
    ensures
        b == valid_identity(chars_of(bs@)),
{
    let n = bs.len();
    if n < 3 || n > 90 {
        return false;
    }
    let b0 = bs[0];
    if !(97 <= b0 && b0 <= 122) {
        assert(chars_of(bs@)[0] == bs@[0] as char);
        return false;
    }
    let mut i: usize = 0;
    while i < n
        invariant
            n == bs@.len(),
            3 <= n <= 90,
            i <= n,
            97 <= bs@[0] <= 122,
            forall|j: int| 0 <= j < i ==> crate::identity::is_id_char(#[trigger] chars_of(bs@)[j]),
        decreases n - i,
    {
        let b = bs[i];
        if !((97 <= b && b <= 122) || (48 <= b && b <= 57)) {
            assert(chars_of(bs@)[i as int] == bs@[i as int] as char);
            return false;
        }
        assert(chars_of(bs@)[i as int] == bs@[i as int] as char);
        i += 1;
    }
    assert(chars_of(bs@)[0] == bs@[0] as char);
    true
}

/// Reads the 16 bytes at `start` as an unsigned big-endian integer.
fn read_be_u128(bytes: &Vec<u8>, start: usize) -> (v: u128)
    requires
        start + 16 <= bytes@.len(),
    ensures
        v as nat == be_val(bytes@.subrange(start as int, start as int + 16)),
{
    let n = bytes.len();
    let mut acc: u128 = 0;
    let mut i: usize = 0;
    while i < 16
        invariant
            start + 16 <= n == bytes@.len(),
            i <= 16,
            acc as nat == be_val(bytes@.subrange(start as int, start as int + i)),
        decreases 16 - i,
    {
        proof {
            lemma_be_val_bound(bytes@.subrange(start as int, start as int + i));
            lemma_pow_increases(256, i as nat, 15);
            lemma_pow256_16();
        }
        let b = bytes[start + i];
        acc = acc * 256 + (b as u128);
        proof {
            let pre = bytes@.subrange(start as int, start as int + i);
            let post = bytes@.subrange(start as int, start as int + i + 1);
            assert(post.drop_last() =~= pre);
            assert(post.last() == bytes@[start as int + i]);
        }
        i += 1;
    }
    acc
}

/// Whether the bytes of `payload` between `from` and `to` are all zero.
fn range_all_zero(payload: &Vec<u8>, from: usize, to: usize) -> (b: bool)
    requires
        from <= to <= payload@.len(),
    ensures
        b == (forall|j: int| from <= j < to ==> payload@[j] == 0),
{
    let mut i: usize = from;
    while i < to
        invariant
            from <= i <= to <= payload@.len(),
            forall|j: int| from <= j < i ==> payload@[j] == 0,
        decreases to - i,
    {
        if payload[i] != 0 {
            return false;
        }
        i += 1;
    }
    true
}

/// Whether every byte of `v` is ASCII.
fn all_ascii(v: &Vec<u8>) -> (b: bool)
    ensures
        b == (forall|j: int| 0 <= j < v@.len() ==> v@[j] < 128),
{
    let n = v.len();
    let mut i: usize = 0;
    while i < n
        invariant
            n == v@.len(),
            i <= n,
            forall|j: int| 0 <= j < i ==> v@[j] < 128,
        decreases n - i,
    {
        if v[i] >= 128 {
            return false;
        }
        i += 1;
    }
    true
}

/// Whether some configured denomination spells exactly `token`.
fn denom_known(denoms: &Vec<String>, token: &String) -> (b: bool)
    ensures
        b == (exists|j: int|
            0 <= j < denoms.deep_view().len() && denoms.deep_view()[j] == token@),
{
    let ghost dv = denoms.deep_view();
    let n = denoms.len();
    let mut found = false;
    let mut i: usize = 0;
    while i < n
        invariant
            n == denoms@.len(),
            i <= n,
            dv == denoms.deep_view(),
            found == (exists|j: int| 0 <= j < i && dv[j] == token@),
        decreases n - i,
    {
        let cur: &String = &denoms[i];
        if *cur == *token {
            proof {
                assert(dv[i as int] == denoms@[i as int]@);
            }
            found = true;
        }
        proof {
            assert(dv[i as int] == denoms@[i as int]@);
        }
        i += 1;
    }
    found
}

/// Decodes a relayed payload into a transfer instruction, returning exactly
/// what [`decode_spec`] says of the buffer and the configured denominations.
pub fn decode_its_payload(payload: &Vec<u8>, denoms: &Vec<String>) -> (r: Result<
    TransferInstruction,
    DecodeError,
>)
    ensures
        (match r {
            Ok(ti) => decode_spec(payload@, denoms.deep_view()) == Ok::<
                (Seq<char>, u128, Seq<char>),
                DecodeError,
            >((ti.recipient@, ti.amount, ti.token@)),
            Err(e) => decode_spec(payload@, denoms.deep_view()) == Err::<
                (Seq<char>, u128, Seq<char>),
                DecodeError,
            >(e),
        }),
{
    let ghost dv = denoms.deep_view();
    let n = payload.len();
    if n < 2 {
        return Err(DecodeError::TooShort);
    }
    if payload[0] != TRANSFER_TAG {
        return Err(DecodeError::UnknownTag);
    }
    let rlen = payload[1] as usize;
    if rlen < 3 || rlen > 90 {
        return Err(DecodeError::BadRecipient);
    }
    if n < 35 + rlen {
        return Err(DecodeError::TooShort);
    }
    let rec_bytes = take_bytes(payload, 2, 2 + rlen);
    if !recipient_bytes_valid(&rec_bytes) {
        return Err(DecodeError::BadRecipient);
    }
    let ghost s32 = payload@.subrange(2 + rlen as int, 34 + rlen as int);
    let ghost amt = be_val(s32);
    if !range_all_zero(payload, 2 + rlen, 18 + rlen) {
        proof {
            let hi = s32.subrange(0, 16);
            lemma_be_val_split(s32, 16);
            lemma_be_val_zero(hi);
            let j = choose|j: int| 2 + rlen <= j < 18 + rlen && payload@[j] != 0;
            assert(hi[j - (2 + rlen)] == s32[j - (2 + rlen)]);
            assert(s32[j - (2 + rlen)] == payload@[j]);
            assert(be_val(hi) >= 1);
            lemma_pow256_16();
            assert(be_val(hi) * pow(256, 16) >= pow(256, 16)) by (nonlinear_arith)
                requires
                    be_val(hi) >= 1,
                    pow(256, 16) > 0,
            ;
            assert(amt > u128::MAX);
        }
        return Err(DecodeError::AmountOverflow);
    }
    proof {
        let hi = s32.subrange(0, 16);
        let lo = s32.subrange(16, 32);
        assert(forall|j: int| 0 <= j < 16 ==> hi[j] == s32[j] && s32[j] == payload@[2 + rlen + j]);
        lemma_be_val_zero(hi);
        assert(be_val(hi) == 0);
        lemma_be_val_split(s32, 16);
        lemma_be_val_bound(lo);
        lemma_pow256_16();
        assert(amt == be_val(lo));
        assert(lo =~= payload@.subrange(18 + rlen as int, 34 + rlen as int));
    }
    let amount = read_be_u128(payload, 18 + rlen);
    assert(amount as nat == amt);
    if amount == 0 {
        return Err(DecodeError::ZeroAmount);
    }
    let tlen = payload[34 + rlen] as usize;
    if n < 35 + rlen + tlen {
        return Err(DecodeError::TooShort);
    }
    if n > 35 + rlen + tlen {
        return Err(DecodeError::TrailingBytes);
    }
    let tok_bytes = take_bytes(payload, 35 + rlen, 35 + rlen + tlen);
    let ghost tokview = chars_of(tok_bytes@);
    if !all_ascii(&tok_bytes) {
        proof {
            let tok = payload@.subrange(35 + rlen as int, 35 + rlen as int + tlen as int);
            let j = choose|j: int| 0 <= j < tok_bytes@.len() && tok_bytes@[j] >= 128;
            assert(tok[j] == tok_bytes@[j]);
            assert(!token_known(tok, dv));
        }
        return Err(DecodeError::UnknownToken);
    }
    let token = ascii_bytes_to_string(tok_bytes);
    assert(token@ == tokview);
    if !denom_known(denoms, &token) {
        return Err(DecodeError::UnknownToken);
    }
    proof {
        assert forall|j: int| 0 <= j < rec_bytes@.len() implies rec_bytes@[j] < 128 by {
            assert(crate::identity::is_id_char(chars_of(rec_bytes@)[j]));
            assert(chars_of(rec_bytes@)[j] == rec_bytes@[j] as char);
        }
    }
    let recipient = ascii_bytes_to_string(rec_bytes);
    Ok(TransferInstruction { recipient, amount, token })
}

/// Decode rejection: a buffer shorter than the two-byte header, an unknown
/// message-type tag, or an amount wider than the local 128-bit
/// representation never decodes, whatever the denomination configuration.
pub proof fn lemma_decode_rejection(bytes: Seq<u8>, denoms: Seq<Seq<char>>)
    ensures
        bytes.len() < 2 ==> decode_spec(bytes, denoms) == Err::<(Seq<char>, u128, Seq<char>),
            DecodeError,
        >(DecodeError::TooShort),
        bytes.len() >= 2 && bytes[0] != TRANSFER_TAG ==> decode_spec(bytes, denoms) == Err::<
            (Seq<char>, u128, Seq<char>),
            DecodeError,
        >(DecodeError::UnknownTag),
        (bytes.len() >= 2 && bytes[0] == TRANSFER_TAG && 3 <= bytes[1] <= 90 && bytes.len() >= 35
            + bytes[1] && valid_identity(chars_of(bytes.subrange(2, 2 + bytes[1]))) && be_val(
            bytes.subrange(2 + bytes[1], 34 + bytes[1]),
        ) > u128::MAX) ==> decode_spec(bytes, denoms) == Err::<(Seq<char>, u128, Seq<char>),
            DecodeError,
        >(DecodeError::AmountOverflow),
{
}

} // verus!
