use vstd::prelude::*;
use vstd::slice::slice_subrange;
use super::cursor::Cursor;
use super::error::ParseError;
use super::parsable::{decodes, Decoded};

verus! {

/// Length of the variable-length group at the head of `s`: the number of
/// bytes up to and including the first one whose top bit is clear.
pub open spec fn leb_len(s: Seq<u8>) -> Option<nat>
    decreases s.len(),
{
    if s.len() == 0 {
        None
    } else if s[0] < 128 {
        Some(1)
    } else {
        match leb_len(s.drop_first()) {
            Some(n) => Some(n + 1),
            None => None,
        }
    }
}

/// The value that the first `n` bytes of `s` spell as an unsigned number:
/// seven bits a byte, least significant group first.
pub open spec fn leb_unsigned(s: Seq<u8>, n: nat) -> nat
    decreases n,
{
    if n == 0 || s.len() == 0 {
        0
    } else {
        (s[0] % 128) as nat + 128 * leb_unsigned(s.drop_first(), (n - 1) as nat)
    }
}

/// The value that the first `n` bytes of `s` spell as a signed number: as
/// `leb_unsigned`, with bit 6 of the last byte as the sign.
pub open spec fn leb_signed(s: Seq<u8>, n: nat) -> int
    decreases n,
{
    if n == 0 || s.len() == 0 {
        0
    } else if n == 1 {
        if s[0] % 128 >= 64 {
            s[0] % 128 - 128
        } else {
            (s[0] % 128) as int
        }
    } else {
        (s[0] % 128) as int + 128 * leb_signed(s.drop_first(), (n - 1) as nat)
    }
}

/// What the outside reader hands back: a number with the count of bytes
/// left behind it, or one of its two failures.
pub enum LebRead<T> {
    Value(T, usize),
    Eof,
    Overflow,
}

/// Calls `leb128::read::unsigned` on `bytes`. A group of at most nine bytes,
/// or of ten whose last byte is 0 or 1, is read successfully; a value comes
/// with the number of bytes left behind the group and is the group's unsigned
/// value. Which failure is reported otherwise is left open.
#[verifier::external_body]
pub(crate) fn leb128_read_unsigned(bytes: &[u8]) -> (r: LebRead<u64>)
    ensures
        match r {
            LebRead::Value(v, left) => {
                &&& left < bytes@.len()
                &&& bytes@.len() - left <= 10
                &&& leb_len(bytes@) == Some((bytes@.len() - left) as nat)
                &&& v == leb_unsigned(bytes@, (bytes@.len() - left) as nat)
            },
            _ => true,
        },
        (leb_len(bytes@) matches Some(n) && (n <= 9 || (n == 10 && bytes@[9] <= 1))) ==> r is Value,
{
    let mut rest: &[u8] = bytes;
    match ::leb128::read::unsigned(&mut rest) {
        Ok(v) => LebRead::Value(v, rest.len()),
        Err(::leb128::read::Error::Overflow) => LebRead::Overflow,
        Err(::leb128::read::Error::IoError(_)) => LebRead::Eof,
    }
}

/// Calls `leb128::read::signed` on `bytes`. A group of at most nine bytes, or
/// of ten whose last byte is `0x00` or `0x7f`, is read successfully; a value
/// comes with the number of bytes left behind the group and is the group's
/// signed value. Which failure is reported otherwise is left open.
#[verifier::external_body]
pub(crate) fn leb128_read_signed(bytes: &[u8]) -> (r: LebRead<i64>)
    ensures
        match r {
            LebRead::Value(v, left) => {
                &&& left < bytes@.len()
                &&& bytes@.len() - left <= 10
                &&& leb_len(bytes@) == Some((bytes@.len() - left) as nat)
                &&& v == leb_signed(bytes@, (bytes@.len() - left) as nat)
            },
            _ => true,
        },
        (leb_len(bytes@) matches Some(n) && (n <= 9 || (n == 10 && (bytes@[9] == 0
            || bytes@[9] == 0x7f)))) ==> r is Value,
{
    let mut rest: &[u8] = bytes;
    match ::leb128::read::signed(&mut rest) {
        Ok(v) => LebRead::Value(v, rest.len()),
        Err(::leb128::read::Error::Overflow) => LebRead::Overflow,
        Err(::leb128::read::Error::IoError(_)) => LebRead::Eof,
    }
}


/// An unsigned number of at most `max_bytes` bytes and at most `limit`.
/// Input that ends inside the first `max_bytes` bytes is cut short; any
/// other failure is an overflow.
pub open spec fn spec_unsigned(s: Seq<u8>, max_bytes: nat, limit: nat) -> Decoded<nat> {
    match leb_len(s) {
        Some(n) => if n <= max_bytes && leb_unsigned(s, n) <= limit {
            Ok((leb_unsigned(s, n), n))
        } else {
            Err(ParseError::Leb128Overflow)
        },
        None => if s.len() < max_bytes {
            Err(ParseError::UnexpectedEof)
        } else {
            Err(ParseError::Leb128Overflow)
        },
    }
}

/// A signed number of at most `max_bytes` bytes that lies in `lo ..= hi`.
pub open spec fn spec_signed(s: Seq<u8>, max_bytes: nat, lo: int, hi: int) -> Decoded<int> {
    match leb_len(s) {
        Some(n) => if n <= max_bytes && lo <= leb_signed(s, n) <= hi {
            Ok((leb_signed(s, n), n))
        } else {
            Err(ParseError::Leb128Overflow)
        },
        None => if s.len() < max_bytes {
            Err(ParseError::UnexpectedEof)
        } else {
            Err(ParseError::Leb128Overflow)
        },
    }
}

/// A `u32`: at most five bytes.
pub open spec fn spec_u32(s: Seq<u8>) -> Decoded<u32> {
    match spec_unsigned(s, 5, 0xffff_ffff) {
        Ok((v, n)) => Ok((v as u32, n)),
        Err(e) => Err(e),
    }
}

/// An `i32`: at most five bytes.
pub open spec fn spec_i32(s: Seq<u8>) -> Decoded<i32> {
    match spec_signed(s, 5, -0x8000_0000, 0x7fff_ffff) {
        Ok((v, n)) => Ok((v as i32, n)),
        Err(e) => Err(e),
    }
}

/// A signed number of 33 bits, as a block type holds it: at most five bytes.
pub open spec fn spec_s33(s: Seq<u8>) -> Decoded<i64> {
    match spec_signed(s, 5, -0x1_0000_0000, 0xffff_ffff) {
        Ok((v, n)) => Ok((v as i64, n)),
        Err(e) => Err(e),
    }
}

/// An `i64`: at most ten bytes.
pub open spec fn spec_i64(s: Seq<u8>) -> Decoded<i64> {
    match spec_signed(s, 10, -0x8000_0000_0000_0000, 0x7fff_ffff_ffff_ffff) {
        Ok((v, n)) => Ok((v as i64, n)),
        Err(e) => Err(e),
    }
}

/// 128 to the power `n`.
pub open spec fn pow128(n: nat) -> nat
    decreases n,
{
    if n == 0 {
        1
    } else {
        128 * pow128((n - 1) as nat)
    }
}

/// The last byte of a group, read as a signed digit.
pub open spec fn signed_digit(b: u8) -> int {
    if b % 128 >= 64 {
        b % 128 - 128
    } else {
        (b % 128) as int
    }
}

/// A group lies inside its input, its last byte is the only one with a clear
/// top bit.
pub proof fn lemma_leb_len(s: Seq<u8>)
    ensures
        leb_len(s) matches Some(n) ==> 1 <= n <= s.len() && s[n - 1] < 128 && forall|i: int|
            0 <= i < n - 1 ==> s[i] >= 128,
        leb_len(s) is None ==> forall|i: int| 0 <= i < s.len() ==> s[i] >= 128,
    decreases s.len(),
{
    if s.len() > 0 && s[0] >= 128 {
        let t = s.drop_first();
        lemma_leb_len(t);
        match leb_len(t) {
            Some(m) => {
                assert(s[m as int] == t[m - 1]);
                assert forall|i: int| 0 <= i < m implies s[i] >= 128 by {
                    if i > 0 {
                        assert(s[i] == t[i - 1]);
                    }
                }
            },
            None => {
                assert forall|i: int| 0 <= i < s.len() implies s[i] >= 128 by {
                    if i > 0 {
                        assert(s[i] == t[i - 1]);
                    }
                }
            },
        }
    }
}

/// An unsigned value of `n` bytes is below `128^n`; the signed value is the
/// unsigned value of the bytes before the last, with the last as signed digit.
pub proof fn lemma_leb_bounds(s: Seq<u8>, n: nat)
    requires
        n <= s.len(),
    ensures
        leb_unsigned(s, n) < pow128(n),
        n >= 1 ==> leb_signed(s, n) == leb_unsigned(s, (n - 1) as nat) + pow128((n - 1) as nat)
            * signed_digit(s[n - 1]),
        n >= 1 ==> leb_unsigned(s, n) == leb_unsigned(s, (n - 1) as nat) + pow128((n - 1) as nat)
            * (s[n - 1] % 128),
    decreases n,
{
    if n >= 1 {
        let t = s.drop_first();
        lemma_leb_bounds(t, (n - 1) as nat);
        if n >= 2 {
            assert(t[n - 2] == s[n - 1]);
            let p = pow128((n - 2) as nat);
            let u = leb_unsigned(t, (n - 2) as nat);
            assert(pow128((n - 1) as nat) == 128 * p);
            assert(leb_unsigned(s, (n - 1) as nat) == (s[0] % 128) + 128 * u);
            assert(128 * (u + p * signed_digit(s[n - 1])) == 128 * u + (128 * p) * signed_digit(
                s[n - 1],
            )) by (nonlinear_arith);
            assert(128 * (u + p * (s[n - 1] % 128)) == 128 * u + (128 * p) * (s[n - 1] % 128))
                by (nonlinear_arith);
        } else {
            assert(leb_unsigned(s, 0) == 0);
            assert(pow128(0) == 1);
            assert(leb_unsigned(t, 0) == 0);
        }
    }
}

/// A group of ten bytes spells a signed number of 64 bits exactly when its
/// last byte is `0x00` or `0x7f`.
pub proof fn lemma_signed_ten(s: Seq<u8>)
    requires
        leb_len(s) == Some(10nat),
    ensures
        (-0x8000_0000_0000_0000 <= leb_signed(s, 10) <= 0x7fff_ffff_ffff_ffff) <==> (s[9] == 0
            || s[9] == 0x7f),
{
    lemma_leb_len(s);
    lemma_leb_bounds(s, 10);
    lemma_leb_bounds(s, 9);
    reveal_with_fuel(pow128, 10);
    assert(pow128(9) == 0x8000_0000_0000_0000);
    let u = leb_unsigned(s, 9);
    let d = signed_digit(s[9]);
    assert(leb_signed(s, 10) == u + 0x8000_0000_0000_0000 * d);
    assert(0 <= u < 0x8000_0000_0000_0000);
    assert(s[9] < 128);
    assert(s[9] % 128 == s[9]);
    lemma_top_digit(u as int, d);
}

proof fn lemma_top_digit(u: int, d: int)
    by (nonlinear_arith)
    requires
        0 <= u < 0x8000_0000_0000_0000,
    ensures
        (-0x8000_0000_0000_0000 <= u + 0x8000_0000_0000_0000 * d <= 0x7fff_ffff_ffff_ffff) <==> (d
            == 0 || d == -1),
{
}

/// Reads an unsigned number of at most `max_bytes` bytes and at most `limit`.
fn read_unsigned(data: &mut Cursor<'_>, max_bytes: usize, limit: u64) -> (r: Result<
    u64,
    ParseError,
>)
    requires
        old(data).wf(),
        1 <= max_bytes <= 9,
    ensures
        final(data).data == old(data).data,
        final(data).wf(),
        match spec_unsigned(old(data).rest(), max_bytes as nat, limit as nat) {
            Ok((v, n)) => r == Ok::<u64, ParseError>(v as u64) && v <= limit && final(data).pos
                == old(data).pos + n,
            Err(e) => r == Err::<u64, ParseError>(e),
        },
{
    let avail = data.remaining();
    let rest = slice_subrange(data.data, data.pos, data.data.len());
    proof {
        lemma_leb_len(rest@);
    }
    match leb128_read_unsigned(rest) {
        LebRead::Value(v, left) => {
            let n = avail - left;
            if n <= max_bytes && v <= limit {
                data.pos = data.pos + n;
                Ok(v)
            } else {
                Err(ParseError::Leb128Overflow)
            }
        },
        _ => {
            if avail < max_bytes {
                Err(ParseError::UnexpectedEof)
            } else {
                Err(ParseError::Leb128Overflow)
            }
        },
    }
}

/// Reads a signed number of at most `max_bytes` bytes that lies in `lo ..= hi`.
fn read_signed(data: &mut Cursor<'_>, max_bytes: usize, lo: i64, hi: i64) -> (r: Result<
    i64,
    ParseError,
>)
    requires
        old(data).wf(),
        1 <= max_bytes <= 10,
        max_bytes == 10 ==> lo == i64::MIN && hi == i64::MAX,
    ensures
        final(data).data == old(data).data,
        final(data).wf(),
        match spec_signed(old(data).rest(), max_bytes as nat, lo as int, hi as int) {
            Ok((v, n)) => r == Ok::<i64, ParseError>(v as i64) && lo <= v <= hi && final(data).pos
                == old(data).pos + n,
            Err(e) => r == Err::<i64, ParseError>(e),
        },
{
    let avail = data.remaining();
    let rest = slice_subrange(data.data, data.pos, data.data.len());
    proof {
        lemma_leb_len(rest@);
        if leb_len(rest@) == Some(10nat) {
            lemma_signed_ten(rest@);
        }
    }
    match leb128_read_signed(rest) {
        LebRead::Value(v, left) => {
            let n = avail - left;
            if n <= max_bytes && lo <= v && v <= hi {
                data.pos = data.pos + n;
                Ok(v)
            } else {
                Err(ParseError::Leb128Overflow)
            }
        },
        _ => {
            if avail < max_bytes {
                Err(ParseError::UnexpectedEof)
            } else {
                Err(ParseError::Leb128Overflow)
            }
        },
    }
}

/// Reads a `u32`.
pub fn read_u32(data: &mut Cursor<'_>) -> (r: Result<u32, ParseError>)
    requires
        old(data).wf(),
    ensures
        decodes(*old(data), *final(data), r, spec_u32(old(data).rest())),
{
    match read_unsigned(data, 5, 0xffff_ffff) {
        Ok(v) => Ok(v as u32),
        Err(e) => Err(e),
    }
}

/// Reads an `i32`.
pub fn read_i32(data: &mut Cursor<'_>) -> (r: Result<i32, ParseError>)
    requires
        old(data).wf(),
    ensures
        decodes(*old(data), *final(data), r, spec_i32(old(data).rest())),
{
    match read_signed(data, 5, -0x8000_0000, 0x7fff_ffff) {
        Ok(v) => Ok(v as i32),
        Err(e) => Err(e),
    }
}

/// Reads a signed number of 33 bits.
pub fn read_s33(data: &mut Cursor<'_>) -> (r: Result<i64, ParseError>)
    requires
        old(data).wf(),
    ensures
        decodes(*old(data), *final(data), r, spec_s33(old(data).rest())),
{
    read_signed(data, 5, -0x1_0000_0000, 0xffff_ffff)
}

/// Reads an `i64`.
pub fn read_i64(data: &mut Cursor<'_>) -> (r: Result<i64, ParseError>)
    requires
        old(data).wf(),
    ensures
        decodes(*old(data), *final(data), r, spec_i64(old(data).rest())),
{
    read_signed(data, 10, i64::MIN, i64::MAX)
}


/// The shortest group that spells `x` as an unsigned number.
pub open spec fn encode_unsigned(x: nat) -> Seq<u8>
    decreases x,
{
    if x < 128 {
        seq![x as u8]
    } else {
        seq![(x % 128 + 128) as u8] + encode_unsigned(x / 128)
    }
}

/// The shortest group that spells `x` as a signed number.
pub open spec fn encode_signed(x: int) -> Seq<u8>
    decreases
            (if x >= 0 {
                x
            } else {
                -x
            }),
{
    if -64 <= x < 64 {
        seq![(x % 128) as u8]
    } else {
        seq![(x % 128 + 128) as u8] + encode_signed(x / 128)
    }
}

/// Decoding undoes encoding, whatever follows the group: the group of
/// `encode_unsigned(x)` ends where the encoding ends and spells `x`.
pub proof fn lemma_unsigned_round_trip(x: nat, tail: Seq<u8>)
    ensures
        leb_len(encode_unsigned(x) + tail) == Some(encode_unsigned(x).len()),
        leb_unsigned(encode_unsigned(x) + tail, encode_unsigned(x).len()) == x,
    decreases x,
{
    let e = encode_unsigned(x);
    let s = e + tail;
    if x < 128 {
        assert(s[0] == x as u8);
        assert(leb_unsigned(s.drop_first(), 0) == 0);
    } else {
        let r = encode_unsigned(x / 128);
        lemma_unsigned_round_trip(x / 128, tail);
        assert(s[0] == (x % 128 + 128) as u8);
        assert(s.drop_first() =~= r + tail);
        assert(e.len() == r.len() + 1);
    }
}

/// Decoding undoes encoding for signed numbers too.
pub proof fn lemma_signed_round_trip(x: int, tail: Seq<u8>)
    ensures
        leb_len(encode_signed(x) + tail) == Some(encode_signed(x).len()),
        leb_signed(encode_signed(x) + tail, encode_signed(x).len()) == x,
    decreases
            (if x >= 0 {
                x
            } else {
                -x
            }),
{
    let e = encode_signed(x);
    let s = e + tail;
    if -64 <= x < 64 {
        assert(s[0] == (x % 128) as u8);
    } else {
        let r = encode_signed(x / 128);
        lemma_signed_round_trip(x / 128, tail);
        assert(s[0] == (x % 128 + 128) as u8);
        assert(s.drop_first() =~= r + tail);
        assert(e.len() == r.len() + 1);
        assert(r.len() >= 1);
    }
}

/// An encoding has at least one byte, and no more than the size of the
/// number asks for.
pub proof fn lemma_encode_unsigned_len(x: nat, k: nat)
    requires
        k >= 1,
        x < pow128(k),
    ensures
        1 <= encode_unsigned(x).len() <= k,
    decreases x,
{
    reveal_with_fuel(pow128, 2);
    if x >= 128 {
        if k == 1 {
            assert(pow128(1) == 128);
        } else {
            lemma_encode_unsigned_len(x / 128, (k - 1) as nat);
        }
    }
}

/// The same for signed numbers: `k` bytes hold every number of `7k` bits.
pub proof fn lemma_encode_signed_len(x: int, k: nat)
    requires
        k >= 1,
        -64 * pow128((k - 1) as nat) <= x < 64 * pow128((k - 1) as nat),
    ensures
        1 <= encode_signed(x).len() <= k,
    decreases
            (if x >= 0 {
                x
            } else {
                -x
            }),
{
    reveal_with_fuel(pow128, 2);
    if !(-64 <= x < 64) {
        if k == 1 {
            assert(pow128(0) == 1);
        } else {
            assert(pow128((k - 1) as nat) == 128 * pow128((k - 2) as nat));
            lemma_encode_signed_len(x / 128, (k - 1) as nat);
        }
    }
}

/// For every `u32`, decoding its encoding gives the number back.
pub proof fn lemma_u32_round_trip(x: u32, tail: Seq<u8>)
    ensures
        spec_u32(encode_unsigned(x as nat) + tail) == Ok::<(u32, nat), ParseError>(
            (x, encode_unsigned(x as nat).len()),
        ),
{
    lemma_unsigned_round_trip(x as nat, tail);
    reveal_with_fuel(pow128, 6);
    assert(pow128(5) == 0x8_0000_0000);
    lemma_encode_unsigned_len(x as nat, 5);
}

/// For every `i32`, decoding its encoding gives the number back.
pub proof fn lemma_i32_round_trip(x: i32, tail: Seq<u8>)
    ensures
        spec_i32(encode_signed(x as int) + tail) == Ok::<(i32, nat), ParseError>(
            (x, encode_signed(x as int).len()),
        ),
{
    lemma_signed_round_trip(x as int, tail);
    reveal_with_fuel(pow128, 6);
    assert(pow128(4) == 0x1000_0000);
    lemma_encode_signed_len(x as int, 5);
}

/// For every `i64`, decoding its encoding gives the number back.
pub proof fn lemma_i64_round_trip(x: i64, tail: Seq<u8>)
    ensures
        spec_i64(encode_signed(x as int) + tail) == Ok::<(i64, nat), ParseError>(
            (x, encode_signed(x as int).len()),
        ),
{
    lemma_signed_round_trip(x as int, tail);
    reveal_with_fuel(pow128, 10);
    assert(pow128(9) == 0x8000_0000_0000_0000);
    lemma_encode_signed_len(x as int, 10);
}

/// No group that spells `x` is shorter than `encode_unsigned(x)`.
pub proof fn lemma_encode_unsigned_minimal(s: Seq<u8>, n: nat)
    requires
        leb_len(s) == Some(n),
    ensures
        encode_unsigned(leb_unsigned(s, n)).len() <= n,
    decreases n,
{
    lemma_leb_len(s);
    let x = leb_unsigned(s, n);
    if x >= 128 {
        if n == 1 {
            assert(leb_unsigned(s.drop_first(), 0) == 0);
        } else {
            let t = s.drop_first();
            assert(s[0] >= 128);
            assert(leb_len(t) == Some((n - 1) as nat));
            lemma_encode_unsigned_minimal(t, (n - 1) as nat);
            assert(x / 128 == leb_unsigned(t, (n - 1) as nat));
        }
    }
}

/// No group that spells `x` as a signed number is shorter than
/// `encode_signed(x)`.
pub proof fn lemma_encode_signed_minimal(s: Seq<u8>, n: nat)
    requires
        leb_len(s) == Some(n),
    ensures
        encode_signed(leb_signed(s, n)).len() <= n,
    decreases n,
{
    lemma_leb_len(s);
    let x = leb_signed(s, n);
    if !(-64 <= x < 64) {
        if n == 1 {
        } else {
            let t = s.drop_first();
            assert(s[0] >= 128);
            assert(leb_len(t) == Some((n - 1) as nat));
            lemma_encode_signed_minimal(t, (n - 1) as nat);
            assert(x / 128 == leb_signed(t, (n - 1) as nat));
        }
    }
}

} // verus!
