//! The byte layout of cached values: little-endian fixed-width integers,
//! length-prefixed byte strings and UTF-8 strings, and tagged optional values.

use vstd::prelude::*;
use vstd::utf8::*;

verus! {

broadcast use vstd::utf8::encode_utf8_decode_utf8, vstd::utf8::encode_utf8_valid_utf8;

/// `n` as `k` little-endian bytes (the high part beyond `k` bytes is dropped).
pub open spec fn le_bytes(n: nat, k: nat) -> Seq<u8>
    decreases k,
{
    if k == 0 {
        Seq::empty()
    } else {
        seq![(n % 256) as u8] + le_bytes(n / 256, (k - 1) as nat)
    }
}

/// The number that little-endian bytes stand for.
pub open spec fn le_value(b: Seq<u8>) -> nat
    decreases b.len(),
{
    if b.len() == 0 {
        0
    } else {
        (b[0] as nat + 256 * le_value(b.drop_first())) as nat
    }
}

pub open spec fn pow256(k: nat) -> nat
    decreases k,
{
    if k == 0 {
        1
    } else {
        256 * pow256((k - 1) as nat)
    }
}

pub proof fn lemma_le_round_trip(n: nat, k: nat)
    requires
        n < pow256(k),
    ensures
        le_bytes(n, k).len() == k,
        le_value(le_bytes(n, k)) == n,
    decreases k,
{
    if k > 0 {
        lemma_le_round_trip(n / 256, (k - 1) as nat);
        assert(le_bytes(n, k).drop_first() =~= le_bytes(n / 256, (k - 1) as nat));
    }
}

pub proof fn lemma_le_value_bound(b: Seq<u8>)
    ensures
        le_value(b) < pow256(b.len()),
    decreases b.len(),
{
    if b.len() > 0 {
        lemma_le_value_bound(b.drop_first());
    }
}

/// A `u64` as eight little-endian bytes.
pub open spec fn ser_u64(n: u64) -> Seq<u8> {
    le_bytes(n as nat, 8)
}

/// A byte string behind its length.
pub open spec fn ser_bytes(s: Seq<u8>) -> Seq<u8> {
    ser_u64(s.len() as u64) + s
}

/// A string as its UTF-8 bytes behind their length.
pub open spec fn ser_str(s: Seq<char>) -> Seq<u8> {
    ser_bytes(encode_utf8(s))
}

/// An optional string: a zero byte, or a one byte followed by the string.
pub open spec fn ser_opt_str(o: Option<Seq<char>>) -> Seq<u8> {
    match o {
        None => seq![0u8],
        Some(s) => seq![1u8] + ser_str(s),
    }
}

/// The bias that maps the `i64` range onto the `u64` range, order kept.
pub open spec fn i64_bias() -> int {
    0x8000_0000_0000_0000
}

/// An optional `i64`: a zero byte, or a one byte followed by the biased value.
pub open spec fn ser_opt_i64(o: Option<i64>) -> Seq<u8> {
    match o {
        None => seq![0u8],
        Some(t) => seq![1u8] + ser_u64((t + i64_bias()) as u64),
    }
}

pub open spec fn take_u64(b: Seq<u8>) -> Option<(u64, Seq<u8>)> {
    if b.len() >= 8 {
        Some((le_value(b.take(8)) as u64, b.skip(8)))
    } else {
        None
    }
}

pub open spec fn take_bytes(b: Seq<u8>) -> Option<(Seq<u8>, Seq<u8>)> {
    match take_u64(b) {
        Some((n, rest)) => if n <= rest.len() {
            Some((rest.take(n as int), rest.skip(n as int)))
        } else {
            None
        },
        None => None,
    }
}

pub open spec fn take_str(b: Seq<u8>) -> Option<(Seq<char>, Seq<u8>)> {
    match take_bytes(b) {
        Some((s, rest)) => if valid_utf8(s) {
            Some((decode_utf8(s), rest))
        } else {
            None
        },
        None => None,
    }
}

pub open spec fn take_opt_str(b: Seq<u8>) -> Option<(Option<Seq<char>>, Seq<u8>)> {
    if b.len() == 0 {
        None
    } else if b[0] == 0 {
        Some((None, b.drop_first()))
    } else if b[0] == 1 {
        match take_str(b.drop_first()) {
            Some((s, rest)) => Some((Some(s), rest)),
            None => None,
        }
    } else {
        None
    }
}

pub open spec fn take_opt_i64(b: Seq<u8>) -> Option<(Option<i64>, Seq<u8>)> {
    if b.len() == 0 {
        None
    } else if b[0] == 0 {
        Some((None, b.drop_first()))
    } else if b[0] == 1 {
        match take_u64(b.drop_first()) {
            Some((u, rest)) => Some((Some((u - i64_bias()) as i64), rest)),
            None => None,
        }
    } else {
        None
    }
}

pub proof fn lemma_u64_round_trip(n: u64, rest: Seq<u8>)
    ensures
        ser_u64(n).len() == 8,
        take_u64(ser_u64(n) + rest) == Some((n, rest)),
{
    lemma_pow256_eight();
    lemma_le_round_trip(n as nat, 8);
    let b = ser_u64(n) + rest;
    assert(b.take(8) =~= ser_u64(n));
    assert(b.skip(8) =~= rest);
}

pub proof fn lemma_bytes_round_trip(s: Seq<u8>, rest: Seq<u8>)
    requires
        s.len() <= u64::MAX,
    ensures
        take_bytes(ser_bytes(s) + rest) == Some((s, rest)),
{
    lemma_u64_round_trip(s.len() as u64, s + rest);
    assert(ser_bytes(s) + rest =~= ser_u64(s.len() as u64) + (s + rest));
    assert((s + rest).take(s.len() as int) =~= s);
    assert((s + rest).skip(s.len() as int) =~= rest);
}

pub proof fn lemma_str_round_trip(s: Seq<char>, rest: Seq<u8>)
    requires
        encode_utf8(s).len() <= u64::MAX,
    ensures
        take_str(ser_str(s) + rest) == Some((s, rest)),
{
    lemma_bytes_round_trip(encode_utf8(s), rest);
}

pub proof fn lemma_opt_str_round_trip(o: Option<Seq<char>>, rest: Seq<u8>)
    requires
        o matches Some(s) ==> encode_utf8(s).len() <= u64::MAX,
    ensures
        take_opt_str(ser_opt_str(o) + rest) == Some((o, rest)),
{
    let b = ser_opt_str(o) + rest;
    match o {
        None => {
            assert(b.drop_first() =~= rest);
        },
        Some(s) => {
            lemma_str_round_trip(s, rest);
            assert(b.drop_first() =~= ser_str(s) + rest);
        },
    }
}

pub proof fn lemma_opt_i64_round_trip(o: Option<i64>, rest: Seq<u8>)
    ensures
        take_opt_i64(ser_opt_i64(o) + rest) == Some((o, rest)),
{
    let b = ser_opt_i64(o) + rest;
    match o {
        None => {
            assert(b.drop_first() =~= rest);
        },
        Some(t) => {
            lemma_u64_round_trip((t + i64_bias()) as u64, rest);
            assert(b.drop_first() =~= ser_u64((t + i64_bias()) as u64) + rest);
        },
    }
}

/// Appends `n` as eight little-endian bytes.
pub fn write_u64(out: &mut Vec<u8>, n: u64)
    ensures
        final(out)@ == old(out)@ + ser_u64(n),
{
    proof {
        lemma_pow256_eight();
    }
    write_le(out, n, 8);
}

/// Appends the low `k` bytes of `n`, least significant first.
pub fn write_le(out: &mut Vec<u8>, n: u64, k: usize)
    requires
        k <= 8,
    ensures
        final(out)@ == old(out)@ + le_bytes(n as nat, k as nat),
{
    let ghost start = out@;
    let mut v: u64 = n;
    assert(pow256(0) == 1);
    assert(n as nat / 1 == n as nat);
    let mut i: usize = 0;
    while i < k
        invariant
            i <= k,
            out@ == start + le_bytes(n as nat, i as nat),
            v as nat == n as nat / pow256(i as nat),
        decreases k - i,
    {
        proof {
            lemma_le_split(n as nat, i as nat);
            lemma_div_pow256(n as nat, i as nat);
        }
        out.push((v % 256) as u8);
        v = v / 256;
        i = i + 1;
    }
}

proof fn lemma_div_pow256(n: nat, i: nat)
    ensures
        n / pow256(i) / 256 == n / pow256(i + 1),
        pow256(i) > 0,
    decreases i,
{
    if i > 0 {
        lemma_div_pow256(n, (i - 1) as nat);
    }
    assert(pow256(i + 1) == 256 * pow256(i));
    vstd::arithmetic::div_mod::lemma_div_denominator(n as int, pow256(i) as int, 256);
    assert(pow256(i) * 256 == 256 * pow256(i)) by (nonlinear_arith);
}

/// Bytes `0..i+1` of `n` extend bytes `0..i` by byte `i`.
proof fn lemma_le_split(n: nat, i: nat)
    ensures
        le_bytes(n, i + 1) =~= le_bytes(n, i) + seq![((n / pow256(i)) % 256) as u8],
    decreases i,
{
    if i > 0 {
        lemma_le_split(n / 256, (i - 1) as nat);
        lemma_div_pow256_front(n, (i - 1) as nat);
        assert(le_bytes(n, i + 1) =~= seq![(n % 256) as u8] + le_bytes(n / 256, i));
        assert(le_bytes(n, i) =~= seq![(n % 256) as u8] + le_bytes(n / 256, (i - 1) as nat));
    } else {
        assert(pow256(0) == 1);
        assert(n / 1 == n);
        assert(le_bytes(n, 1) =~= seq![(n % 256) as u8] + le_bytes(n / 256, 0));
    }
}

proof fn lemma_div_pow256_front(n: nat, i: nat)
    ensures
        n / 256 / pow256(i) == n / pow256(i + 1),
    decreases i,
{
    assert(pow256(i) > 0) by {
        lemma_div_pow256(n, i);
    }
    vstd::arithmetic::div_mod::lemma_div_denominator(n as int, 256, pow256(i) as int);
}

/// Appends a byte string behind its length.
pub fn write_bytes(out: &mut Vec<u8>, s: &[u8])
    ensures
        final(out)@ == old(out)@ + ser_bytes(s@),
        s@.len() <= u64::MAX,
{
    write_u64(out, s.len() as u64);
    let ghost mid = out@;
    let mut i: usize = 0;
    while i < s.len()
        invariant
            i <= s@.len(),
            out@ == mid + s@.take(i as int),
        decreases s@.len() - i,
    {
        out.push(s[i]);
        assert(s@.take(i + 1) =~= s@.take(i as int).push(s@[i as int]));
        i = i + 1;
    }
    assert(s@.take(s@.len() as int) =~= s@);
    assert(old(out)@ + ser_bytes(s@) =~= old(out)@ + ser_u64(s@.len() as u64) + s@);
}

/// Appends a string as its UTF-8 bytes behind their length.
pub fn write_str(out: &mut Vec<u8>, s: &str)
    ensures
        final(out)@ == old(out)@ + ser_str(s@),
        encode_utf8(s@).len() <= u64::MAX,
{
    write_bytes(out, s.as_bytes());
}

/// Appends an optional string.
pub fn write_opt_str(out: &mut Vec<u8>, o: &Option<String>)
    ensures
        final(out)@ == old(out)@ + ser_opt_str(opt_str_view(o)),
        opt_str_view(o) matches Some(t) ==> encode_utf8(t).len() <= u64::MAX,
{
    match o {
        None => {
            out.push(0u8);
            assert(out@ =~= old(out)@ + ser_opt_str(opt_str_view(o)));
        },
        Some(s) => {
            out.push(1u8);
            write_str(out, s.as_str());
            assert(out@ =~= old(out)@ + ser_opt_str(opt_str_view(o)));
        },
    }
}

/// Appends an optional `i64`.
pub fn write_opt_i64(out: &mut Vec<u8>, o: Option<i64>)
    ensures
        final(out)@ == old(out)@ + ser_opt_i64(o),
{
    match o {
        None => {
            out.push(0u8);
            assert(out@ =~= old(out)@ + ser_opt_i64(o));
        },
        Some(t) => {
            out.push(1u8);
            let u = (t as i128 + 0x8000_0000_0000_0000i128) as u64;
            write_u64(out, u);
            assert(out@ =~= old(out)@ + ser_opt_i64(o));
        },
    }
}

/// The view of an optional string.
pub open spec fn opt_str_view(o: &Option<String>) -> Option<Seq<char>> {
    match o {
        Some(s) => Some(s@),
        None => None,
    }
}

/// Reads eight little-endian bytes at `pos`.
pub fn read_u64(b: &[u8], pos: usize) -> (r: Option<(u64, usize)>)
    requires
        pos <= b@.len(),
    ensures
        match r {
            Some((n, p)) => pos <= p <= b@.len() && take_u64(b@.skip(pos as int)) == Some(
                (n, b@.skip(p as int)),
            ),
            None => take_u64(b@.skip(pos as int)) is None,
        },
{
    read_le(b, pos, 8)
}

/// Reads `k` little-endian bytes at `pos`.
pub fn read_le(b: &[u8], pos: usize, k: usize) -> (r: Option<(u64, usize)>)
    requires
        pos <= b@.len(),
        k <= 8,
    ensures
        match r {
            Some((n, p)) => pos <= p <= b@.len() && p == pos + k && b@.skip(pos as int).len() >= k
                && n as nat == le_value(b@.skip(pos as int).take(k as int)) && b@.skip(p as int)
                == b@.skip(pos as int).skip(k as int),
            None => b@.skip(pos as int).len() < k,
        },
{
    if b.len() - pos < k {
        return None;
    }
    let len = b.len();
    let ghost w = b@.skip(pos as int).take(k as int);
    let mut v: u64 = 0;
    let mut i: usize = k;
    proof {
        lemma_le_value_bound(w.skip(k as int));
        assert(w.skip(k as int).len() == 0);
    }
    while i > 0
        invariant
            0 <= i <= k <= 8,
            pos + k <= len,
            len == b@.len(),
            w == b@.skip(pos as int).take(k as int),
            v as nat == le_value(w.skip(i as int)),
        decreases i,
    {
        let byte = b[pos + i - 1];
        proof {
            assert(w.skip(i - 1).drop_first() =~= w.skip(i as int));
            assert(w.skip(i - 1)[0] == byte);
            lemma_le_value_bound(w.skip(i - 1));
            assert(pow256((k - (i - 1)) as nat) <= pow256(8)) by {
                lemma_pow256_mono((k - (i - 1)) as nat, 8);
            }
            lemma_pow256_eight();
        }
        v = byte as u64 + 256 * v;
        i = i - 1;
    }
    proof {
        assert(w.skip(0) =~= w);
        assert(b@.skip(pos as int).skip(k as int) =~= b@.skip(pos + k));
    }
    Some((v, pos + k))
}

proof fn lemma_pow256_eight()
    ensures
        pow256(8) == 0x1_0000_0000_0000_0000,
{
    reveal_with_fuel(pow256, 9);
}

proof fn lemma_pow256_mono(a: nat, b: nat)
    requires
        a <= b,
    ensures
        pow256(a) <= pow256(b),
    decreases b,
{
    if a < b {
        lemma_pow256_mono(a, (b - 1) as nat);
    }
}

/// Reads a length-prefixed byte string at `pos`.
pub fn read_bytes(b: &[u8], pos: usize) -> (r: Option<(Vec<u8>, usize)>)
    requires
        pos <= b@.len(),
    ensures
        match r {
            Some((s, p)) => pos <= p <= b@.len() && take_bytes(b@.skip(pos as int)) == Some(
                (s@, b@.skip(p as int)),
            ),
            None => take_bytes(b@.skip(pos as int)) is None,
        },
{
    match read_u64(b, pos) {
        None => None,
        Some((n, p)) => {
            if n > (b.len() - p) as u64 {
                return None;
            }
            let n = n as usize;
            let len = b.len();
            let mut s: Vec<u8> = Vec::new();
            let mut i: usize = 0;
            while i < n
                invariant
                    i <= n,
                    p + n <= len,
                    len == b@.len(),
                    s@ == b@.subrange(p as int, p + i),
                decreases n - i,
            {
                s.push(b[p + i]);
                assert(b@.subrange(p as int, p + i + 1) =~= b@.subrange(p as int, p + i).push(
                    b@[p + i],
                ));
                i = i + 1;
            }
            assert(b@.skip(p as int).take(n as int) =~= b@.subrange(p as int, p + n));
            assert(b@.skip(p as int).skip(n as int) =~= b@.skip(p + n));
            Some((s, p + n))
        },
    }
}

/// Relies on `String::from_utf8`: it succeeds exactly on valid UTF-8, and then
/// the string's characters are those the bytes encode.
#[verifier::external_body]
fn string_from_utf8(b: Vec<u8>) -> (r: Option<String>)
    ensures
        r is Some <==> valid_utf8(b@),
        r matches Some(s) ==> s@ == decode_utf8(b@),
{
    String::from_utf8(b).ok()
}

/// Reads a length-prefixed UTF-8 string at `pos`.
pub fn read_str(b: &[u8], pos: usize) -> (r: Option<(String, usize)>)
    requires
        pos <= b@.len(),
    ensures
        match r {
            Some((s, p)) => pos <= p <= b@.len() && take_str(b@.skip(pos as int)) == Some(
                (s@, b@.skip(p as int)),
            ),
            None => take_str(b@.skip(pos as int)) is None,
        },
{
    match read_bytes(b, pos) {
        None => None,
        Some((s, p)) => match string_from_utf8(s) {
            Some(text) => Some((text, p)),
            None => None,
        },
    }
}

/// Reads an optional string at `pos`.
pub fn read_opt_str(b: &[u8], pos: usize) -> (r: Option<(Option<String>, usize)>)
    requires
        pos <= b@.len(),
    ensures
        match r {
            Some((o, p)) => pos <= p <= b@.len() && take_opt_str(b@.skip(pos as int)) == Some(
                (opt_str_view(&o), b@.skip(p as int)),
            ),
            None => take_opt_str(b@.skip(pos as int)) is None,
        },
{
    if pos >= b.len() {
        return None;
    }
    assert(b@.skip(pos as int)[0] == b@[pos as int]);
    assert(b@.skip(pos as int).drop_first() =~= b@.skip(pos + 1));
    if b[pos] == 0 {
        Some((None, pos + 1))
    } else if b[pos] == 1 {
        match read_str(b, pos + 1) {
            Some((s, p)) => Some((Some(s), p)),
            None => None,
        }
    } else {
        None
    }
}

/// Reads an optional `i64` at `pos`.
pub fn read_opt_i64(b: &[u8], pos: usize) -> (r: Option<(Option<i64>, usize)>)
    requires
        pos <= b@.len(),
    ensures
        match r {
            Some((o, p)) => pos <= p <= b@.len() && take_opt_i64(b@.skip(pos as int)) == Some(
                (o, b@.skip(p as int)),
            ),
            None => take_opt_i64(b@.skip(pos as int)) is None,
        },
{
    if pos >= b.len() {
        return None;
    }
    assert(b@.skip(pos as int)[0] == b@[pos as int]);
    assert(b@.skip(pos as int).drop_first() =~= b@.skip(pos + 1));
    if b[pos] == 0 {
        Some((None, pos + 1))
    } else if b[pos] == 1 {
        match read_u64(b, pos + 1) {
            Some((u, p)) => {
                let t = (u as i128 - 0x8000_0000_0000_0000i128) as i64;
                Some((Some(t), p))
            },
            None => None,
        }
    } else {
        None
    }
}

} // verus!
