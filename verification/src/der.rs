//! Conversion of SEC1 ECDSA signatures (`r || s`, 32 bytes each) to DER.
use vstd::prelude::*;

verus! {

/// The length in bytes of one component (`r` or `s`) of a SEC1 signature.
pub const SEC1_COMPONENT_LEN: usize = 32;

/// The DER tag of an INTEGER.
pub const DER_INTEGER_TAG: u8 = 0x02;

/// The DER tag of a constructed SEQUENCE.
pub const DER_SEQUENCE_TAG: u8 = 0x30;

/// Every byte of `bytes` is zero (an empty sequence counts as zero).
pub open spec fn is_zero_magnitude(bytes: Seq<u8>) -> bool {
    forall|i: int| 0 <= i < bytes.len() ==> bytes[i] == 0
}

/// `bytes` without its leading zero bytes.
pub open spec fn strip_leading_zeros(bytes: Seq<u8>) -> Seq<u8>
    decreases bytes.len(),
{
    if bytes.len() > 0 && bytes[0] == 0 {
        strip_leading_zeros(bytes.drop_first())
    } else {
        bytes
    }
}

/// The content octets of the DER INTEGER whose value is the big-endian
/// unsigned magnitude `bytes`: the magnitude without leading zeros, with one
/// zero byte put back in front when its top bit is set (so that the value
/// reads as nonnegative).
pub open spec fn der_integer_content(bytes: Seq<u8>) -> Seq<u8> {
    let m = strip_leading_zeros(bytes);
    if m.len() > 0 && m[0] >= 0x80 {
        seq![0u8] + m
    } else {
        m
    }
}

/// The DER encoding (tag, length, content) of the INTEGER whose value is the
/// big-endian unsigned magnitude `bytes`.
pub open spec fn der_integer(bytes: Seq<u8>) -> Seq<u8> {
    let content = der_integer_content(bytes);
    seq![DER_INTEGER_TAG, content.len() as u8] + content
}

/// The DER encoding of the ECDSA signature `SEQUENCE { r INTEGER, s INTEGER }`.
pub open spec fn der_signature(r: Seq<u8>, s: Seq<u8>) -> Seq<u8> {
    let body = der_integer(r) + der_integer(s);
    seq![DER_SEQUENCE_TAG, body.len() as u8] + body
}

/// 256 to the power `n`.
pub open spec fn pow256(n: nat) -> nat
    decreases n,
{
    if n == 0 {
        1
    } else {
        256 * pow256((n - 1) as nat)
    }
}

/// The unsigned integer that the big-endian bytes `bytes` denote.
pub open spec fn be_value(bytes: Seq<u8>) -> nat
    decreases bytes.len(),
{
    if bytes.len() == 0 {
        0
    } else {
        bytes[0] as nat * pow256((bytes.len() - 1) as nat) + be_value(bytes.drop_first())
    }
}

/// The DER signature checks of BIP 66 (Bitcoin's `IsValidSignatureEncoding`),
/// for a signature without the trailing sighash byte: a SEQUENCE of exactly
/// two INTEGERs, lengths consistent, each INTEGER nonempty, nonnegative and
/// minimally encoded (a byte below 0x80 has its top bit clear).
pub open spec fn is_strict_der_signature(sig: Seq<u8>) -> bool {
    let n = sig.len() as int;
    &&& 8 <= n <= 72
    &&& sig[0] == DER_SEQUENCE_TAG
    &&& sig[1] == n - 2
    &&& 5 + sig[3] < n
    &&& {
        let len_r = sig[3] as int;
        let len_s = sig[5 + len_r] as int;
        &&& len_r + len_s + 6 == n
        &&& sig[2] == DER_INTEGER_TAG
        &&& len_r != 0
        &&& sig[4] < 0x80
        &&& (len_r > 1 && sig[4] == 0 ==> sig[5] >= 0x80)
        &&& sig[len_r + 4] == DER_INTEGER_TAG
        &&& len_s != 0
        &&& sig[len_r + 6] < 0x80
        &&& (len_s > 1 && sig[len_r + 6] == 0 ==> sig[len_r + 7] >= 0x80)
    }
}

/// The content octets of the two INTEGERs of a DER signature, as laid out by
/// `is_strict_der_signature`.
pub open spec fn der_signature_components(sig: Seq<u8>) -> (Seq<u8>, Seq<u8>) {
    let len_r = sig[3] as int;
    let len_s = sig[5 + len_r] as int;
    (sig.subrange(4, 4 + len_r), sig.subrange(6 + len_r, 6 + len_r + len_s))
}

// ---------------------------------------------------------------------------
// Lemmas about the specification functions.

/// The stripped magnitude is a suffix of the input, every byte dropped was
/// zero, and it starts with a nonzero byte unless it is empty.
proof fn lemma_strip_shape(bytes: Seq<u8>)
    ensures
        strip_leading_zeros(bytes).len() <= bytes.len(),
        strip_leading_zeros(bytes) =~= bytes.skip(
            bytes.len() - strip_leading_zeros(bytes).len(),
        ),
        forall|i: int|
            0 <= i < bytes.len() - strip_leading_zeros(bytes).len() ==> bytes[i] == 0,
        strip_leading_zeros(bytes).len() > 0 ==> strip_leading_zeros(bytes)[0] != 0,
        strip_leading_zeros(bytes).len() == 0 <==> is_zero_magnitude(bytes),
    decreases bytes.len(),
{
    if bytes.len() > 0 && bytes[0] == 0 {
        let tail = bytes.drop_first();
        lemma_strip_shape(tail);
        assert(strip_leading_zeros(bytes) == strip_leading_zeros(tail));
        assert forall|i: int|
            0 <= i < bytes.len() - strip_leading_zeros(bytes).len() implies bytes[i] == 0 by {
            if i > 0 {
                assert(bytes[i] == tail[i - 1]);
            }
        }
        if is_zero_magnitude(bytes) {
            assert forall|i: int| 0 <= i < tail.len() implies tail[i] == 0 by {
                assert(tail[i] == bytes[i + 1]);
            }
        }
        if is_zero_magnitude(tail) {
            assert forall|i: int| 0 <= i < bytes.len() implies bytes[i] == 0 by {
                if i > 0 {
                    assert(bytes[i] == tail[i - 1]);
                }
            }
        }
    } else {
        assert(bytes.skip(0) =~= bytes);
        if bytes.len() > 0 {
            assert(!is_zero_magnitude(bytes) && bytes[0] != 0);
        }
    }
}

/// Dropping leading zeros leaves a magnitude that starts with a nonzero byte
/// as it is.
proof fn lemma_strip_skip(bytes: Seq<u8>, start: int)
    requires
        0 <= start <= bytes.len(),
        forall|i: int| 0 <= i < start ==> bytes[i] == 0,
    ensures
        strip_leading_zeros(bytes) == strip_leading_zeros(bytes.skip(start)),
    decreases start,
{
    if start > 0 {
        let tail = bytes.drop_first();
        assert forall|i: int| 0 <= i < start - 1 implies tail[i] == 0 by {
            assert(tail[i] == bytes[i + 1]);
        }
        lemma_strip_skip(tail, start - 1);
        assert(tail.skip(start - 1) =~= bytes.skip(start));
    } else {
        assert(bytes.skip(0) =~= bytes);
    }
}

/// A leading zero byte does not change the value.
proof fn lemma_be_value_leading_zero(bytes: Seq<u8>)
    requires
        bytes.len() > 0,
        bytes[0] == 0,
    ensures
        be_value(bytes) == be_value(bytes.drop_first()),
{
    let p = pow256((bytes.len() - 1) as nat);
    let b = bytes[0] as nat;
    assert(b * p == 0) by (nonlinear_arith)
        requires
            b == 0,
    ;
}

/// Stripping leading zeros does not change the value.
proof fn lemma_be_value_strip(bytes: Seq<u8>)
    ensures
        be_value(strip_leading_zeros(bytes)) == be_value(bytes),
    decreases bytes.len(),
{
    if bytes.len() > 0 && bytes[0] == 0 {
        lemma_be_value_leading_zero(bytes);
        lemma_be_value_strip(bytes.drop_first());
    }
}

/// The content octets of a nonzero magnitude of at most 32 bytes: between
/// 1 and 33 bytes, with the top bit of the first byte clear, minimally
/// encoded, and with the magnitude's value.
proof fn lemma_der_integer_content(bytes: Seq<u8>)
    requires
        bytes.len() <= 32,
        !is_zero_magnitude(bytes),
    ensures
        ({
            let c = der_integer_content(bytes);
            &&& 1 <= c.len() <= 33
            &&& c[0] < 0x80
            &&& c.len() > 1 && c[0] == 0 ==> c[1] >= 0x80
            &&& be_value(c) == be_value(bytes)
        }),
{
    lemma_strip_shape(bytes);
    lemma_be_value_strip(bytes);
    let m = strip_leading_zeros(bytes);
    let c = der_integer_content(bytes);
    if m[0] >= 0x80 {
        assert(c.drop_first() =~= m);
        lemma_be_value_leading_zero(c);
    }
}

/// Layout of `der_signature`: where each part of it stands.
proof fn lemma_der_signature_layout(r: Seq<u8>, s: Seq<u8>)
    requires
        r.len() <= 32,
        s.len() <= 32,
        !is_zero_magnitude(r),
        !is_zero_magnitude(s),
    ensures
        ({
            let cr = der_integer_content(r);
            let cs = der_integer_content(s);
            let lr = cr.len() as int;
            let ls = cs.len() as int;
            let sig = der_signature(r, s);
            &&& sig.len() == 6 + lr + ls
            &&& sig[0] == DER_SEQUENCE_TAG
            &&& sig[1] == sig.len() - 2
            &&& sig[2] == DER_INTEGER_TAG
            &&& sig[3] == lr
            &&& sig.subrange(4, 4 + lr) =~= cr
            &&& sig[4 + lr] == DER_INTEGER_TAG
            &&& sig[5 + lr] == ls
            &&& sig.subrange(6 + lr, 6 + lr + ls) =~= cs
        }),
{
    lemma_der_integer_content(r);
    lemma_der_integer_content(s);
    let cr = der_integer_content(r);
    let cs = der_integer_content(s);
    let lr = cr.len() as int;
    let ls = cs.len() as int;
    let ir = der_integer(r);
    let is = der_integer(s);
    let body = ir + is;
    let sig = der_signature(r, s);
    assert(ir.len() == 2 + lr);
    assert(is.len() == 2 + ls);
    assert(body.len() == 4 + lr + ls);
    assert(sig.len() == 6 + lr + ls);
    assert(sig[1] == (body.len() as u8));
    assert forall|i: int| 0 <= i < lr implies sig[4 + i] == cr[i] by {
        assert(sig[4 + i] == body[2 + i]);
        assert(body[2 + i] == ir[2 + i]);
    }
    assert forall|i: int| 0 <= i < ls implies sig[6 + lr + i] == cs[i] by {
        assert(sig[6 + lr + i] == body[4 + lr + i]);
        assert(body[4 + lr + i] == is[2 + i]);
    }
    assert(sig[4 + lr] == is[0]);
    assert(sig[5 + lr] == is[1]);
}

// ---------------------------------------------------------------------------
// Laws.

/// The DER produced from a SEC1 signature whose components are both nonzero
/// passes the strict DER signature checks of BIP 66.
pub proof fn lemma_der_signature_is_strict(r: Seq<u8>, s: Seq<u8>)
    requires
        r.len() <= 32,
        s.len() <= 32,
        !is_zero_magnitude(r),
        !is_zero_magnitude(s),
    ensures
        is_strict_der_signature(der_signature(r, s)),
{
    lemma_der_integer_content(r);
    lemma_der_integer_content(s);
    lemma_der_signature_layout(r, s);
    let cr = der_integer_content(r);
    let cs = der_integer_content(s);
    let lr = cr.len() as int;
    let sig = der_signature(r, s);
    assert(sig.subrange(4, 4 + lr)[0] == sig[4]);
    assert(sig[4] == cr[0]);
    assert(sig[6 + lr] == cs[0]);
    if lr > 1 {
        assert(sig[5] == cr[1]);
    }
    if cs.len() > 1 {
        assert(sig[7 + lr] == cs[1]);
    }
}

/// Decoding the DER produced from a SEC1 signature gives back its two
/// components: the INTEGERs of the DER have the values of `r` and `s`.
pub proof fn lemma_der_signature_decodes(r: Seq<u8>, s: Seq<u8>)
    requires
        r.len() <= 32,
        s.len() <= 32,
        !is_zero_magnitude(r),
        !is_zero_magnitude(s),
    ensures
        be_value(der_signature_components(der_signature(r, s)).0) == be_value(r),
        be_value(der_signature_components(der_signature(r, s)).1) == be_value(s),
{
    lemma_der_integer_content(r);
    lemma_der_integer_content(s);
    lemma_der_signature_layout(r, s);
}

// ---------------------------------------------------------------------------
// Executable code.

/// Appends to `buf` the DER INTEGER whose value is the big-endian unsigned
/// magnitude `bytes` and returns the length of its content.
fn push_integer(buf: &mut Vec<u8>, bytes: &[u8]) -> (n: u8)
    requires
        bytes@.len() <= 32,
        !is_zero_magnitude(bytes@),
    ensures
        final(buf)@ == old(buf)@ + der_integer(bytes@),
        n == der_integer_content(bytes@).len(),
{
    proof {
        lemma_strip_shape(bytes@);
        lemma_der_integer_content(bytes@);
    }
    let len = bytes.len();
    let mut start: usize = 0;
    while start < len && bytes[start] == 0
        invariant
            len == bytes@.len(),
            len <= 32,
            !is_zero_magnitude(bytes@),
            start <= len,
            forall|i: int| 0 <= i < start ==> bytes@[i] == 0,
        decreases len - start,
    {
        start = start + 1;
    }
    proof {
        if start == len {
            assert(is_zero_magnitude(bytes@));
        }
        lemma_strip_skip(bytes@, start as int);
        let rest = bytes@.skip(start as int);
        assert(rest[0] == bytes@[start as int]);
        assert(strip_leading_zeros(rest) == rest);
    }
    let ghost m = bytes@.skip(start as int);
    let neg = bytes[start] >= 0x80;
    let n: u8 = if neg {
        (len - start + 1) as u8
    } else {
        (len - start) as u8
    };
    let ghost before = buf@;
    buf.push(DER_INTEGER_TAG);
    buf.push(n);
    if neg {
        buf.push(0);
    }
    let ghost head = buf@;
    let mut i: usize = start;
    while i < len
        invariant
            len == bytes@.len(),
            start <= i <= len,
            m == bytes@.skip(start as int),
            buf@ == head + m.take(i - start),
        decreases len - i,
    {
        buf.push(bytes[i]);
        assert(m.take(i + 1 - start) =~= m.take(i - start).push(bytes@[i as int]));
        i = i + 1;
    }
    assert(m.take(len - start) =~= m);
    proof {
        let c = der_integer_content(bytes@);
        if neg {
            assert(head =~= before + seq![DER_INTEGER_TAG, n, 0u8]);
            assert(c =~= seq![0u8] + m);
        } else {
            assert(head =~= before + seq![DER_INTEGER_TAG, n]);
            assert(c =~= m);
        }
        assert(buf@ =~= before + der_integer(bytes@));
    }
    n
}

/// Converts a SEC1 ECDSA signature (`r` in the first 32 bytes, `s` in the
/// last 32, both big-endian) to the DER format
/// `SEQUENCE { r INTEGER, s INTEGER }`.
///
/// The input must be 64 bytes long and neither component may be zero.
pub fn sec1_to_der(sec1: &[u8]) -> (der: Vec<u8>)
    requires
        sec1@.len() == 64,
        !is_zero_magnitude(sec1@.subrange(0, 32)),
        !is_zero_magnitude(sec1@.subrange(32, 64)),
    ensures
        der@ == der_signature(sec1@.subrange(0, 32), sec1@.subrange(32, 64)),
{
    let r = &sec1[0..SEC1_COMPONENT_LEN];
    let s = &sec1[SEC1_COMPONENT_LEN..2 * SEC1_COMPONENT_LEN];
    proof {
        lemma_der_integer_content(r@);
        lemma_der_integer_content(s@);
    }
    let mut buf: Vec<u8> = Vec::with_capacity(72);
    // Start of the DER sequence.
    buf.push(DER_SEQUENCE_TAG);
    // The length of the sequence: two bytes for the integer tags and two
    // bytes for the lengths of the integers, plus the contents added below.
    buf.push(4);
    let rlen = push_integer(&mut buf, r);
    let slen = push_integer(&mut buf, s);
    let total = buf[1] + rlen + slen;
    buf.set(1, total);
    proof {
        let body = der_integer(r@) + der_integer(s@);
        assert(buf@ =~= seq![DER_SEQUENCE_TAG, body.len() as u8] + body);
    }
    buf
}

} // verus!
