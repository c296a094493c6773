//! The canonical wire encoding of envelopes: little-endian 64-bit lengths
//! and integers, length-prefixed ASCII text, a tag byte for the payload
//! variant. Encoding and decoding are both verified, and decoding an encoded
//! signed envelope is proved to give the envelope back.
use vstd::prelude::*;

verus! {

use crate::envelope::EnvelopeView;
use crate::envelope::SignedEnvelope;
use crate::envelope::SignedView;
use crate::envelope::UnsignedEnvelope;
use crate::payload::ActionPayload;
use crate::payload::PayloadView;
use crate::payload::all_ascii_strs;
use crate::payload::string_views;
use crate::text::all_bytes_ascii;
use crate::text::ascii_bytes;
use crate::text::ascii_chars;
use vstd::arithmetic::div_mod::lemma_fundamental_div_mod;
use vstd::utf8::is_ascii_chars;

/// 256 to the power `k`.
pub open spec fn pow256(k: nat) -> nat
    decreases k,
{
    if k == 0 {
        1
    } else {
        256 * pow256((k - 1) as nat)
    }
}

proof fn lemma_pow256_pos(k: nat)
    ensures
        pow256(k) >= 1,
    decreases k,
{
    if k > 0 {
        lemma_pow256_pos((k - 1) as nat)
    }
}

proof fn lemma_pow256_8()
    ensures
        pow256(8) == 0x10000000000000000,
{
    reveal_with_fuel(pow256, 9);
}

/// The `k` little-endian base-256 digits of `n`.
pub open spec fn enc_le(n: nat, k: nat) -> Seq<u8>
    decreases k,
{
    if k == 0 {
        Seq::empty()
    } else {
        seq![(n % 256) as u8] + enc_le(n / 256, (k - 1) as nat)
    }
}

/// The value of a little-endian base-256 digit sequence.
pub open spec fn dec_le(b: Seq<u8>) -> nat
    decreases b.len(),
{
    if b.len() == 0 {
        0
    } else {
        (b[0] as nat) + 256 * dec_le(b.drop_first())
    }
}

/// The 8 wire bytes of a `u64`.
pub open spec fn enc_u64(n: u64) -> Seq<u8> {
    enc_le(n as nat, 8)
}

proof fn lemma_enc_le_len(n: nat, k: nat)
    ensures
        enc_le(n, k).len() == k,
    decreases k,
{
    if k > 0 {
        lemma_enc_le_len(n / 256, (k - 1) as nat);
    }
}

proof fn lemma_dec_le_bound(b: Seq<u8>)
    ensures
        dec_le(b) < pow256(b.len() as nat),
    decreases b.len(),
{
    if b.len() > 0 {
        lemma_dec_le_bound(b.drop_first());
    }
}

proof fn lemma_le_roundtrip(n: nat, k: nat)
    requires
        n < pow256(k),
    ensures
        dec_le(enc_le(n, k)) == n,
    decreases k,
{
    if k > 0 {
        lemma_enc_le_len(n / 256, (k - 1) as nat);
        assert(enc_le(n, k).drop_first() =~= enc_le(n / 256, (k - 1) as nat));
        lemma_pow256_pos((k - 1) as nat);
        assert(n / 256 < pow256((k - 1) as nat)) by (nonlinear_arith)
            requires
                n < 256 * pow256((k - 1) as nat),
                pow256((k - 1) as nat) >= 1,
        {};
        lemma_le_roundtrip(n / 256, (k - 1) as nat);
        lemma_fundamental_div_mod(n as int, 256);
    }
}

fn encode_le_into(out: &mut Vec<u8>, n: u64, k: usize)
    ensures
        final(out)@ == old(out)@ + enc_le(n as nat, k as nat),
    decreases k,
{
    if k == 0 {
        proof {
            assert(out@ =~= out@ + enc_le(n as nat, 0));
        }
    } else {
        out.push((n % 256) as u8);
        encode_le_into(out, n / 256, k - 1);
        proof {
            assert(out@ =~= old(out)@ + enc_le(n as nat, k as nat));
        }
    }
}

/// Appends the 8 wire bytes of `n`.
fn encode_u64_into(out: &mut Vec<u8>, n: u64)
    ensures
        final(out)@ == old(out)@ + enc_u64(n),
{
    encode_le_into(out, n, 8);
}

fn decode_le_at(bytes: &Vec<u8>, pos: usize, k: usize) -> (r: u64)
    requires
        pos + k <= bytes@.len(),
        k <= 8,
    ensures
        r as nat == dec_le(bytes@.subrange(pos as int, pos as int + k)),
        (r as nat) < pow256(k as nat),
    decreases k,
{
    let blen = bytes.len();
    if k == 0 {
        proof {
            assert(bytes@.subrange(pos as int, pos as int) =~= Seq::<u8>::empty());
        }
        0
    } else {
        let b = bytes[pos];
        let rest = decode_le_at(bytes, pos + 1, k - 1);
        proof {
            let sub = bytes@.subrange(pos as int, pos as int + k);
            assert(sub.drop_first() =~= bytes@.subrange(pos as int + 1, pos as int + 1 + (k - 1)));
            assert(sub[0] == bytes@[pos as int]);
            lemma_pow256_mono(k as nat, 8);
            lemma_pow256_8();
        }
        b as u64 + 256 * rest
    }
}

/// Reads the 8 wire bytes at `pos` as a `u64`.
fn decode_u64_at(bytes: &Vec<u8>, pos: usize) -> (r: u64)
    requires
        pos + 8 <= bytes@.len(),
    ensures
        r as nat == dec_le(bytes@.subrange(pos as int, pos as int + 8)),
{
    decode_le_at(bytes, pos, 8)
}

proof fn lemma_pow256_mono(a: nat, b: nat)
    requires
        a <= b,
    ensures
        pow256(a) <= pow256(b),
    decreases b,
{
    if a < b {
        lemma_pow256_mono(a, (b - 1) as nat);
        lemma_pow256_pos((b - 1) as nat);
    }
}

// ---------------------------------------------------------------------------
// Wire shape: length-prefixed byte strings, ASCII text, string lists, the
// tagged payload, the envelope, and the signed envelope.
// ---------------------------------------------------------------------------
/// A byte string on the wire: its length, then its bytes.
pub open spec fn enc_bytes(b: Seq<u8>) -> Seq<u8> {
    enc_le(b.len(), 8) + b
}

/// ASCII text on the wire: its length, then one byte per character.
pub open spec fn enc_str(s: Seq<char>) -> Seq<u8> {
    enc_bytes(ascii_bytes(s))
}

/// The concatenated encodings of a sequence of texts.
pub open spec fn enc_strs(l: Seq<Seq<char>>) -> Seq<u8>
    decreases l.len(),
{
    if l.len() == 0 {
        Seq::empty()
    } else {
        enc_str(l[0]) + enc_strs(l.drop_first())
    }
}

/// A list of texts on the wire: its count, then each text.
pub open spec fn enc_str_list(l: Seq<Seq<char>>) -> Seq<u8> {
    enc_le(l.len(), 8) + enc_strs(l)
}

/// A payload on the wire: a variant tag, then the variant's fields.
pub open spec fn enc_payload(p: PayloadView) -> Seq<u8> {
    match p {
        PayloadView::ModuleBundle { bytecode_hex } => seq![0u8] + enc_str(bytecode_hex),
        PayloadView::ScriptFunction { function, type_arguments, arguments } => seq![1u8] + enc_str(
            function,
        ) + enc_str_list(type_arguments) + enc_str_list(arguments),
    }
}

/// The canonical signable bytes of an unsigned envelope.
pub open spec fn enc_unsigned(e: EnvelopeView) -> Seq<u8> {
    enc_str(e.sender) + enc_le(e.sequence_number as nat, 8) + enc_le(e.max_gas_amount as nat, 8)
        + enc_le(e.gas_unit_price as nat, 8) + enc_le(e.expiration_timestamp_secs as nat, 8)
        + enc_payload(e.payload)
}

/// The wire bytes of a signed envelope: the envelope, the sender's public
/// key, and the signature.
pub open spec fn enc_signed(se: SignedView) -> Seq<u8> {
    enc_unsigned(se.envelope) + enc_bytes(se.public_key) + enc_bytes(se.signature)
}

// ---------------------------------------------------------------------------
// Specification-level decoding, cursor style. Each function answers: what
// value sits at position `i`, and where does the next one begin?
// ---------------------------------------------------------------------------
pub open spec fn dec_u64_at(b: Seq<u8>, i: int) -> Option<(u64, int)> {
    if 0 <= i && i + 8 <= b.len() {
        Some((dec_le(b.subrange(i, i + 8)) as u64, i + 8))
    } else {
        None
    }
}

pub open spec fn dec_bytes_at(b: Seq<u8>, i: int) -> Option<(Seq<u8>, int)> {
    match dec_u64_at(b, i) {
        None => None,
        Some((n, j)) => if j + n <= b.len() {
            Some((b.subrange(j, j + n), j + n))
        } else {
            None
        },
    }
}

pub open spec fn dec_str_at(b: Seq<u8>, i: int) -> Option<(Seq<char>, int)> {
    match dec_bytes_at(b, i) {
        None => None,
        Some((bs, j)) => if all_bytes_ascii(bs) {
            Some((ascii_chars(bs), j))
        } else {
            None
        },
    }
}

pub open spec fn dec_strs_at(b: Seq<u8>, i: int, n: nat) -> Option<(Seq<Seq<char>>, int)>
    decreases n,
{
    if n == 0 {
        Some((Seq::empty(), i))
    } else {
        match dec_str_at(b, i) {
            None => None,
            Some((s, j)) => match dec_strs_at(b, j, (n - 1) as nat) {
                None => None,
                Some((rest, k)) => Some((seq![s] + rest, k)),
            },
        }
    }
}

pub open spec fn dec_str_list_at(b: Seq<u8>, i: int) -> Option<(Seq<Seq<char>>, int)> {
    match dec_u64_at(b, i) {
        None => None,
        Some((n, j)) => dec_strs_at(b, j, n as nat),
    }
}

pub open spec fn dec_payload_at(b: Seq<u8>, i: int) -> Option<(PayloadView, int)> {
    if 0 <= i && i < b.len() {
        if b[i] == 0u8 {
            match dec_str_at(b, i + 1) {
                None => None,
                Some((s, j)) => Some((PayloadView::ModuleBundle { bytecode_hex: s }, j)),
            }
        } else if b[i] == 1u8 {
            match dec_str_at(b, i + 1) {
                None => None,
                Some((f, j)) => match dec_str_list_at(b, j) {
                    None => None,
                    Some((tas, k)) => match dec_str_list_at(b, k) {
                        None => None,
                        Some((args, l)) => Some(
                            (
                                PayloadView::ScriptFunction {
                                    function: f,
                                    type_arguments: tas,
                                    arguments: args,
                                },
                                l,
                            ),
                        ),
                    },
                },
            }
        } else {
            None
        }
    } else {
        None
    }
}

pub open spec fn dec_unsigned_at(b: Seq<u8>, i: int) -> Option<(EnvelopeView, int)> {
    match dec_str_at(b, i) {
        None => None,
        Some((sender, j1)) => match dec_u64_at(b, j1) {
            None => None,
            Some((sq, j2)) => match dec_u64_at(b, j2) {
                None => None,
                Some((gas, j3)) => match dec_u64_at(b, j3) {
                    None => None,
                    Some((price, j4)) => match dec_u64_at(b, j4) {
                        None => None,
                        Some((exp, j5)) => match dec_payload_at(b, j5) {
                            None => None,
                            Some((p, j6)) => Some(
                                (
                                    EnvelopeView {
                                        sender: sender,
                                        sequence_number: sq,
                                        payload: p,
                                        max_gas_amount: gas,
                                        gas_unit_price: price,
                                        expiration_timestamp_secs: exp,
                                    },
                                    j6,
                                ),
                            ),
                        },
                    },
                },
            },
        },
    }
}

/// Node-side decoding of a complete signed envelope; the whole input must be
/// consumed.
pub open spec fn spec_decode_signed(b: Seq<u8>) -> Option<SignedView> {
    match dec_unsigned_at(b, 0) {
        None => None,
        Some((env, i)) => match dec_bytes_at(b, i) {
            None => None,
            Some((pk, j)) => match dec_bytes_at(b, j) {
                None => None,
                Some((sig, k)) => if k == b.len() {
                    Some(SignedView { envelope: env, public_key: pk, signature: sig })
                } else {
                    None
                },
            },
        },
    }
}

// ---------------------------------------------------------------------------
// Encodability: what must hold of a value for its encoding to decode back.
// All lengths fit the 8-byte length fields; all text is ASCII.
// ---------------------------------------------------------------------------
pub open spec fn strs_encodable(l: Seq<Seq<char>>) -> bool {
    l.len() < pow256(8) && forall|j: int|
        0 <= j < l.len() ==> is_ascii_chars(#[trigger] l[j]) && l[j].len() < pow256(8)
}

pub open spec fn payload_encodable(p: PayloadView) -> bool {
    match p {
        PayloadView::ModuleBundle { bytecode_hex } => is_ascii_chars(bytecode_hex)
            && bytecode_hex.len() < pow256(8),
        PayloadView::ScriptFunction { function, type_arguments, arguments } => is_ascii_chars(
            function,
        ) && function.len() < pow256(8) && strs_encodable(type_arguments) && strs_encodable(
            arguments,
        ),
    }
}

pub open spec fn env_encodable(e: EnvelopeView) -> bool {
    is_ascii_chars(e.sender) && e.sender.len() < pow256(8) && payload_encodable(e.payload)
}

pub open spec fn signed_encodable(se: SignedView) -> bool {
    env_encodable(se.envelope) && se.public_key.len() < pow256(8) && se.signature.len() < pow256(8)
}

// ---------------------------------------------------------------------------
// Round trip: decoding reads back exactly what encoding wrote, at any
// position inside a larger buffer.
// ---------------------------------------------------------------------------
proof fn lemma_enc_str_len(s: Seq<char>)
    ensures
        enc_str(s).len() == 8 + s.len(),
{
    lemma_enc_le_len(s.len(), 8);
}

/// From a subrange equality, the byte-by-byte correspondence.
proof fn lemma_subrange_eq_spread(b: Seq<u8>, i: int, s: Seq<u8>)
    requires
        0 <= i,
        i + s.len() <= b.len(),
        b.subrange(i, i + s.len()) == s,
    ensures
        forall|q: int| i <= q < i + s.len() ==> #[trigger] b[q] == s[q - i],
{
    assert forall|q: int| i <= q < i + s.len() implies #[trigger] b[q] == s[q - i] by {
        assert(b.subrange(i, i + s.len() as int)[q - i] == s[q - i]);
    }
}

proof fn lemma_dec_u64_enc(b: Seq<u8>, i: int, n: u64)
    requires
        0 <= i,
        i + 8 <= b.len(),
        b.subrange(i, i + 8) == enc_u64(n),
    ensures
        dec_u64_at(b, i) == Some((n, i + 8)),
{
    lemma_pow256_8();
    lemma_le_roundtrip(n as nat, 8);
}

proof fn lemma_dec_bytes_enc(b: Seq<u8>, i: int, data: Seq<u8>)
    requires
        0 <= i,
        data.len() < pow256(8),
        i + 8 + data.len() <= b.len(),
        b.subrange(i, i + 8 + data.len()) == enc_bytes(data),
    ensures
        dec_bytes_at(b, i) == Some((data, i + 8 + data.len())),
{
    lemma_pow256_8();
    lemma_enc_le_len(data.len(), 8);
    lemma_subrange_eq_spread(b, i, enc_bytes(data));
    let n: u64 = data.len() as u64;
    assert(b.subrange(i, i + 8) =~= enc_le(data.len(), 8));
    assert(n as nat == data.len());
    assert(b.subrange(i, i + 8) == enc_u64(n));
    lemma_dec_u64_enc(b, i, n);
    assert(b.subrange(i + 8, i + 8 + data.len()) =~= data);
}

proof fn lemma_dec_str_enc(b: Seq<u8>, i: int, s: Seq<char>)
    requires
        0 <= i,
        is_ascii_chars(s),
        s.len() < pow256(8),
        i + 8 + s.len() <= b.len(),
        b.subrange(i, i + 8 + s.len()) == enc_str(s),
    ensures
        dec_str_at(b, i) == Some((s, i + 8 + s.len())),
{
    crate::text::lemma_ascii_bytes_chars(s);
    lemma_dec_bytes_enc(b, i, ascii_bytes(s));
}

proof fn lemma_dec_strs_enc(b: Seq<u8>, i: int, l: Seq<Seq<char>>)
    requires
        0 <= i,
        forall|j: int| 0 <= j < l.len() ==> is_ascii_chars(#[trigger] l[j]) && l[j].len() < pow256(
            8,
        ),
        i + enc_strs(l).len() <= b.len(),
        b.subrange(i, i + enc_strs(l).len()) == enc_strs(l),
    ensures
        dec_strs_at(b, i, l.len()) == Some((l, i + enc_strs(l).len())),
    decreases l.len(),
{
    if l.len() == 0 {
        assert(Seq::<Seq<char>>::empty() =~= l);
    } else {
        let s = l[0];
        let rest = l.drop_first();
        lemma_subrange_eq_spread(b, i, enc_strs(l));
        lemma_enc_str_len(s);
        assert(enc_strs(l) == enc_str(s) + enc_strs(rest));
        assert(b.subrange(i, i + 8 + s.len()) =~= enc_str(s));
        lemma_dec_str_enc(b, i, s);
        let j = i + 8 + s.len();
        assert(b.subrange(j, j + enc_strs(rest).len() as int) =~= enc_strs(rest));
        lemma_dec_strs_enc(b, j, rest);
        assert(seq![s] + rest =~= l);
    }
}

proof fn lemma_dec_str_list_enc(b: Seq<u8>, i: int, l: Seq<Seq<char>>)
    requires
        0 <= i,
        strs_encodable(l),
        i + enc_str_list(l).len() <= b.len(),
        b.subrange(i, i + enc_str_list(l).len()) == enc_str_list(l),
    ensures
        dec_str_list_at(b, i) == Some((l, i + enc_str_list(l).len())),
{
    lemma_pow256_8();
    lemma_enc_le_len(l.len(), 8);
    lemma_subrange_eq_spread(b, i, enc_str_list(l));
    let n: u64 = l.len() as u64;
    assert(b.subrange(i, i + 8) =~= enc_le(l.len(), 8));
    assert(b.subrange(i, i + 8) == enc_u64(n));
    lemma_dec_u64_enc(b, i, n);
    assert(b.subrange(i + 8, i + 8 + enc_strs(l).len() as int) =~= enc_strs(l));
    lemma_dec_strs_enc(b, i + 8, l);
}

#[verifier::rlimit(100)]
proof fn lemma_dec_payload_enc(b: Seq<u8>, i: int, p: PayloadView)
    requires
        0 <= i,
        payload_encodable(p),
        i + enc_payload(p).len() <= b.len(),
        b.subrange(i, i + enc_payload(p).len()) == enc_payload(p),
    ensures
        dec_payload_at(b, i) == Some((p, i + enc_payload(p).len())),
{
    lemma_subrange_eq_spread(b, i, enc_payload(p));
    match p {
        PayloadView::ModuleBundle { bytecode_hex } => {
            lemma_enc_str_len(bytecode_hex);
            assert(b[i] == enc_payload(p)[0]);
            assert(b[i] == 0u8);
            assert(b.subrange(i + 1, i + 1 + 8 + bytecode_hex.len()) =~= enc_str(bytecode_hex));
            lemma_dec_str_enc(b, i + 1, bytecode_hex);
        },
        PayloadView::ScriptFunction { function, type_arguments, arguments } => {
            lemma_enc_str_len(function);
            assert(b[i] == enc_payload(p)[0]);
            assert(b[i] == 1u8);
            let j = i + 1 + 8 + function.len();
            assert(b.subrange(i + 1, j) =~= enc_str(function));
            lemma_dec_str_enc(b, i + 1, function);
            let k = j + enc_str_list(type_arguments).len();
            assert(b.subrange(j, k) =~= enc_str_list(type_arguments));
            lemma_dec_str_list_enc(b, j, type_arguments);
            let l = k + enc_str_list(arguments).len();
            assert(b.subrange(k, l) =~= enc_str_list(arguments));
            lemma_dec_str_list_enc(b, k, arguments);
        },
    }
}

#[verifier::rlimit(100)]
proof fn lemma_dec_unsigned_enc(b: Seq<u8>, i: int, e: EnvelopeView)
    requires
        0 <= i,
        env_encodable(e),
        i + enc_unsigned(e).len() <= b.len(),
        b.subrange(i, i + enc_unsigned(e).len()) == enc_unsigned(e),
    ensures
        dec_unsigned_at(b, i) == Some((e, i + enc_unsigned(e).len())),
{
    lemma_subrange_eq_spread(b, i, enc_unsigned(e));
    lemma_enc_str_len(e.sender);
    lemma_enc_le_len(e.sequence_number as nat, 8);
    lemma_enc_le_len(e.max_gas_amount as nat, 8);
    lemma_enc_le_len(e.gas_unit_price as nat, 8);
    lemma_enc_le_len(e.expiration_timestamp_secs as nat, 8);
    let j1 = i + 8 + e.sender.len();
    assert(b.subrange(i, j1) =~= enc_str(e.sender));
    lemma_dec_str_enc(b, i, e.sender);
    let j2 = j1 + 8;
    assert(b.subrange(j1, j2) =~= enc_le(e.sequence_number as nat, 8));
    lemma_dec_u64_enc(b, j1, e.sequence_number);
    let j3 = j2 + 8;
    assert(b.subrange(j2, j3) =~= enc_le(e.max_gas_amount as nat, 8));
    lemma_dec_u64_enc(b, j2, e.max_gas_amount);
    let j4 = j3 + 8;
    assert(b.subrange(j3, j4) =~= enc_le(e.gas_unit_price as nat, 8));
    lemma_dec_u64_enc(b, j3, e.gas_unit_price);
    let j5 = j4 + 8;
    assert(b.subrange(j4, j5) =~= enc_le(e.expiration_timestamp_secs as nat, 8));
    lemma_dec_u64_enc(b, j4, e.expiration_timestamp_secs);
    let j6 = j5 + enc_payload(e.payload).len();
    assert(b.subrange(j5, j6) =~= enc_payload(e.payload));
    lemma_dec_payload_enc(b, j5, e.payload);
}

/// Law: decoding an encoded signed envelope recovers the original envelope —
/// sender, sequence number, payload, gas parameters, public key, and
/// signature — exactly.
#[verifier::rlimit(100)]
pub proof fn lemma_decode_encode_roundtrip(se: SignedView)
    requires
        signed_encodable(se),
    ensures
        spec_decode_signed(enc_signed(se)) == Some(se),
{
    let b = enc_signed(se);
    assert(b.subrange(0, b.len() as int) =~= b);
    lemma_subrange_eq_spread(b, 0, enc_signed(se));
    lemma_enc_le_len(se.public_key.len(), 8);
    lemma_enc_le_len(se.signature.len(), 8);
    let i = enc_unsigned(se.envelope).len() as int;
    assert(b.subrange(0, i) =~= enc_unsigned(se.envelope));
    lemma_dec_unsigned_enc(b, 0, se.envelope);
    let j = i + 8 + se.public_key.len();
    assert(b.subrange(i, j) =~= enc_bytes(se.public_key));
    lemma_dec_bytes_enc(b, i, se.public_key);
    let k = j + 8 + se.signature.len();
    assert(b.subrange(j, k) =~= enc_bytes(se.signature));
    lemma_dec_bytes_enc(b, j, se.signature);
    assert(k == b.len());
}

// ---------------------------------------------------------------------------
// Executable encoding.
// ---------------------------------------------------------------------------
fn encode_bytes_into(out: &mut Vec<u8>, data: &Vec<u8>)
    ensures
        final(out)@ == old(out)@ + enc_bytes(data@),
{
    encode_u64_into(out, data.len() as u64);
    let ghost mid = out@;
    let mut k: usize = 0;
    while k < data.len()
        invariant
            0 <= k <= data@.len(),
            out@ == mid + data@.subrange(0, k as int),
        decreases data@.len() - k,
    {
        out.push(data[k]);
        proof {
            assert(out@ =~= mid + data@.subrange(0, k as int + 1));
        }
        k = k + 1;
    }
    proof {
        assert(data@.subrange(0, data@.len() as int) =~= data@);
        assert(out@ =~= old(out)@ + enc_bytes(data@));
    }
}

fn encode_str_into(out: &mut Vec<u8>, s: &str)
    requires
        s.is_ascii(),
    ensures
        final(out)@ == old(out)@ + enc_str(s@),
{
    broadcast use vstd::string::is_ascii_spec_bytes;

    let v = s.as_bytes_vec();
    proof {
        assert(v@ =~= ascii_bytes(s@));
    }
    encode_bytes_into(out, &v);
}

fn encode_strs_from(out: &mut Vec<u8>, v: &Vec<String>, idx: usize)
    requires
        idx <= v@.len(),
        all_ascii_strs(string_views(v@)),
    ensures
        final(out)@ == old(out)@ + enc_strs(string_views(v@).subrange(idx as int, v@.len() as int)),
    decreases v@.len() - idx,
{
    let ghost l = string_views(v@).subrange(idx as int, v@.len() as int);
    if idx == v.len() {
        proof {
            assert(out@ =~= out@ + enc_strs(l));
        }
    } else {
        proof {
            assert(string_views(v@)[idx as int] == v@[idx as int]@);
            assert(is_ascii_chars(v@[idx as int]@));
        }
        encode_str_into(out, v[idx].as_str());
        encode_strs_from(out, v, idx + 1);
        proof {
            assert(l[0] == v@[idx as int]@);
            assert(l.drop_first() =~= string_views(v@).subrange(idx as int + 1, v@.len() as int));
            assert(out@ =~= old(out)@ + enc_strs(l));
        }
    }
}

fn encode_str_list_into(out: &mut Vec<u8>, v: &Vec<String>)
    requires
        all_ascii_strs(string_views(v@)),
    ensures
        final(out)@ == old(out)@ + enc_str_list(string_views(v@)),
{
    encode_u64_into(out, v.len() as u64);
    encode_strs_from(out, v, 0);
    proof {
        assert(string_views(v@).subrange(0, v@.len() as int) =~= string_views(v@));
        assert(out@ =~= old(out)@ + enc_str_list(string_views(v@)));
    }
}

fn encode_payload_into(out: &mut Vec<u8>, p: &ActionPayload)
    requires
        p@.well_formed(),
    ensures
        final(out)@ == old(out)@ + enc_payload(p@),
{
    match p {
        ActionPayload::ModuleBundle { bytecode_hex } => {
            out.push(0u8);
            encode_str_into(out, bytecode_hex.as_str());
            proof {
                assert(out@ =~= old(out)@ + enc_payload(p@));
            }
        },
        ActionPayload::ScriptFunction { function, type_arguments, arguments } => {
            out.push(1u8);
            encode_str_into(out, function.as_str());
            encode_str_list_into(out, type_arguments);
            encode_str_list_into(out, arguments);
            proof {
                assert(out@ =~= old(out)@ + enc_payload(p@));
            }
        },
    }
}

/// The canonical signable bytes of an envelope. This is what the sender
/// signs and what the signature covers.
pub fn encode_unsigned(env: &UnsignedEnvelope) -> (r: Vec<u8>)
    requires
        env@.well_formed(),
    ensures
        r@ == enc_unsigned(env@),
{
    let mut out: Vec<u8> = Vec::new();
    encode_str_into(&mut out, env.sender.as_str());
    encode_u64_into(&mut out, env.sequence_number);
    encode_u64_into(&mut out, env.max_gas_amount);
    encode_u64_into(&mut out, env.gas_unit_price);
    encode_u64_into(&mut out, env.expiration_timestamp_secs);
    encode_payload_into(&mut out, &env.payload);
    proof {
        assert(out@ =~= enc_unsigned(env@));
    }
    out
}

// ---------------------------------------------------------------------------
// Executable decoding. Each reader agrees exactly with its specification
// decoder, so the round-trip law carries over to the executable code.
// ---------------------------------------------------------------------------
fn read_u64(bytes: &Vec<u8>, pos: usize) -> (r: Option<(u64, usize)>)
    ensures
        match r {
            Some(p) => dec_u64_at(bytes@, pos as int) == Some((p.0, p.1 as int)),
            None => dec_u64_at(bytes@, pos as int) is None,
        },
{
    let blen = bytes.len();
    if pos <= blen && blen - pos >= 8 {
        let v = decode_u64_at(bytes, pos);
        proof {
            lemma_pow256_8();
            lemma_dec_le_bound(bytes@.subrange(pos as int, pos as int + 8));
            lemma_enc_le_len(0, 8);
            assert(bytes@.subrange(pos as int, pos as int + 8).len() == 8);
        }
        Some((v, pos + 8))
    } else {
        None
    }
}

fn read_bytes(bytes: &Vec<u8>, pos: usize) -> (r: Option<(Vec<u8>, usize)>)
    ensures
        match r {
            Some(p) => dec_bytes_at(bytes@, pos as int) == Some((p.0@, p.1 as int)),
            None => dec_bytes_at(bytes@, pos as int) is None,
        },
{
    match read_u64(bytes, pos) {
        None => None,
        Some((n, j)) => {
            let blen = bytes.len();
            if n <= (blen - j) as u64 {
                let len = n as usize;
                let mut v: Vec<u8> = Vec::new();
                let mut k: usize = 0;
                while k < len
                    invariant
                        0 <= k <= len,
                        j + len <= bytes@.len(),
                        bytes@.len() <= usize::MAX,
                        v@ == bytes@.subrange(j as int, j as int + k),
                    decreases len - k,
                {
                    v.push(bytes[j + k]);
                    proof {
                        assert(v@ =~= bytes@.subrange(j as int, j as int + k + 1));
                    }
                    k = k + 1;
                }
                Some((v, j + len))
            } else {
                None
            }
        },
    }
}

fn bytes_ascii(v: &Vec<u8>) -> (r: bool)
    ensures
        r == all_bytes_ascii(v@),
{
    let mut k: usize = 0;
    while k < v.len()
        invariant
            0 <= k <= v@.len(),
            forall|q: int| 0 <= q < k ==> #[trigger] v@[q] < 128,
        decreases v@.len() - k,
    {
        if v[k] >= 128 {
            return false;
        }
        k = k + 1;
    }
    true
}

fn read_string(bytes: &Vec<u8>, pos: usize) -> (r: Option<(String, usize)>)
    ensures
        match r {
            Some(p) => dec_str_at(bytes@, pos as int) == Some((p.0@, p.1 as int)),
            None => dec_str_at(bytes@, pos as int) is None,
        },
{
    match read_bytes(bytes, pos) {
        None => None,
        Some((data, j)) => {
            if bytes_ascii(&data) {
                let s = crate::text::string_from_ascii(data);
                Some((s, j))
            } else {
                None
            }
        },
    }
}

fn read_str_list(bytes: &Vec<u8>, pos: usize) -> (r: Option<(Vec<String>, usize)>)
    ensures
        match r {
            Some(p) => dec_str_list_at(bytes@, pos as int) == Some(
                (string_views(p.0@), p.1 as int),
            ),
            None => dec_str_list_at(bytes@, pos as int) is None,
        },
{
    match read_u64(bytes, pos) {
        None => None,
        Some((n, j)) => {
            let mut out: Vec<String> = Vec::new();
            let mut k: u64 = 0;
            let mut cur: usize = j;
            proof {
                assert(string_views(out@) =~= Seq::<Seq<char>>::empty());
            }
            while k < n
                invariant
                    0 <= k <= n,
                    dec_u64_at(bytes@, pos as int) == Some((n, j as int)),
                    match dec_strs_at(bytes@, cur as int, (n - k) as nat) {
                        Some(p) => dec_strs_at(bytes@, j as int, n as nat) == Some(
                            (string_views(out@) + p.0, p.1),
                        ),
                        None => dec_strs_at(bytes@, j as int, n as nat) is None,
                    },
                decreases n - k,
            {
                match read_string(bytes, cur) {
                    None => {
                        return None;
                    },
                    Some((s, nxt)) => {
                        proof {
                            let rest = dec_strs_at(bytes@, nxt as int, (n - k - 1) as nat);
                            if rest is Some {
                                let ghost pushed = string_views(out@.push(s));
                                assert(pushed =~= string_views(out@) + seq![s@]);
                                let tail = rest.unwrap().0;
                                assert(string_views(out@) + (seq![s@] + tail) =~= pushed + tail);
                            }
                        }
                        out.push(s);
                        k = k + 1;
                        cur = nxt;
                    },
                }
            }
            proof {
                assert(string_views(out@) + Seq::<Seq<char>>::empty() =~= string_views(out@));
            }
            Some((out, cur))
        },
    }
}

fn read_payload(bytes: &Vec<u8>, pos: usize) -> (r: Option<(ActionPayload, usize)>)
    ensures
        match r {
            Some(p) => dec_payload_at(bytes@, pos as int) == Some((p.0@, p.1 as int)),
            None => dec_payload_at(bytes@, pos as int) is None,
        },
{
    let blen = bytes.len();
    if pos >= blen {
        return None;
    }
    let tag = bytes[pos];
    if tag == 0 {
        match read_string(bytes, pos + 1) {
            None => None,
            Some((s, j)) => Some((ActionPayload::ModuleBundle { bytecode_hex: s }, j)),
        }
    } else if tag == 1 {
        match read_string(bytes, pos + 1) {
            None => None,
            Some((f, j)) => match read_str_list(bytes, j) {
                None => None,
                Some((tas, j2)) => match read_str_list(bytes, j2) {
                    None => None,
                    Some((args, j3)) => Some(
                        (
                            ActionPayload::ScriptFunction {
                                function: f,
                                type_arguments: tas,
                                arguments: args,
                            },
                            j3,
                        ),
                    ),
                },
            },
        }
    } else {
        None
    }
}

fn read_unsigned(bytes: &Vec<u8>, pos: usize) -> (r: Option<(UnsignedEnvelope, usize)>)
    ensures
        match r {
            Some(p) => dec_unsigned_at(bytes@, pos as int) == Some((p.0@, p.1 as int)),
            None => dec_unsigned_at(bytes@, pos as int) is None,
        },
{
    match read_string(bytes, pos) {
        None => None,
        Some((sender, j1)) => match read_u64(bytes, j1) {
            None => None,
            Some((sq, j2)) => match read_u64(bytes, j2) {
                None => None,
                Some((gas, j3)) => match read_u64(bytes, j3) {
                    None => None,
                    Some((price, j4)) => match read_u64(bytes, j4) {
                        None => None,
                        Some((exp, j5)) => match read_payload(bytes, j5) {
                            None => None,
                            Some((p, j6)) => Some(
                                (
                                    UnsignedEnvelope {
                                        sender: sender,
                                        sequence_number: sq,
                                        payload: p,
                                        max_gas_amount: gas,
                                        gas_unit_price: price,
                                        expiration_timestamp_secs: exp,
                                    },
                                    j6,
                                ),
                            ),
                        },
                    },
                },
            },
        },
    }
}

/// Node-side decoding of a complete signed envelope: accepts exactly the
/// buffers that the specification decoder accepts, and returns the same
/// envelope.
pub fn decode_signed(bytes: &Vec<u8>) -> (r: Option<SignedEnvelope>)
    ensures
        match r {
            Some(se) => spec_decode_signed(bytes@) == Some(se@),
            None => spec_decode_signed(bytes@) is None,
        },
{
    match read_unsigned(bytes, 0) {
        None => None,
        Some((env, i)) => match read_bytes(bytes, i) {
            None => None,
            Some((pk, j)) => match read_bytes(bytes, j) {
                None => None,
                Some((sig, k)) => {
                    if k == bytes.len() {
                        Some(SignedEnvelope { envelope: env, public_key: pk, signature: sig })
                    } else {
                        None
                    }
                },
            },
        },
    }
}

/// The wire bytes of a signed envelope.
pub fn encode_signed(se: &SignedEnvelope) -> (r: Vec<u8>)
    requires
        se@.well_formed(),
    ensures
        r@ == enc_signed(se@),
{
    let mut out = encode_unsigned(&se.envelope);
    encode_bytes_into(&mut out, &se.public_key);
    encode_bytes_into(&mut out, &se.signature);
    proof {
        assert(out@ =~= enc_signed(se@));
    }
    out
}

} // verus!
