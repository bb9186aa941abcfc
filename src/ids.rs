use vstd::prelude::*;

verus! {

/// The sixteen lower-case hexadecimal digits, in order of value.
pub open spec fn hex_alphabet() -> Seq<char> {
    seq!['0', '1', '2', '3', '4', '5', '6', '7', '8', '9', 'a', 'b', 'c', 'd', 'e', 'f']
}

/// `v` written in lower-case hexadecimal with exactly `width` digits, most
/// significant first: zero-padded on the left, higher digits dropped.
pub open spec fn hex_text(v: nat, width: nat) -> Seq<char>
    decreases width,
{
    if width == 0 {
        Seq::empty()
    } else {
        hex_text(v / 16, (width - 1) as nat).push(hex_alphabet()[(v % 16) as int])
    }
}

/// Every character of `s` is a lower-case hexadecimal digit.
pub open spec fn is_hex_text(s: Seq<char>) -> bool {
    forall|i: int| 0 <= i < s.len() ==> hex_alphabet().contains(#[trigger] s[i])
}

/// The bit pattern that identifies a trace: all 128 bits.
pub open spec fn trace_bits(bits: u128) -> nat {
    bits as nat
}

/// The bit pattern that identifies a span: the low 64 bits.
pub open spec fn span_bits(bits: u128) -> nat {
    (bits as nat) % 0x1_0000_0000_0000_0000
}

pub proof fn lemma_hex_text_shape(v: nat, width: nat)
    ensures
        hex_text(v, width).len() == width,
        is_hex_text(hex_text(v, width)),
    decreases width,
{
    if width > 0 {
        lemma_hex_text_shape(v / 16, (width - 1) as nat);
        let s = hex_text(v, width);
        assert forall|i: int| 0 <= i < s.len() implies hex_alphabet().contains(#[trigger] s[i]) by {
            if i < width - 1 {
                assert(s[i] == hex_text(v / 16, (width - 1) as nat)[i]);
            } else {
                assert(s[i] == hex_alphabet()[(v % 16) as int]);
            }
        }
    }
}

/// Two values whose lowest digits differ are written differently.
pub proof fn lemma_hex_text_last_digit(a: nat, b: nat, width: nat)
    requires
        width > 0,
        a % 16 != b % 16,
    ensures
        hex_text(a, width) != hex_text(b, width),
{
    reveal_with_fuel(hex_text, 1);
    let sa = hex_text(a, width);
    let sb = hex_text(b, width);
    lemma_hex_text_shape(a, width);
    lemma_hex_text_shape(b, width);
    assert(sa[width - 1] == hex_alphabet()[(a % 16) as int]);
    assert(sb[width - 1] == hex_alphabet()[(b % 16) as int]);
}

fn hex_digit(d: u128) -> (r: &'static str)
    requires
        d < 16,
    ensures
        r@ == seq![hex_alphabet()[d as int]],
{
    let digits = "0123456789abcdef";
    proof {
        reveal_strlit("0123456789abcdef");
        assert(digits@ =~= hex_alphabet());
    }
    let r = digits.substring_char(d as usize, d as usize + 1);
    proof {
        assert(r@ =~= seq![hex_alphabet()[d as int]]);
    }
    r
}

/// `v` in lower-case hexadecimal, exactly `width` digits wide.
pub fn hex_padded(v: u128, width: usize) -> (r: String)
    ensures
        r@ == hex_text(v as nat, width as nat),
    decreases width,
{
    if width == 0 {
        String::new()
    } else {
        let mut s = hex_padded(v / 16, width - 1);
        s.append(hex_digit(v % 16));
        s
    }
}

/// The trace identifier written from 128 random bits: 32 hexadecimal digits.
pub fn trace_id_from_bits(bits: u128) -> (r: String)
    ensures
        r@ == hex_text(trace_bits(bits), 32),
        r@.len() == 32,
        is_hex_text(r@),
{
    proof {
        lemma_hex_text_shape(trace_bits(bits), 32);
    }
    hex_padded(bits, 32)
}

/// The span identifier written from the low 64 of 128 random bits: 16
/// hexadecimal digits.
pub fn span_id_from_bits(bits: u128) -> (r: String)
    ensures
        r@ == hex_text(span_bits(bits), 16),
        r@.len() == 16,
        is_hex_text(r@),
{
    proof {
        lemma_hex_text_shape(span_bits(bits), 16);
    }
    let low = bits % 0x1_0000_0000_0000_0000u128;
    hex_padded(low, 16)
}

/// A span identifier from 128 random bits that differs from `avoid`: the one
/// `span_id_from_bits` gives, unless that equals `avoid`, in which case the
/// lowest bit is flipped first.
pub fn fresh_span_id_from_bits(bits: u128, avoid: &str) -> (r: String)
    ensures
        r@ != avoid@,
        r@.len() == 16,
        is_hex_text(r@),
        r@ == hex_text(span_bits(bits), 16) || r@ == hex_text(span_bits(bits ^ 1), 16),
{
    let first = span_id_from_bits(bits);
    if crate::text::same_text(first.as_str(), avoid) {
        let flipped = bits ^ 1u128;
        proof {
            assert((bits ^ 1u128) % 16 != bits % 16) by (bit_vector);
            assert(span_bits(bits) % 16 == (bits as nat) % 16) by {
                vstd::arithmetic::div_mod::lemma_mod_mod(bits as int, 16, 0x1000_0000_0000_0000);
            }
            assert(span_bits(flipped) % 16 == (flipped as nat) % 16) by {
                vstd::arithmetic::div_mod::lemma_mod_mod(flipped as int, 16, 0x1000_0000_0000_0000);
            }
            lemma_hex_text_last_digit(span_bits(flipped), span_bits(bits), 16);
        }
        span_id_from_bits(flipped)
    } else {
        first
    }
}

/// Relies on `uuid::Uuid::new_v4` and `Uuid::as_u128`: 128 bits from the
/// operating system's random source. Nothing is promised of their value.
#[verifier::external_body]
pub(crate) fn random_bits() -> (r: u128) {
    uuid::Uuid::new_v4().as_u128()
}

/// A new trace identifier: 32 lower-case hexadecimal digits from a random
/// source.
pub fn new_trace_id() -> (r: String)
    ensures
        r@.len() == 32,
        is_hex_text(r@),
        exists|bits: u128| r@ == hex_text(trace_bits(bits), 32),
{
    let bits = random_bits();
    trace_id_from_bits(bits)
}

/// A new span identifier: 16 lower-case hexadecimal digits from a random
/// source.
pub fn new_span_id() -> (r: String)
    ensures
        r@.len() == 16,
        is_hex_text(r@),
        exists|bits: u128| r@ == hex_text(span_bits(bits), 16),
{
    let bits = random_bits();
    span_id_from_bits(bits)
}

} // verus!
