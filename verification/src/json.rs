//! Rendering of an upload outcome as its JSON response body.

use vstd::prelude::*;
use vstd::string::StrSliceExecFns;
use vstd::string::StringSliceAdditionalSpecFns;
use vstd::utf8::encode_utf8;

verus! {

/// The ASCII byte of a lowercase hexadecimal digit, for a value below 16.
pub open spec fn hex_digit(n: u8) -> u8 {
    if n < 10 {
        (0x30 + n) as u8
    } else {
        (0x57 + n) as u8
    }
}

/// Computes the ASCII byte of a lowercase hexadecimal digit.
fn hex_digit_byte(n: u8) -> (r: u8)
    requires
        n < 16,
    ensures
        r == hex_digit(n),
{
    if n < 10 {
        0x30 + n
    } else {
        0x57 + n
    }
}

/// How one byte of text appears inside a JSON string literal: the quote and
/// the backslash are escaped, the five control characters with short forms
/// use them, any other control byte becomes `\u00XX`, and everything else
/// passes through unchanged.
pub open spec fn escape_byte(b: u8) -> Seq<u8> {
    if b == 0x22 {
        seq![0x5cu8, 0x22u8]
    } else if b == 0x5c {
        seq![0x5cu8, 0x5cu8]
    } else if b == 0x08 {
        seq![0x5cu8, 0x62u8]
    } else if b == 0x09 {
        seq![0x5cu8, 0x74u8]
    } else if b == 0x0a {
        seq![0x5cu8, 0x6eu8]
    } else if b == 0x0c {
        seq![0x5cu8, 0x66u8]
    } else if b == 0x0d {
        seq![0x5cu8, 0x72u8]
    } else if b < 0x20 {
        seq![0x5cu8, 0x75u8, 0x30u8, 0x30u8, hex_digit(b / 16), hex_digit(b % 16)]
    } else {
        seq![b]
    }
}

/// A whole byte string escaped for the inside of a JSON string literal.
pub open spec fn json_escaped(s: Seq<u8>) -> Seq<u8>
    decreases s.len(),
{
    if s.len() == 0 {
        Seq::empty()
    } else {
        json_escaped(s.drop_last()) + escape_byte(s.last())
    }
}

/// A JSON string literal holding the UTF-8 encoding of the given text.
pub open spec fn json_string(e: Seq<char>) -> Seq<u8> {
    seq![0x22u8] + json_escaped(encode_utf8(e)) + seq![0x22u8]
}

/// Appends the escaped form of `bytes` to `out`.
fn push_escaped(out: &mut Vec<u8>, bytes: &Vec<u8>)
    ensures
        final(out)@ == old(out)@ + json_escaped(bytes@),
{
    let mut i: usize = 0;
    while i < bytes.len()
        invariant
            i <= bytes@.len(),
            out@ == old(out)@ + json_escaped(bytes@.subrange(0, i as int)),
        decreases bytes@.len() - i,
    {
        let b = bytes[i];
        proof {
            assert(bytes@.subrange(0, i + 1).drop_last() =~= bytes@.subrange(0, i as int));
            assert(bytes@.subrange(0, i + 1).last() == b);
        }
        if b == 0x22 {
            out.push(0x5c);
            out.push(0x22);
        } else if b == 0x5c {
            out.push(0x5c);
            out.push(0x5c);
        } else if b == 0x08 {
            out.push(0x5c);
            out.push(0x62);
        } else if b == 0x09 {
            out.push(0x5c);
            out.push(0x74);
        } else if b == 0x0a {
            out.push(0x5c);
            out.push(0x6e);
        } else if b == 0x0c {
            out.push(0x5c);
            out.push(0x66);
        } else if b == 0x0d {
            out.push(0x5c);
            out.push(0x72);
        } else if b < 0x20 {
            out.push(0x5c);
            out.push(0x75);
            out.push(0x30);
            out.push(0x30);
            out.push(hex_digit_byte(b / 16));
            out.push(hex_digit_byte(b % 16));
        } else {
            out.push(b);
        }
        proof {
            assert(out@ =~= old(out)@ + json_escaped(bytes@.subrange(0, i + 1)));
        }
        i += 1;
    }
    proof {
        assert(bytes@.subrange(0, bytes@.len() as int) =~= bytes@);
    }
}

/// The decimal digits of a number, as ASCII bytes, most significant first.
pub open spec fn dec_bytes(n: nat) -> Seq<u8>
    decreases n,
{
    if n < 10 {
        seq![(0x30 + n) as u8]
    } else {
        dec_bytes(n / 10).push((0x30 + n % 10) as u8)
    }
}

/// Appends the decimal rendering of `n` to `out`.
fn push_dec(out: &mut Vec<u8>, n: u32)
    ensures
        final(out)@ == old(out)@ + dec_bytes(n as nat),
    decreases n,
{
    if n >= 10 {
        push_dec(out, n / 10);
    }
    out.push(0x30 + (n % 10) as u8);
    proof {
        assert(out@ =~= old(out)@ + dec_bytes(n as nat));
    }
}

/// The comma-separated JSON string literals of the error list.
pub open spec fn errors_json(es: Seq<Seq<char>>) -> Seq<u8>
    decreases es.len(),
{
    if es.len() == 0 {
        Seq::empty()
    } else if es.len() == 1 {
        json_string(es[0])
    } else {
        errors_json(es.drop_last()) + seq![0x2cu8] + json_string(es.last())
    }
}

/// The whole JSON response body for an upload outcome: an object holding the
/// number of parts saved and the ordered list of per-part error texts.
pub open spec fn json_of_outcome(saved: nat, errors: Seq<Seq<char>>) -> Seq<u8> {
    "{\"saved\":".spec_bytes() + dec_bytes(saved) + ",\"errors\":[".spec_bytes() + errors_json(
        errors,
    ) + "]}".spec_bytes()
}

/// Renders the aggregate result of an upload request as its JSON body.
pub fn render_outcome(saved: u32, errors: &Vec<String>) -> (r: Vec<u8>)
    ensures
        r@ == json_of_outcome(saved as nat, errors.deep_view()),
{
    let ghost dv = errors.deep_view();
    let mut out = "{\"saved\":".as_bytes_vec();
    push_dec(&mut out, saved);
    let mut open_list = ",\"errors\":[".as_bytes_vec();
    out.append(&mut open_list);
    let mut i: usize = 0;
    while i < errors.len()
        invariant
            i <= errors@.len(),
            dv == errors.deep_view(),
            dv.len() == errors@.len(),
            out@ == "{\"saved\":".spec_bytes() + dec_bytes(saved as nat)
                + ",\"errors\":[".spec_bytes() + errors_json(dv.subrange(0, i as int)),
        decreases errors@.len() - i,
    {
        proof {
            assert(dv.subrange(0, i + 1).drop_last() =~= dv.subrange(0, i as int));
            assert(dv.subrange(0, i + 1).last() == errors@[i as int]@);
        }
        if i > 0 {
            out.push(0x2c);
        }
        out.push(0x22);
        let escaped_source = errors[i].as_str().as_bytes_vec();
        push_escaped(&mut out, &escaped_source);
        out.push(0x22);
        proof {
            assert(out@ =~= "{\"saved\":".spec_bytes() + dec_bytes(saved as nat)
                + ",\"errors\":[".spec_bytes() + errors_json(dv.subrange(0, i + 1)));
        }
        i += 1;
    }
    let mut close = "]}".as_bytes_vec();
    out.append(&mut close);
    proof {
        assert(dv.subrange(0, dv.len() as int) =~= dv);
        assert(out@ =~= json_of_outcome(saved as nat, dv));
    }
    out
}

} // verus!
