//! Request bodies: flat JSON objects, written as UTF-8 bytes.

use vstd::prelude::*;
use vstd::utf8::encode_utf8;

verus! {

/// The value of one member of a request body.
#[derive(Debug)]
pub enum BodyValue {
    Text(String),
    Number(u32),
    Flag(bool),
    TextList(Vec<String>),
}

pub open spec fn decimal_bytes(n: nat) -> Seq<u8>
    decreases n,
{
    if n < 10 {
        seq![(48 + n) as u8]
    } else {
        decimal_bytes(n / 10).push((48 + n % 10) as u8)
    }
}

pub open spec fn hex_digit(d: u8) -> u8 {
    if d < 10 {
        (48 + d) as u8
    } else {
        (87 + d) as u8
    }
}

/// How one byte of a text stands inside a JSON string.
pub open spec fn escape_byte(b: u8) -> Seq<u8> {
    if b == 34 {
        seq![92u8, 34u8]
    } else if b == 92 {
        seq![92u8, 92u8]
    } else if b == 10 {
        seq![92u8, 110u8]
    } else if b == 13 {
        seq![92u8, 114u8]
    } else if b == 9 {
        seq![92u8, 116u8]
    } else if b == 8 {
        seq![92u8, 98u8]
    } else if b == 12 {
        seq![92u8, 102u8]
    } else if b < 32 {
        seq![92u8, 117u8, 48u8, 48u8, hex_digit(b / 16), hex_digit(b % 16)]
    } else {
        seq![b]
    }
}

pub open spec fn escaped(s: Seq<u8>) -> Seq<u8>
    decreases s.len(),
{
    if s.len() == 0 {
        Seq::empty()
    } else {
        escaped(s.drop_last()) + escape_byte(s.last())
    }
}

/// A text as a JSON string literal.
pub open spec fn quoted(s: Seq<char>) -> Seq<u8> {
    seq![34u8] + escaped(encode_utf8(s)) + seq![34u8]
}

/// Texts as JSON strings, separated by commas.
pub open spec fn text_list_bytes(items: Seq<String>) -> Seq<u8>
    decreases items.len(),
{
    if items.len() == 0 {
        Seq::empty()
    } else if items.len() == 1 {
        quoted(items[0]@)
    } else {
        text_list_bytes(items.drop_last()) + seq![44u8] + quoted(items.last()@)
    }
}

pub open spec fn value_bytes(v: BodyValue) -> Seq<u8> {
    match v {
        BodyValue::Text(s) => quoted(s@),
        BodyValue::Number(n) => decimal_bytes(n as nat),
        BodyValue::Flag(b) => if b {
            seq![116u8, 114u8, 117u8, 101u8]
        } else {
            seq![102u8, 97u8, 108u8, 115u8, 101u8]
        },
        BodyValue::TextList(items) => seq![91u8] + text_list_bytes(items@) + seq![93u8],
    }
}

pub open spec fn member_bytes(m: (Seq<char>, BodyValue)) -> Seq<u8> {
    quoted(m.0) + seq![58u8] + value_bytes(m.1)
}

/// The members of a body, with each name seen as its characters.
pub open spec fn members_view(ms: Seq<(String, BodyValue)>) -> Seq<(Seq<char>, BodyValue)> {
    ms.map_values(|m: (String, BodyValue)| (m.0@, m.1))
}

pub open spec fn members_bytes(ms: Seq<(Seq<char>, BodyValue)>) -> Seq<u8>
    decreases ms.len(),
{
    if ms.len() == 0 {
        Seq::empty()
    } else if ms.len() == 1 {
        member_bytes(ms[0])
    } else {
        members_bytes(ms.drop_last()) + seq![44u8] + member_bytes(ms.last())
    }
}

/// The JSON object with the members `ms`, in order.
pub open spec fn object_bytes(ms: Seq<(Seq<char>, BodyValue)>) -> Seq<u8> {
    seq![123u8] + members_bytes(ms) + seq![125u8]
}

fn hex_digit_exec(d: u8) -> (r: u8)
    requires
        d < 16,
    ensures
        r == hex_digit(d),
{
    if d < 10 {
        48 + d
    } else {
        87 + d
    }
}

fn push_escaped_byte(out: &mut Vec<u8>, b: u8)
    ensures
        final(out)@ == old(out)@ + escape_byte(b),
{
    let ghost start = out@;
    if b == 34 || b == 92 {
        out.push(92);
        out.push(b);
    } else if b == 10 {
        out.push(92);
        out.push(110);
    } else if b == 13 {
        out.push(92);
        out.push(114);
    } else if b == 9 {
        out.push(92);
        out.push(116);
    } else if b == 8 {
        out.push(92);
        out.push(98);
    } else if b == 12 {
        out.push(92);
        out.push(102);
    } else if b < 32 {
        out.push(92);
        out.push(117);
        out.push(48);
        out.push(48);
        out.push(hex_digit_exec(b / 16));
        out.push(hex_digit_exec(b % 16));
    } else {
        out.push(b);
    }
    assert(out@ =~= start + escape_byte(b));
}

fn push_quoted(out: &mut Vec<u8>, s: &str)
    ensures
        final(out)@ == old(out)@ + quoted(s@),
{
    let ghost start = out@;
    let bytes = s.as_bytes();
    out.push(34);
    let mut i: usize = 0;
    while i < bytes.len()
        invariant
            bytes@ == encode_utf8(s@),
            0 <= i <= bytes@.len(),
            out@ == start + seq![34u8] + escaped(bytes@.subrange(0, i as int)),
        decreases bytes.len() - i,
    {
        proof {
            assert(bytes@.subrange(0, i + 1).drop_last() =~= bytes@.subrange(0, i as int));
        }
        push_escaped_byte(out, bytes[i]);
        i += 1;
        proof {
            assert(out@ =~= start + seq![34u8] + escaped(bytes@.subrange(0, i as int)));
        }
    }
    proof {
        assert(bytes@.subrange(0, i as int) =~= bytes@);
    }
    out.push(34);
    assert(out@ =~= start + quoted(s@));
}

fn push_decimal(out: &mut Vec<u8>, n: u32)
    ensures
        final(out)@ == old(out)@ + decimal_bytes(n as nat),
    decreases n,
{
    let ghost start = out@;
    if n >= 10 {
        push_decimal(out, n / 10);
    }
    out.push(48 + (n % 10) as u8);
    assert(out@ =~= start + decimal_bytes(n as nat));
}

fn push_value(out: &mut Vec<u8>, v: &BodyValue)
    ensures
        final(out)@ == old(out)@ + value_bytes(*v),
{
    let ghost start = out@;
    match v {
        BodyValue::Text(s) => push_quoted(out, s.as_str()),
        BodyValue::Number(n) => push_decimal(out, *n),
        BodyValue::Flag(b) => {
            if *b {
                out.push(116);
                out.push(114);
                out.push(117);
                out.push(101);
            } else {
                out.push(102);
                out.push(97);
                out.push(108);
                out.push(115);
                out.push(101);
            }
        },
        BodyValue::TextList(items) => {
            out.push(91);
            let mut i: usize = 0;
            while i < items.len()
                invariant
                    0 <= i <= items@.len(),
                    out@ == start + seq![91u8] + text_list_bytes(items@.subrange(0, i as int)),
                decreases items.len() - i,
            {
                let ghost before = out@;
                proof {
                    assert(items@.subrange(0, i + 1).drop_last() =~= items@.subrange(0, i as int));
                }
                if i > 0 {
                    out.push(44);
                }
                push_quoted(out, items[i].as_str());
                i += 1;
                proof {
                    assert(out@ =~= start + seq![91u8] + text_list_bytes(items@.subrange(0, i as int)));
                }
            }
            proof {
                assert(items@.subrange(0, i as int) =~= items@);
            }
            out.push(93);
        },
    }
    assert(out@ =~= start + value_bytes(*v));
}

/// Writes the JSON object with the members `ms`, in order.
pub fn encode_object(ms: &Vec<(String, BodyValue)>) -> (r: Vec<u8>)
    ensures
        r@ == object_bytes(members_view(ms@)),
{
    let ghost mv = members_view(ms@);
    let mut out: Vec<u8> = Vec::new();
    out.push(123);
    let mut i: usize = 0;
    while i < ms.len()
        invariant
            0 <= i <= ms@.len(),
            mv == members_view(ms@),
            out@ == seq![123u8] + members_bytes(mv.subrange(0, i as int)),
        decreases ms.len() - i,
    {
        proof {
            assert(mv.subrange(0, i + 1).drop_last() =~= mv.subrange(0, i as int));
            assert(mv[i as int] == (ms@[i as int].0@, ms@[i as int].1));
        }
        if i > 0 {
            out.push(44);
        }
        push_quoted(&mut out, ms[i].0.as_str());
        out.push(58);
        push_value(&mut out, &ms[i].1);
        i += 1;
        proof {
            assert(out@ =~= seq![123u8] + members_bytes(mv.subrange(0, i as int)));
        }
    }
    proof {
        assert(mv.subrange(0, i as int) =~= mv);
    }
    out.push(125);
    assert(out@ =~= object_bytes(mv));
    out
}

} // verus!
