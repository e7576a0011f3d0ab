//! Rendering JSON documents as text: decimal numbers, string escaping, and
//! the document renderer the wire encoders are specified against.

use vstd::prelude::*;
use vstd::string::StrSliceExecFns;
use vstd::string::StringExecFns;
use crate::json::JModel;

verus! {

broadcast use vstd::std_specs::vec::group_vec_axioms;

/// The decimal digit for a value below ten.
pub open spec fn digit(d: u64) -> char {
    if d == 0 {
        '0'
    } else if d == 1 {
        '1'
    } else if d == 2 {
        '2'
    } else if d == 3 {
        '3'
    } else if d == 4 {
        '4'
    } else if d == 5 {
        '5'
    } else if d == 6 {
        '6'
    } else if d == 7 {
        '7'
    } else if d == 8 {
        '8'
    } else {
        '9'
    }
}

/// The decimal rendering of a number, most significant digit first, with no
/// leading zeroes.
pub open spec fn spec_dec(n: u64) -> Seq<char>
    decreases n,
{
    if n < 10 {
        seq![digit(n)]
    } else {
        spec_dec(n / 10).push(digit(n % 10))
    }
}

/// The one-character text for a decimal digit.
fn digit_str(d: u64) -> (r: &'static str)
    requires
        d < 10,
    ensures
        r@ =~= seq![digit(d)],
{
    proof {
        reveal_strlit("0");
        reveal_strlit("1");
        reveal_strlit("2");
        reveal_strlit("3");
        reveal_strlit("4");
        reveal_strlit("5");
        reveal_strlit("6");
        reveal_strlit("7");
        reveal_strlit("8");
        reveal_strlit("9");
    }
    if d == 0 {
        "0"
    } else if d == 1 {
        "1"
    } else if d == 2 {
        "2"
    } else if d == 3 {
        "3"
    } else if d == 4 {
        "4"
    } else if d == 5 {
        "5"
    } else if d == 6 {
        "6"
    } else if d == 7 {
        "7"
    } else if d == 8 {
        "8"
    } else {
        "9"
    }
}

/// Renders a number in decimal.
pub fn u64_string(n: u64) -> (r: String)
    ensures
        r@ == spec_dec(n),
    decreases n,
{
    if n < 10 {
        digit_str(n).to_owned()
    } else {
        let mut r = u64_string(n / 10);
        r.append(digit_str(n % 10));
        proof {
            assert(spec_dec(n / 10).push(digit(n % 10)) =~= spec_dec(n / 10) + seq![
                digit(n % 10),
            ]);
        }
        r
    }
}

/// The hexadecimal digit for a value below sixteen.
pub open spec fn hex_digit(d: u32) -> char {
    if d < 10 {
        digit(d as u64)
    } else if d == 10 {
        'a'
    } else if d == 11 {
        'b'
    } else if d == 12 {
        'c'
    } else if d == 13 {
        'd'
    } else if d == 14 {
        'e'
    } else {
        'f'
    }
}

/// The one-character text for a hexadecimal digit.
fn hex_digit_str(d: u32) -> (r: &'static str)
    requires
        d < 16,
    ensures
        r@ =~= seq![hex_digit(d)],
{
    proof {
        reveal_strlit("a");
        reveal_strlit("b");
        reveal_strlit("c");
        reveal_strlit("d");
        reveal_strlit("e");
        reveal_strlit("f");
    }
    if d < 10 {
        digit_str(d as u64)
    } else if d == 10 {
        "a"
    } else if d == 11 {
        "b"
    } else if d == 12 {
        "c"
    } else if d == 13 {
        "d"
    } else if d == 14 {
        "e"
    } else {
        "f"
    }
}

/// How one character appears inside a JSON string literal: itself, unless
/// JSON requires an escape.
pub open spec fn escape_char(c: char) -> Seq<char> {
    if c == '"' {
        seq!['\\', '"']
    } else if c == '\\' {
        seq!['\\', '\\']
    } else if c == '\n' {
        seq!['\\', 'n']
    } else if c == '\r' {
        seq!['\\', 'r']
    } else if c == '\t' {
        seq!['\\', 't']
    } else if (c as u32) < 32 {
        seq!['\\', 'u', '0', '0', hex_digit((c as u32) / 16), hex_digit((c as u32) % 16)]
    } else {
        seq![c]
    }
}

/// How a text appears inside a JSON string literal.
pub open spec fn spec_escape(s: Seq<char>) -> Seq<char>
    decreases s,
{
    if s.len() == 0 {
        Seq::empty()
    } else {
        spec_escape(s.drop_last()) + escape_char(s.last())
    }
}

/// A text in which no character needs an escape appears as itself.
pub proof fn lemma_escape_plain(s: Seq<char>)
    requires
        forall|i: int|
            0 <= i < s.len() ==> {
                let c = #[trigger] s[i];
                c != '"' && c != '\\' && (c as u32) >= 32
            },
    ensures
        spec_escape(s) == s,
    decreases s,
{
    if s.len() > 0 {
        lemma_escape_plain(s.drop_last());
        assert((s.last() as u32) >= 32);
        assert(spec_escape(s.drop_last()) + escape_char(s.last()) =~= s);
    }
}

/// Appends a text onto `out` in its JSON-escaped form.
pub fn escape_onto(out: &mut String, s: &str)
    ensures
        final(out)@ == old(out)@ + spec_escape(s@),
{
    let n = s.unicode_len();
    proof {
        assert(s@.subrange(0, 0) =~= Seq::<char>::empty());
        assert(old(out)@ + spec_escape(s@.subrange(0, 0)) =~= old(out)@);
    }
    for i in 0..n
        invariant
            n == s@.len(),
            out@ == old(out)@ + spec_escape(s@.subrange(0, i as int)),
    {
        let c = s.get_char(i);
        if c == '"' {
            proof {
                reveal_strlit("\\\"");
            }
            out.append("\\\"");
            proof {
                assert("\\\""@ =~= escape_char(c));
            }
        } else if c == '\\' {
            proof {
                reveal_strlit("\\\\");
            }
            out.append("\\\\");
            proof {
                assert("\\\\"@ =~= escape_char(c));
            }
        } else if c == '\n' {
            proof {
                reveal_strlit("\\n");
            }
            out.append("\\n");
            proof {
                assert("\\n"@ =~= escape_char(c));
            }
        } else if c == '\r' {
            proof {
                reveal_strlit("\\r");
            }
            out.append("\\r");
            proof {
                assert("\\r"@ =~= escape_char(c));
            }
        } else if c == '\t' {
            proof {
                reveal_strlit("\\t");
            }
            out.append("\\t");
            proof {
                assert("\\t"@ =~= escape_char(c));
            }
        } else if (c as u32) < 32 {
            proof {
                reveal_strlit("\\u00");
            }
            out.append("\\u00");
            out.append(hex_digit_str((c as u32) / 16));
            out.append(hex_digit_str((c as u32) % 16));
            proof {
                assert("\\u00"@ + seq![hex_digit((c as u32) / 16)] + seq![
                    hex_digit((c as u32) % 16),
                ] =~= escape_char(c));
            }
        } else {
            let piece = s.substring_char(i, i + 1);
            out.append(piece);
            proof {
                assert(piece@ =~= escape_char(c));
            }
        }
        proof {
            assert(s@.subrange(0, i + 1).drop_last() =~= s@.subrange(0, i as int));
            assert(s@.subrange(0, i + 1).last() == c);
            assert(out@ =~= old(out)@ + spec_escape(s@.subrange(0, i + 1)));
        }
    }
    proof {
        assert(s@.subrange(0, n as int) =~= s@);
    }
}

/// The quoted, escaped rendering of a text.
pub open spec fn render_str(s: Seq<char>) -> Seq<char> {
    seq!['"'] + spec_escape(s) + seq!['"']
}

/// The text rendering of a JSON document: the canonical form the wire
/// encoders produce, with no whitespace between tokens.
pub open spec fn spec_render(j: JModel) -> Seq<char>
    decreases j,
{
    match j {
        JModel::Null => seq!['n', 'u', 'l', 'l'],
        JModel::Bool(b) => if b {
            seq!['t', 'r', 'u', 'e']
        } else {
            seq!['f', 'a', 'l', 's', 'e']
        },
        JModel::UInt(n) => spec_dec(n),
        // The encoders never produce a number outside the unsigned 64-bit
        // range; render it as null so the renderer is total.
        JModel::NonUInt => seq!['n', 'u', 'l', 'l'],
        JModel::Str(s) => render_str(s),
        JModel::Arr(es) => seq!['['] + render_elems(es) + seq![']'],
        JModel::Obj(fs) => seq!['{'] + render_fields(fs) + seq!['}'],
    }
}

/// The comma-separated renderings of array elements.
pub open spec fn render_elems(es: Seq<JModel>) -> Seq<char>
    decreases es,
{
    if es.len() == 0 {
        Seq::empty()
    } else if es.len() == 1 {
        spec_render(es[0])
    } else {
        render_elems(es.drop_last()) + seq![','] + spec_render(es.last())
    }
}

/// The comma-separated renderings of object fields, each a quoted name, a
/// colon and the value.
pub open spec fn render_fields(fs: Seq<(Seq<char>, JModel)>) -> Seq<char>
    decreases fs,
{
    if fs.len() == 0 {
        Seq::empty()
    } else if fs.len() == 1 {
        render_field(fs[0])
    } else {
        render_fields(fs.drop_last()) + seq![','] + render_field(fs.last())
    }
}

/// The rendering of one object field.
pub open spec fn render_field(f: (Seq<char>, JModel)) -> Seq<char>
    decreases f,
{
    render_str(f.0) + seq![':'] + spec_render(f.1)
}

/// Appending an element to an array appends its rendering, after a comma
/// when it is not the first.
pub proof fn lemma_render_elems_push(es: Seq<JModel>, e: JModel)
    ensures
        render_elems(es.push(e)) == if es.len() == 0 {
            spec_render(e)
        } else {
            render_elems(es) + seq![','] + spec_render(e)
        },
{
    assert(es.push(e).drop_last() =~= es);
    assert(es.push(e).last() == e);
    if es.len() == 0 {
        assert(es.push(e)[0] == e);
    }
}

/// Appends a text onto `out` as a JSON string literal: quoted and escaped.
pub fn append_json_str(out: &mut String, s: &str)
    ensures
        final(out)@ == old(out)@ + render_str(s@),
{
    proof {
        reveal_strlit("\"");
    }
    out.append("\"");
    escape_onto(out, s);
    out.append("\"");
    proof {
        assert("\""@ =~= seq!['"']);
        assert(old(out)@ + "\""@ + spec_escape(s@) + "\""@ =~= old(out)@ + render_str(s@));
    }
}

} // verus!
