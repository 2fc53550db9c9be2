//! Rendering a report as its JSON response body.
//!
//! The body is one JSON object with the fields in a fixed order: `path`
//! (a JSON string), then `free`, `available`, `total` and `buffer_size`
//! (decimal integers). The path is escaped as JSON requires: quote and
//! backslash get a backslash, control characters become `\u00` followed
//! by two hex digits, and every other character stands as itself.

use vstd::prelude::*;

use crate::handler::SpaceReport;

verus! {

/// The character for one digit value below 16.
pub open spec fn digit_char(d: nat) -> char {
    if d == 0 {
        '0'
    } else if d == 1 {
        '1'
    } else if d == 2 {
        '2'
    } else if d == 3 {
        '3'
    } else if d == 4 {
        '4'
    } else if d == 5 {
        '5'
    } else if d == 6 {
        '6'
    } else if d == 7 {
        '7'
    } else if d == 8 {
        '8'
    } else if d == 9 {
        '9'
    } else if d == 10 {
        'a'
    } else if d == 11 {
        'b'
    } else if d == 12 {
        'c'
    } else if d == 13 {
        'd'
    } else if d == 14 {
        'e'
    } else {
        'f'
    }
}

/// The decimal rendering of `n`, most significant digit first, no sign
/// and no leading zero.
pub open spec fn dec_digits(n: nat) -> Seq<char>
    decreases n,
{
    if n < 10 {
        seq![digit_char(n)]
    } else {
        dec_digits(n / 10).push(digit_char(n % 10))
    }
}

/// What one character of a JSON string renders to.
pub open spec fn escape_char(c: char) -> Seq<char> {
    if c == '"' {
        seq!['\\', '"']
    } else if c == '\\' {
        seq!['\\', '\\']
    } else if (c as u32) < 32 {
        seq!['\\', 'u', '0', '0', digit_char(((c as u32) / 16) as nat), digit_char(
            ((c as u32) % 16) as nat,
        )]
    } else {
        seq![c]
    }
}

/// What a whole JSON string renders to, character by character.
pub open spec fn escape_seq(s: Seq<char>) -> Seq<char>
    decreases s.len(),
{
    if s.len() == 0 {
        Seq::empty()
    } else {
        escape_seq(s.drop_last()) + escape_char(s.last())
    }
}

/// The complete JSON body for a report.
pub open spec fn report_json(rep: SpaceReport) -> Seq<char> {
    "{\"path\":\""@ + escape_seq(rep.path@) + "\",\"free\":"@ + dec_digits(rep.free as nat)
        + ",\"available\":"@ + dec_digits(rep.available as nat) + ",\"total\":"@ + dec_digits(
        rep.total as nat,
    ) + ",\"buffer_size\":"@ + dec_digits(rep.buffer_size as nat) + "}"@
}

/// Appends the character for one digit value below 16.
fn push_hex_digit(out: &mut String, d: u8)
    requires
        d < 16,
    ensures
        final(out)@ == old(out)@ + seq![digit_char(d as nat)],
{
    if d == 0 {
        out.append("0");
        proof {
            reveal_strlit("0");
            assert(("0")@ =~= seq![digit_char(0)]);
        }
    } else if d == 1 {
        out.append("1");
        proof {
            reveal_strlit("1");
            assert(("1")@ =~= seq![digit_char(1)]);
        }
    } else if d == 2 {
        out.append("2");
        proof {
            reveal_strlit("2");
            assert(("2")@ =~= seq![digit_char(2)]);
        }
    } else if d == 3 {
        out.append("3");
        proof {
            reveal_strlit("3");
            assert(("3")@ =~= seq![digit_char(3)]);
        }
    } else if d == 4 {
        out.append("4");
        proof {
            reveal_strlit("4");
            assert(("4")@ =~= seq![digit_char(4)]);
        }
    } else if d == 5 {
        out.append("5");
        proof {
            reveal_strlit("5");
            assert(("5")@ =~= seq![digit_char(5)]);
        }
    } else if d == 6 {
        out.append("6");
        proof {
            reveal_strlit("6");
            assert(("6")@ =~= seq![digit_char(6)]);
        }
    } else if d == 7 {
        out.append("7");
        proof {
            reveal_strlit("7");
            assert(("7")@ =~= seq![digit_char(7)]);
        }
    } else if d == 8 {
        out.append("8");
        proof {
            reveal_strlit("8");
            assert(("8")@ =~= seq![digit_char(8)]);
        }
    } else if d == 9 {
        out.append("9");
        proof {
            reveal_strlit("9");
            assert(("9")@ =~= seq![digit_char(9)]);
        }
    } else if d == 10 {
        out.append("a");
        proof {
            reveal_strlit("a");
            assert(("a")@ =~= seq![digit_char(10)]);
        }
    } else if d == 11 {
        out.append("b");
        proof {
            reveal_strlit("b");
            assert(("b")@ =~= seq![digit_char(11)]);
        }
    } else if d == 12 {
        out.append("c");
        proof {
            reveal_strlit("c");
            assert(("c")@ =~= seq![digit_char(12)]);
        }
    } else if d == 13 {
        out.append("d");
        proof {
            reveal_strlit("d");
            assert(("d")@ =~= seq![digit_char(13)]);
        }
    } else if d == 14 {
        out.append("e");
        proof {
            reveal_strlit("e");
            assert(("e")@ =~= seq![digit_char(14)]);
        }
    } else {
        out.append("f");
        proof {
            reveal_strlit("f");
            assert(("f")@ =~= seq![digit_char(15)]);
        }
    }
}

/// Appends the decimal rendering of `n`.
fn push_decimal(out: &mut String, n: u64)
    ensures
        final(out)@ == old(out)@ + dec_digits(n as nat),
    decreases n,
{
    if n < 10 {
        push_hex_digit(out, n as u8);
    } else {
        push_decimal(out, n / 10);
        push_hex_digit(out, (n % 10) as u8);
        proof {
            assert(out@ =~= old(out)@ + dec_digits(n as nat));
        }
    }
}

/// Appends `t` with JSON string escaping.
fn append_escaped(out: &mut String, t: &str)
    ensures
        final(out)@ == old(out)@ + escape_seq(t@),
{
    let ghost base = out@;
    let len: usize = t.unicode_len();
    let mut i: usize = 0;
    while i < len
        invariant
            len == t@.len(),
            i <= len,
            out@ == base + escape_seq(t@.subrange(0, i as int)),
        decreases len - i,
    {
        let c = t.get_char(i);
        let ghost done = t@.subrange(0, i as int);
        let ghost step = t@.subrange(0, i as int + 1);
        proof {
            assert(step.drop_last() =~= done);
            assert(step.last() == t@[i as int]);
        }
        if c == '"' {
            out.append("\\\"");
            proof {
                reveal_strlit("\\\"");
                assert(("\\\"")@ =~= escape_char(c));
            }
        } else if c == '\\' {
            out.append("\\\\");
            proof {
                reveal_strlit("\\\\");
                assert(("\\\\")@ =~= escape_char(c));
            }
        } else {
            let code: u32 = c as u32;
            if code < 32 {
                out.append("\\u00");
                push_hex_digit(out, (code / 16) as u8);
                push_hex_digit(out, (code % 16) as u8);
                proof {
                    reveal_strlit("\\u00");
                    assert(("\\u00")@ + seq![digit_char((code / 16) as nat)] + seq![
                        digit_char((code % 16) as nat),
                    ] =~= escape_char(c));
                }
            } else {
                let piece = t.substring_char(i, i + 1);
                out.append(piece);
                proof {
                    assert(piece@ =~= seq![c]);
                    assert(seq![c] =~= escape_char(c));
                }
            }
        }
        proof {
            assert(out@ =~= base + escape_seq(step));
        }
        i = i + 1;
    }
    proof {
        assert(t@.subrange(0, len as int) =~= t@);
    }
}

/// Renders the report as the JSON body sent to the client.
pub fn render_report(rep: &SpaceReport) -> (r: String)
    ensures
        r@ == report_json(*rep),
{
    let mut out = String::from_str("{\"path\":\"");
    append_escaped(&mut out, rep.path.as_str());
    out.append("\",\"free\":");
    push_decimal(&mut out, rep.free);
    out.append(",\"available\":");
    push_decimal(&mut out, rep.available);
    out.append(",\"total\":");
    push_decimal(&mut out, rep.total);
    out.append(",\"buffer_size\":");
    push_decimal(&mut out, rep.buffer_size);
    out.append("}");
    proof {
        assert(out@ =~= report_json(*rep));
    }
    out
}

} // verus!
