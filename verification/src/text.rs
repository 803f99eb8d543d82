//! Rendering of JSON values as JSON text.
//!
//! The functions here produce exactly the character sequence given by the
//! spec function [`json_text`], so every caller knows the full output text.

use vstd::prelude::*;

use crate::json::arr_view;
use crate::json::lemma_arr_view;
use crate::json::lemma_obj_view;
use crate::json::obj_view;
use crate::json::Json;
use crate::json::JsonV;

verus! {

broadcast use vstd::std_specs::vec::axiom_vec_index_decreases;

/// The decimal digit character for `d`.
pub open spec fn digit_char(d: int) -> char {
    if d == 0 {
        '0'
    } else if d == 1 {
        '1'
    } else if d == 2 {
        '2'
    } else if d == 3 {
        '3'
    } else if d == 4 {
        '4'
    } else if d == 5 {
        '5'
    } else if d == 6 {
        '6'
    } else if d == 7 {
        '7'
    } else if d == 8 {
        '8'
    } else {
        '9'
    }
}

/// The lower-case hexadecimal digit character for `d`.
pub open spec fn hex_char(d: int) -> char {
    if d < 10 {
        digit_char(d)
    } else if d == 10 {
        'a'
    } else if d == 11 {
        'b'
    } else if d == 12 {
        'c'
    } else if d == 13 {
        'd'
    } else if d == 14 {
        'e'
    } else {
        'f'
    }
}

/// The decimal digits of `n`, most significant first.
pub open spec fn dec_digits(n: nat) -> Seq<char>
    decreases n,
{
    if n < 10 {
        seq![digit_char(n as int)]
    } else {
        dec_digits(n / 10) + seq![digit_char((n % 10) as int)]
    }
}

/// The text of the (possibly negative) integer `i`.
pub open spec fn int_text(i: int) -> Seq<char> {
    if i < 0 {
        seq!['-'] + dec_digits((-i) as nat)
    } else {
        dec_digits(i as nat)
    }
}

/// How one character appears inside a JSON string literal.
pub open spec fn esc_char(c: char) -> Seq<char> {
    if c == '"' {
        seq!['\\', '"']
    } else if c == '\\' {
        seq!['\\', '\\']
    } else if c == '\n' {
        seq!['\\', 'n']
    } else if c == '\r' {
        seq!['\\', 'r']
    } else if c == '\t' {
        seq!['\\', 't']
    } else if (c as int) < 32 {
        seq!['\\', 'u', '0', '0', hex_char(c as int / 16), hex_char(c as int % 16)]
    } else {
        seq![c]
    }
}

/// The body of a JSON string literal for the characters `s`.
pub open spec fn escape(s: Seq<char>) -> Seq<char>
    decreases s.len(),
{
    if s.len() == 0 {
        Seq::empty()
    } else {
        esc_char(s[0]) + escape(s.subrange(1, s.len() as int))
    }
}

/// A whole JSON string literal, quotes included.
pub open spec fn str_text(s: Seq<char>) -> Seq<char> {
    seq!['"'] + escape(s) + seq!['"']
}

/// The JSON text of a value.
pub open spec fn json_text(j: JsonV) -> Seq<char>
    decreases j,
{
    match j {
        JsonV::Null => seq!['n', 'u', 'l', 'l'],
        JsonV::Bool(b) => if b {
            seq!['t', 'r', 'u', 'e']
        } else {
            seq!['f', 'a', 'l', 's', 'e']
        },
        JsonV::Int(i) => int_text(i),
        JsonV::Str(s) => str_text(s),
        JsonV::Arr(es) => seq!['['] + arr_text(es) + seq![']'],
        JsonV::Obj(ms) => seq!['{'] + obj_text(ms) + seq!['}'],
    }
}

/// The comma-separated texts of array elements.
pub open spec fn arr_text(es: Seq<JsonV>) -> Seq<char>
    decreases es,
{
    if es.len() == 0 {
        Seq::empty()
    } else if es.len() == 1 {
        json_text(es[0])
    } else {
        json_text(es[0]) + seq![','] + arr_text(es.subrange(1, es.len() as int))
    }
}

/// The comma-separated texts of object members.
pub open spec fn obj_text(ms: Seq<(Seq<char>, JsonV)>) -> Seq<char>
    decreases ms,
{
    if ms.len() == 0 {
        Seq::empty()
    } else if ms.len() == 1 {
        member_text(ms[0])
    } else {
        member_text(ms[0]) + seq![','] + obj_text(ms.subrange(1, ms.len() as int))
    }
}

/// The text of one object member: quoted key, colon, value.
pub open spec fn member_text(m: (Seq<char>, JsonV)) -> Seq<char>
    decreases m,
{
    str_text(m.0) + seq![':'] + json_text(m.1)
}

proof fn lemma_escape_push(s: Seq<char>, c: char)
    ensures
        escape(s.push(c)) == escape(s) + esc_char(c),
    decreases s.len(),
{
    if s.len() == 0 {
        assert(s.push(c)[0] == c);
        assert(s.push(c).subrange(1, 1) =~= Seq::<char>::empty());
        assert(escape(s.push(c).subrange(1, 1)) =~= Seq::<char>::empty());
        assert(escape(s) =~= Seq::<char>::empty());
        assert(escape(s.push(c)) =~= escape(s) + esc_char(c));
    } else {
        let rest = s.subrange(1, s.len() as int);
        let p = s.push(c);
        assert(p.len() == s.len() + 1);
        assert(p[0] == s[0]);
        assert(p.subrange(1, p.len() as int) =~= rest.push(c));
        lemma_escape_push(rest, c);
        assert(escape(p) == esc_char(p[0]) + escape(p.subrange(1, p.len() as int)));
        assert(escape(s) == esc_char(s[0]) + escape(rest));
        assert(escape(p) =~= escape(s) + esc_char(c));
    }
}

proof fn lemma_arr_text_push(es: Seq<JsonV>, x: JsonV)
    ensures
        es.len() == 0 ==> arr_text(es.push(x)) == json_text(x),
        es.len() > 0 ==> arr_text(es.push(x)) == arr_text(es) + seq![','] + json_text(x),
    decreases es.len(),
{
    if es.len() == 0 {
        assert(es.push(x)[0] == x);
    } else {
        assert(es.push(x)[0] == es[0]);
        let rest = es.subrange(1, es.len() as int);
        assert(es.push(x).subrange(1, es.len() as int + 1) =~= rest.push(x));
        lemma_arr_text_push(rest, x);
        if es.len() == 1 {
            assert(arr_text(es.push(x)) =~= arr_text(es) + seq![','] + json_text(x));
        } else {
            assert(arr_text(es.push(x)) =~= arr_text(es) + seq![','] + json_text(x));
        }
    }
}

proof fn lemma_obj_text_push(ms: Seq<(Seq<char>, JsonV)>, x: (Seq<char>, JsonV))
    ensures
        ms.len() == 0 ==> obj_text(ms.push(x)) == member_text(x),
        ms.len() > 0 ==> obj_text(ms.push(x)) == obj_text(ms) + seq![','] + member_text(x),
    decreases ms.len(),
{
    if ms.len() == 0 {
        assert(ms.push(x)[0] == x);
    } else {
        assert(ms.push(x)[0] == ms[0]);
        let rest = ms.subrange(1, ms.len() as int);
        assert(ms.push(x).subrange(1, ms.len() as int + 1) =~= rest.push(x));
        lemma_obj_text_push(rest, x);
        assert(obj_text(ms.push(x)) =~= obj_text(ms) + seq![','] + member_text(x));
    }
}

fn digit_str(d: u64) -> (r: &'static str)
    requires
        d < 10,
    ensures
        r@ == seq![digit_char(d as int)],
{
    proof {
        reveal_strlit("0");
        reveal_strlit("1");
        reveal_strlit("2");
        reveal_strlit("3");
        reveal_strlit("4");
        reveal_strlit("5");
        reveal_strlit("6");
        reveal_strlit("7");
        reveal_strlit("8");
        reveal_strlit("9");
    }
    let r: &'static str = if d == 0 {
        "0"
    } else if d == 1 {
        "1"
    } else if d == 2 {
        "2"
    } else if d == 3 {
        "3"
    } else if d == 4 {
        "4"
    } else if d == 5 {
        "5"
    } else if d == 6 {
        "6"
    } else if d == 7 {
        "7"
    } else if d == 8 {
        "8"
    } else {
        "9"
    };
    proof {
        assert(r@ =~= seq![digit_char(d as int)]);
    }
    r
}

fn hex_str(d: u32) -> (r: &'static str)
    requires
        d < 16,
    ensures
        r@ == seq![hex_char(d as int)],
{
    proof {
        reveal_strlit("a");
        reveal_strlit("b");
        reveal_strlit("c");
        reveal_strlit("d");
        reveal_strlit("e");
        reveal_strlit("f");
    }
    let r: &'static str = if d < 10 {
        digit_str(d as u64)
    } else if d == 10 {
        "a"
    } else if d == 11 {
        "b"
    } else if d == 12 {
        "c"
    } else if d == 13 {
        "d"
    } else if d == 14 {
        "e"
    } else {
        "f"
    };
    proof {
        assert(r@ =~= seq![hex_char(d as int)]);
    }
    r
}

/// Appends the decimal digits of `n` to `out`.
fn write_u64(out: &mut String, n: u64)
    ensures
        final(out)@ == old(out)@ + dec_digits(n as nat),
    decreases n,
{
    if n >= 10 {
        write_u64(out, n / 10);
    }
    out.append(digit_str(n % 10));
    proof {
        assert(out@ =~= old(out)@ + dec_digits(n as nat));
    }
}

/// Appends the decimal text of `i`, with a leading minus sign if negative.
fn write_i64(out: &mut String, i: i64)
    ensures
        final(out)@ == old(out)@ + int_text(i as int),
{
    proof {
        reveal_strlit("-");
    }
    if i < 0 {
        out.append("-");
        let m: u64 = if i == i64::MIN {
            9223372036854775808u64
        } else {
            (-i) as u64
        };
        assert(m as nat == (-(i as int)) as nat);
        write_u64(out, m);
        proof {
            assert(out@ =~= old(out)@ + int_text(i as int));
        }
    } else {
        write_u64(out, i as u64);
    }
}

/// Appends the escaped form of `s` (without the surrounding quotes).
#[verifier::loop_isolation(false)]
fn write_escaped(out: &mut String, s: &str)
    ensures
        final(out)@ == old(out)@ + escape(s@),
{
    proof {
        reveal_strlit("\\\"");
        reveal_strlit("\\\\");
        reveal_strlit("\\n");
        reveal_strlit("\\r");
        reveal_strlit("\\t");
        reveal_strlit("\\u00");
    }
    let n: usize = s.unicode_len();
    let mut i: usize = 0;
    while i < n
        invariant
            n == s@.len(),
            0 <= i <= n,
            out@ == old(out)@ + escape(s@.subrange(0, i as int)),
        decreases n - i,
    {
        let ghost prefix = s@.subrange(0, i as int);
        let c = s.get_char(i);
        if c == '"' {
            out.append("\\\"");
        } else if c == '\\' {
            out.append("\\\\");
        } else if c == '\n' {
            out.append("\\n");
        } else if c == '\r' {
            out.append("\\r");
        } else if c == '\t' {
            out.append("\\t");
        } else if (c as u32) < 32 {
            out.append("\\u00");
            out.append(hex_str((c as u32) / 16));
            out.append(hex_str((c as u32) % 16));
        } else {
            out.append(s.substring_char(i, i + 1));
            proof {
                assert(s@.subrange(i as int, i + 1) =~= seq![s@[i as int]]);
            }
        }
        proof {
            lemma_escape_push(prefix, s@[i as int]);
            assert(prefix.push(s@[i as int]) =~= s@.subrange(0, i + 1));
            assert(out@ =~= old(out)@ + escape(s@.subrange(0, i + 1)));
        }
        i = i + 1;
    }
    proof {
        assert(s@.subrange(0, n as int) =~= s@);
    }
}

/// Appends one JSON string literal, quotes included.
fn write_str(out: &mut String, s: &str)
    ensures
        final(out)@ == old(out)@ + str_text(s@),
{
    proof {
        reveal_strlit("\"");
    }
    out.append("\"");
    write_escaped(out, s);
    out.append("\"");
    proof {
        assert(out@ =~= old(out)@ + str_text(s@));
    }
}

/// Appends the JSON text of `j` to `out`.
#[verifier::loop_isolation(false)]
pub fn write_json(out: &mut String, j: &Json)
    ensures
        final(out)@ == old(out)@ + json_text(j.deep_view()),
    decreases j,
{
    broadcast use lemma_arr_view, lemma_obj_view;

    match j {
        Json::Null => {
            proof {
                reveal_strlit("null");
            }
            out.append("null");
            proof {
                assert(out@ =~= old(out)@ + json_text(j.deep_view()));
            }
        },
        Json::Bool(b) => {
            proof {
                reveal_strlit("true");
                reveal_strlit("false");
            }
            if *b {
                out.append("true");
            } else {
                out.append("false");
            }
            proof {
                assert(out@ =~= old(out)@ + json_text(j.deep_view()));
            }
        },
        Json::Int(n) => {
            write_i64(out, *n);
        },
        Json::Str(s) => {
            write_str(out, s.as_str());
        },
        Json::Arr(v) => {
            proof {
                reveal_strlit("[");
                reveal_strlit("]");
                reveal_strlit(",");
            }
            let ghost es = arr_view(v@);
            out.append("[");
            let mut k: usize = 0;
            while k < v.len()
                invariant
                    es == arr_view(v@),
                    es.len() == v@.len(),
                    forall|t: int| 0 <= t < v@.len() ==> es[t] == #[trigger] v@[t].deep_view(),
                    0 <= k <= v@.len(),
                    out@ == old(out)@ + seq!['['] + arr_text(es.subrange(0, k as int)),
                decreases v@.len() - k,
            {
                let ghost prefix = es.subrange(0, k as int);
                if k > 0 {
                    out.append(",");
                }
                proof {
                    assert(*j == Json::Arr(*v));
                    assert(decreases_to!(*j => j->Arr_0));
                    assert(decreases_to!(*v => v@[k as int]));
                }
                write_json(out, &v[k]);
                proof {
                    lemma_arr_text_push(prefix, es[k as int]);
                    assert(prefix.push(es[k as int]) =~= es.subrange(0, k + 1));
                    assert(out@ =~= old(out)@ + seq!['['] + arr_text(es.subrange(0, k + 1)));
                }
                k = k + 1;
            }
            out.append("]");
            proof {
                assert(es.subrange(0, es.len() as int) =~= es);
                assert(out@ =~= old(out)@ + json_text(j.deep_view()));
            }
        },
        Json::Obj(m) => {
            proof {
                reveal_strlit("{");
                reveal_strlit("}");
                reveal_strlit(",");
                reveal_strlit(":");
            }
            let ghost ms = obj_view(m@);
            out.append("{");
            let mut k: usize = 0;
            while k < m.len()
                invariant
                    ms == obj_view(m@),
                    ms.len() == m@.len(),
                    forall|t: int|
                        0 <= t < m@.len() ==> ms[t] == (#[trigger] m@[t].0@, m@[t].1.deep_view()),
                    0 <= k <= m@.len(),
                    out@ == old(out)@ + seq!['{'] + obj_text(ms.subrange(0, k as int)),
                decreases m@.len() - k,
            {
                let ghost prefix = ms.subrange(0, k as int);
                if k > 0 {
                    out.append(",");
                }
                let member = &m[k];
                write_str(out, member.0.as_str());
                out.append(":");
                proof {
                    assert(*j == Json::Obj(*m));
                    assert(decreases_to!(*j => j->Obj_0));
                    assert(decreases_to!(*m => m@[k as int]));
                    assert(decreases_to!(m@[k as int] => m@[k as int].1));
                }
                write_json(out, &member.1);
                proof {
                    lemma_obj_text_push(prefix, ms[k as int]);
                    assert(prefix.push(ms[k as int]) =~= ms.subrange(0, k + 1));
                    assert(out@ =~= old(out)@ + seq!['{'] + obj_text(ms.subrange(0, k + 1)));
                }
                k = k + 1;
            }
            out.append("}");
            proof {
                assert(ms.subrange(0, ms.len() as int) =~= ms);
                assert(out@ =~= old(out)@ + json_text(j.deep_view()));
            }
        },
    }
}

impl Json {
    /// The JSON text of this value.
    pub fn to_text(&self) -> (r: String)
        ensures
            r@ == json_text(self.deep_view()),
    {
        let mut out = String::new();
        write_json(&mut out, self);
        proof {
            assert(out@ =~= json_text(self.deep_view()));
        }
        out
    }
}


/// The decimal text of `n` as a string.
pub fn u64_dec_string(n: u64) -> (r: String)
    ensures
        r@ == dec_digits(n as nat),
{
    let mut out = String::new();
    write_u64(&mut out, n);
    proof {
        assert(out@ =~= dec_digits(n as nat));
    }
    out
}

} // verus!
