//! The textual form of values, as `print` writes them.
use crate::value::{Val, Value};
use vstd::prelude::*;
use vstd::string::*;

verus! {

/// The character of a decimal digit.
pub open spec fn digit_char(d: nat) -> char {
    seq!['0', '1', '2', '3', '4', '5', '6', '7', '8', '9'][d as int]
}

/// The decimal digits of a natural number, most significant first.
pub open spec fn digits(n: nat) -> Seq<char>
    decreases n,
{
    if n < 10 {
        seq![digit_char(n)]
    } else {
        digits(n / 10).push(digit_char(n % 10))
    }
}

/// The decimal form of an integer, with a leading `-` when it is negative.
pub open spec fn decimal(n: int) -> Seq<char> {
    if n < 0 {
        seq!['-'] + digits((-n) as nat)
    } else {
        digits(n as nat)
    }
}

pub open spec fn true_text() -> Seq<char> {
    seq!['t', 'r', 'u', 'e']
}

pub open spec fn false_text() -> Seq<char> {
    seq!['f', 'a', 'l', 's', 'e']
}

/// What a closure prints as.
pub open spec fn closure_text() -> Seq<char> {
    seq!['<', '#', 'c', 'l', 'o', 's', 'u', 'r', 'e', '>']
}

/// The canonical text of a value: integers in decimal, strings verbatim,
/// booleans as `true` or `false`, pairs as `(first, second)`, and closures
/// as an opaque marker.
pub open spec fn render(v: Val) -> Seq<char>
    decreases v,
{
    match v {
        Val::Int(n) => decimal(n),
        Val::Str(s) => s,
        Val::Bool(b) => if b {
            true_text()
        } else {
            false_text()
        },
        Val::Tuple(a, b) => seq!['('] + render(*a) + seq![',', ' '] + render(*b) + seq![')'],
        Val::Closure { .. } => closure_text(),
    }
}

/// Relies on `String::push`: appends one character at the end.
#[verifier::external_body]
pub(crate) fn push_char(s: &mut String, c: char)
    ensures
        final(s)@ == old(s)@.push(c),
{
    s.push(c)
}

fn digit(d: u64) -> (c: char)
    requires
        d < 10,
    ensures
        c == digit_char(d as nat),
{
    match d {
        0 => '0',
        1 => '1',
        2 => '2',
        3 => '3',
        4 => '4',
        5 => '5',
        6 => '6',
        7 => '7',
        8 => '8',
        _ => '9',
    }
}

fn write_digits(n: u64, out: &mut String)
    ensures
        final(out)@ == old(out)@ + digits(n as nat),
    decreases n,
{
    if n >= 10 {
        write_digits(n / 10, out);
    }
    push_char(out, digit(n % 10));
}

/// Appends the decimal form of `n` to `out`.
pub fn write_int(n: i64, out: &mut String)
    ensures
        final(out)@ == old(out)@ + decimal(n as int),
{
    if n < 0 {
        push_char(out, '-');
        let m: u64 = (-(n as i128)) as u64;
        write_digits(m, out);
        assert(final(out)@ =~= old(out)@ + decimal(n as int));
    } else {
        write_digits(n as u64, out);
    }
}

fn write_text(out: &mut String, text: &str)
    ensures
        final(out)@ == old(out)@ + text@,
{
    out.append(text);
}

/// Appends the canonical text of `v` to `out`.
pub fn write_value(v: &Value, out: &mut String)
    ensures
        final(out)@ == old(out)@ + render(v@),
    decreases v,
{
    match v {
        Value::Int(n) => write_int(*n, out),
        Value::Str(s) => write_text(out, s.as_str()),
        Value::Bool(b) => {
            if *b {
                proof {
                    reveal_strlit("true");
                }
                write_text(out, "true");
            } else {
                proof {
                    reveal_strlit("false");
                }
                write_text(out, "false");
            }
        },
        Value::Tuple(a, b) => {
            let ghost start = out@;
            push_char(out, '(');
            write_value(a, out);
            push_char(out, ',');
            push_char(out, ' ');
            write_value(b, out);
            push_char(out, ')');
            assert(out@ =~= start + render(v@));
        },
        Value::Closure(_) => {
            proof {
                reveal_strlit("<#closure>");
            }
            write_text(out, "<#closure>");
        },
    }
}

impl Value {
    /// The canonical text of the value.
    pub fn render(&self) -> (r: String)
        ensures
            r@ == render(self@),
    {
        let mut r = String::new();
        write_value(self, &mut r);
        assert(r@ =~= render(self@));
        r
    }
}

} // verus!
