//! Textual rendering of values and cells in the dotted-pair notation.
use vstd::prelude::*;

use crate::cons::Cons;
use crate::value::Value;

verus! {

/// The character of decimal digit `d`.
pub open spec fn digit_char(d: nat) -> char {
    seq!['0', '1', '2', '3', '4', '5', '6', '7', '8', '9'][d as int]
}

/// The decimal digits of `n`, most significant first, without leading zeros.
pub open spec fn decimal(n: nat) -> Seq<char>
    decreases n,
{
    if n < 10 {
        seq![digit_char(n)]
    } else {
        decimal(n / 10) + seq![digit_char(n % 10)]
    }
}

/// The decimal text of `n`, with a leading `-` when it is negative.
pub open spec fn number_text(n: int) -> Seq<char> {
    if n < 0 {
        seq!['-'] + decimal((-n) as nat)
    } else {
        decimal(n as nat)
    }
}

impl Value {
    /// The text of the value: `()` for the empty list, `#t` and `#f` for
    /// booleans, decimal digits for numbers and `(car . cdr)` for a cell.
    pub open spec fn text(self) -> Seq<char>
        decreases self,
    {
        match self {
            Value::Null => seq!['(', ')'],
            Value::Bool(b) => if b {
                seq!['#', 't']
            } else {
                seq!['#', 'f']
            },
            Value::Number(n) => number_text(n as int),
            Value::Cons(c) => c.text(),
        }
    }

    /// Renders the value as text.
    pub fn to_debug_string(&self) -> (r: String)
        ensures
            r@ == self.text(),
    {
        let mut s = String::new();
        self.write_text(&mut s);
        s
    }

    fn write_text(&self, s: &mut String)
        ensures
            final(s)@ == old(s)@ + self.text(),
        decreases self,
    {
        match self {
            Value::Null => {
                proof {
                    reveal_strlit("()");
                }
                s.append("()");
                assert("()"@ =~= seq!['(', ')']);
            },
            Value::Bool(b) => {
                if *b {
                    proof {
                        reveal_strlit("#t");
                    }
                    s.append("#t");
                    assert("#t"@ =~= seq!['#', 't']);
                } else {
                    proof {
                        reveal_strlit("#f");
                    }
                    s.append("#f");
                    assert("#f"@ =~= seq!['#', 'f']);
                }
            },
            Value::Number(n) => {
                if *n < 0 {
                    proof {
                        reveal_strlit("-");
                    }
                    s.append("-");
                    assert("-"@ =~= seq!['-']);
                    let m: u64 = (0i128 - (*n as i128)) as u64;
                    write_decimal(s, m);
                } else {
                    write_decimal(s, *n as u64);
                }
                assert(final(s)@ =~= old(s)@ + self.text());
            },
            Value::Cons(c) => c.write_text(s),
        }
    }
}

impl Cons {
    /// The text of the cell: `(car . cdr)`.
    pub open spec fn text(self) -> Seq<char>
        decreases self,
    {
        seq!['('] + self.car_spec().text() + seq![' ', '.', ' '] + self.cdr_spec().text() + seq![')']
    }

    /// Renders the cell as `(car . cdr)`, each part rendered as a value.
    pub fn to_debug_string(&self) -> (r: String)
        ensures
            r@ == self.text(),
    {
        let mut s = String::new();
        self.write_text(&mut s);
        s
    }

    fn write_text(&self, s: &mut String)
        ensures
            final(s)@ == old(s)@ + self.text(),
        decreases self,
    {
        proof {
            reveal_strlit("(");
            reveal_strlit(" . ");
            reveal_strlit(")");
        }
        s.append("(");
        self.car().write_text(s);
        s.append(" . ");
        self.cdr().write_text(s);
        s.append(")");
        assert("("@ =~= seq!['(']);
        assert(" . "@ =~= seq![' ', '.', ' ']);
        assert(")"@ =~= seq![')']);
        assert(final(s)@ =~= old(s)@ + self.text());
    }
}

/// Appends the decimal digits of `n`.
fn write_decimal(s: &mut String, n: u64)
    ensures
        final(s)@ == old(s)@ + decimal(n as nat),
    decreases n,
{
    if n >= 10 {
        write_decimal(s, n / 10);
    }
    let d = digit_str(n % 10);
    s.append(d);
    assert(final(s)@ =~= old(s)@ + decimal(n as nat));
}

/// The one-character text of decimal digit `d`.
fn digit_str(d: u64) -> (r: &'static str)
    requires
        d < 10,
    ensures
        r@ == seq![digit_char(d as nat)],
{
    proof {
        reveal_strlit("0");
        reveal_strlit("1");
        reveal_strlit("2");
        reveal_strlit("3");
        reveal_strlit("4");
        reveal_strlit("5");
        reveal_strlit("6");
        reveal_strlit("7");
        reveal_strlit("8");
        reveal_strlit("9");
    }
    let r = match d {
        0 => "0",
        1 => "1",
        2 => "2",
        3 => "3",
        4 => "4",
        5 => "5",
        6 => "6",
        7 => "7",
        8 => "8",
        _ => "9",
    };
    assert(r@ =~= seq![digit_char(d as nat)]);
    r
}

} // verus!
