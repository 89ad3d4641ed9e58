use vstd::prelude::*;

verus! {

/// One typed value of a result batch.
///
/// A floating-point value is carried as its shortest decimal rendering that
/// reads back as the same value, so that the grid logic stays on integers and
/// text.
pub enum Value {
    /// The null of any type.
    Null,
    Boolean(bool),
    Int(i64),
    UInt(u64),
    /// A floating-point value, as its decimal rendering.
    Decimal(String),
    /// A calendar date.
    Date { year: i32, month: u8, day: u8 },
    Text(String),
    /// A value of a type that has no rendering, with the type's name.
    Other(String),
}

/// The character of a decimal digit.
pub open spec fn digit(d: int) -> char {
    if d == 0 {
        '0'
    } else if d == 1 {
        '1'
    } else if d == 2 {
        '2'
    } else if d == 3 {
        '3'
    } else if d == 4 {
        '4'
    } else if d == 5 {
        '5'
    } else if d == 6 {
        '6'
    } else if d == 7 {
        '7'
    } else if d == 8 {
        '8'
    } else {
        '9'
    }
}

/// The base-10 digits of a natural number, without leading zeros.
pub open spec fn decimal(n: nat) -> Seq<char>
    decreases n,
{
    if n < 10 {
        seq![digit(n as int)]
    } else {
        decimal(n / 10).push(digit((n % 10) as int))
    }
}

/// The base-10 digits of an integer, with a minus sign if it is negative.
pub open spec fn signed_decimal(n: int) -> Seq<char> {
    if n < 0 {
        seq!['-'] + decimal((-n) as nat)
    } else {
        decimal(n as nat)
    }
}

/// `count` zeros.
pub open spec fn zeros(count: int) -> Seq<char> {
    Seq::new(
        if count > 0 {
            count as nat
        } else {
            0
        },
        |i: int| '0',
    )
}

/// The digits of a natural number, with zeros in front up to `places` digits.
pub open spec fn padded(n: nat, places: int) -> Seq<char> {
    zeros(places - decimal(n).len()) + decimal(n)
}

/// A date as year, month and day: four, two and two digits at least, with
/// hyphens between them and a minus sign before a negative year.
pub open spec fn date_text(year: int, month: nat, day: nat) -> Seq<char> {
    let y = if year < 0 {
        seq!['-'] + padded((-year) as nat, 4)
    } else {
        padded(year as nat, 4)
    };
    y + seq!['-'] + padded(month, 2) + seq!['-'] + padded(day, 2)
}

impl Value {
    /// The display text of a value.
    ///
    /// Null is the empty text; a truth value is `true` or `false`; an integer
    /// is its base-10 digits; a date is year-month-day; text stands as it is;
    /// a value without rendering shows its type's name in angle brackets.
    pub open spec fn text(self) -> Seq<char> {
        match self {
            Value::Null => Seq::<char>::empty(),
            Value::Boolean(b) => if b {
                seq!['t', 'r', 'u', 'e']
            } else {
                seq!['f', 'a', 'l', 's', 'e']
            },
            Value::Int(n) => signed_decimal(n as int),
            Value::UInt(n) => decimal(n as nat),
            Value::Decimal(s) => s@,
            Value::Date { year, month, day } => date_text(year as int, month as nat, day as nat),
            Value::Text(s) => s@,
            Value::Other(name) => seq!['<'] + name@ + seq!['>'],
        }
    }

    /// Renders the value as display text. Never fails.
    pub fn format(&self) -> (out: String)
        ensures
            out@ == self.text(),
    {
        let mut out = String::new();
        match self {
            Value::Null => {},
            Value::Boolean(b) => {
                proof {
                    reveal_strlit("true");
                    reveal_strlit("false");
                }
                if *b {
                    out.append("true");
                    assert(out@ =~= seq!['t', 'r', 'u', 'e']);
                } else {
                    out.append("false");
                    assert(out@ =~= seq!['f', 'a', 'l', 's', 'e']);
                }
            },
            Value::Int(n) => {
                push_signed(&mut out, *n);
            },
            Value::UInt(n) => {
                push_decimal(&mut out, *n);
            },
            Value::Decimal(s) => {
                out.append(s.as_str());
            },
            Value::Date { year, month, day } => {
                push_date(&mut out, *year, *month, *day);
            },
            Value::Text(s) => {
                out.append(s.as_str());
            },
            Value::Other(name) => {
                proof {
                    reveal_strlit("<");
                    reveal_strlit(">");
                }
                out.append("<");
                out.append(name.as_str());
                out.append(">");
                assert(out@ =~= seq!['<'] + name@ + seq!['>']);
            },
        }
        assert(out@ =~= self.text());
        out
    }
}

/// The text of one decimal digit.
fn digit_str(d: u64) -> (s: &'static str)
    requires
        d < 10,
    ensures
        s@ == seq![digit(d as int)],
{
    proof {
        reveal_strlit("0");
        reveal_strlit("1");
        reveal_strlit("2");
        reveal_strlit("3");
        reveal_strlit("4");
        reveal_strlit("5");
        reveal_strlit("6");
        reveal_strlit("7");
        reveal_strlit("8");
        reveal_strlit("9");
    }
    let s = if d == 0 {
        "0"
    } else if d == 1 {
        "1"
    } else if d == 2 {
        "2"
    } else if d == 3 {
        "3"
    } else if d == 4 {
        "4"
    } else if d == 5 {
        "5"
    } else if d == 6 {
        "6"
    } else if d == 7 {
        "7"
    } else if d == 8 {
        "8"
    } else {
        "9"
    };
    assert(s@ =~= seq![digit(d as int)]);
    s
}

/// Appends the base-10 digits of `n`.
fn push_decimal(out: &mut String, n: u64)
    ensures
        final(out)@ == old(out)@ + decimal(n as nat),
    decreases n,
{
    if n >= 10 {
        push_decimal(out, n / 10);
    }
    out.append(digit_str(n % 10));
    assert(out@ =~= old(out)@ + decimal(n as nat));
}

/// Appends the base-10 digits of `n`, after a minus sign if it is negative.
fn push_signed(out: &mut String, n: i64)
    ensures
        final(out)@ == old(out)@ + signed_decimal(n as int),
{
    if n < 0 {
        proof {
            reveal_strlit("-");
        }
        out.append("-");
        let magnitude: u64 = ((-(n + 1)) as u64) + 1;
        push_decimal(out, magnitude);
        assert(out@ =~= old(out)@ + signed_decimal(n as int));
    } else {
        push_decimal(out, n as u64);
    }
}

/// Appends the digits of `n` with zeros in front up to `places` digits.
fn push_padded(out: &mut String, n: u64, places: usize)
    ensures
        final(out)@ == old(out)@ + padded(n as nat, places as int),
{
    let mut digits = String::new();
    push_decimal(&mut digits, n);
    assert(digits@ =~= decimal(n as nat));
    let len: usize = digits.as_str().unicode_len();
    let mut k: usize = len;
    while k < places
        invariant
            len <= k,
            k == len || k <= places,
            len == decimal(n as nat).len(),
            out@ == old(out)@ + zeros(k - len),
        decreases places - k,
    {
        proof {
            reveal_strlit("0");
        }
        out.append("0");
        k = k + 1;
        assert(out@ =~= old(out)@ + zeros(k - len));
    }
    out.append(digits.as_str());
    assert(out@ =~= old(out)@ + padded(n as nat, places as int));
}

/// Appends a date as year-month-day.
fn push_date(out: &mut String, year: i32, month: u8, day: u8)
    ensures
        final(out)@ == old(out)@ + date_text(year as int, month as nat, day as nat),
{
    proof {
        reveal_strlit("-");
    }
    if year < 0 {
        out.append("-");
        let magnitude: u64 = ((-(year + 1)) as u64) + 1;
        push_padded(out, magnitude, 4);
    } else {
        push_padded(out, year as u64, 4);
    }
    out.append("-");
    push_padded(out, month as u64, 2);
    out.append("-");
    push_padded(out, day as u64, 2);
    assert(out@ =~= old(out)@ + date_text(year as int, month as nat, day as nat));
}

} // verus!
