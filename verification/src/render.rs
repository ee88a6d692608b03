//! The text of one rendered frame. Every frame shows the same bordered,
//! titled panel; its body is four centered lines, of which only the counter
//! line varies. The decimal rendering of the counter is computed here and
//! proved to match its mathematical definition, so that the frame text is
//! pinned down exactly for every counter value.

use vstd::prelude::*;

verus! {

/// The character for one decimal digit.
pub open spec fn digit_char(d: nat) -> char {
    if d == 0 {
        '0'
    } else if d == 1 {
        '1'
    } else if d == 2 {
        '2'
    } else if d == 3 {
        '3'
    } else if d == 4 {
        '4'
    } else if d == 5 {
        '5'
    } else if d == 6 {
        '6'
    } else if d == 7 {
        '7'
    } else if d == 8 {
        '8'
    } else {
        '9'
    }
}

/// The decimal digits of a natural number, most significant first, with no
/// leading zeros (a single '0' for zero).
pub open spec fn dec_digits(n: nat) -> Seq<char>
    decreases n,
{
    if n < 10 {
        seq![digit_char(n)]
    } else {
        dec_digits(n / 10) + seq![digit_char(n % 10)]
    }
}

/// The decimal rendering of a signed integer: a leading '-' for negative
/// values, then the digits of the magnitude.
pub open spec fn int_digits(v: int) -> Seq<char> {
    if v < 0 {
        seq!['-'] + dec_digits((-v) as nat)
    } else {
        dec_digits(v as nat)
    }
}

/// The counter line of the frame body.
pub open spec fn counter_text(c: int) -> Seq<char> {
    ("Counter: ")@ + int_digits(c)
}

/// The dimmed hint line of the frame body.
pub open spec fn hint_text() -> Seq<char> {
    ("Press \u{2191}/\u{2193} to change, q to quit")@
}

/// The fixed panel title.
pub open spec fn title_text() -> Seq<char> {
    (" mycli - Ratatui TUI ")@
}

/// The one-character string of a decimal digit.
fn digit_str(d: u64) -> (r: &'static str)
    requires
        d < 10,
    ensures
        r@ == seq![digit_char(d as nat)],
{
    if d == 0 {
        proof {
            reveal_strlit("0");
            assert(("0")@ =~= seq![digit_char(0)]);
        }
        "0"
    } else if d == 1 {
        proof {
            reveal_strlit("1");
            assert(("1")@ =~= seq![digit_char(1)]);
        }
        "1"
    } else if d == 2 {
        proof {
            reveal_strlit("2");
            assert(("2")@ =~= seq![digit_char(2)]);
        }
        "2"
    } else if d == 3 {
        proof {
            reveal_strlit("3");
            assert(("3")@ =~= seq![digit_char(3)]);
        }
        "3"
    } else if d == 4 {
        proof {
            reveal_strlit("4");
            assert(("4")@ =~= seq![digit_char(4)]);
        }
        "4"
    } else if d == 5 {
        proof {
            reveal_strlit("5");
            assert(("5")@ =~= seq![digit_char(5)]);
        }
        "5"
    } else if d == 6 {
        proof {
            reveal_strlit("6");
            assert(("6")@ =~= seq![digit_char(6)]);
        }
        "6"
    } else if d == 7 {
        proof {
            reveal_strlit("7");
            assert(("7")@ =~= seq![digit_char(7)]);
        }
        "7"
    } else if d == 8 {
        proof {
            reveal_strlit("8");
            assert(("8")@ =~= seq![digit_char(8)]);
        }
        "8"
    } else {
        proof {
            reveal_strlit("9");
            assert(("9")@ =~= seq![digit_char(9)]);
        }
        "9"
    }
}

/// The decimal string of an unsigned machine integer.
fn u64_string(n: u64) -> (s: String)
    ensures
        s@ == dec_digits(n as nat),
    decreases n,
{
    if n < 10 {
        String::from_str(digit_str(n))
    } else {
        let prefix = u64_string(n / 10);
        prefix.concat(digit_str(n % 10))
    }
}

/// The decimal string of a signed machine integer.
pub fn i64_string(v: i64) -> (s: String)
    ensures
        s@ == int_digits(v as int),
{
    if v >= 0 {
        u64_string(v as u64)
    } else {
        let m: u64 = ((-(v + 1)) as u64) + 1;
        proof {
            assert(m == -(v as int));
            reveal_strlit("-");
            assert(("-")@ =~= seq!['-']);
        }
        let digits = u64_string(m);
        let sign = String::from_str("-");
        sign.concat(digits.as_str())
    }
}

/// The counter line: the literal text "Counter: " followed by the decimal
/// value of the counter.
pub fn counter_line(counter: i64) -> (s: String)
    ensures
        s@ == counter_text(counter as int),
{
    let head = String::from_str(counter_prefix());
    let value = i64_string(counter);
    head.concat(value.as_str())
}

/// The fixed text that precedes the counter value on its line.
pub fn counter_prefix() -> (t: &'static str)
    ensures
        t@ == ("Counter: ")@,
{
    "Counter: "
}

/// The hint line instructing the available keys.
pub fn hint_line() -> (s: String)
    ensures
        s@ == hint_text(),
{
    String::from_str("Press \u{2191}/\u{2193} to change, q to quit")
}

/// The fixed panel title.
pub fn title() -> (t: &'static str)
    ensures
        t@ == title_text(),
{
    " mycli - Ratatui TUI "
}

/// The four lines of the frame body for a counter value: a blank line, the
/// counter line, a blank line, and the hint line.
pub fn render_lines(counter: i64) -> (lines: Vec<String>)
    ensures
        lines@.len() == 4,
        lines@[0]@ == Seq::<char>::empty(),
        lines@[1]@ == counter_text(counter as int),
        lines@[2]@ == Seq::<char>::empty(),
        lines@[3]@ == hint_text(),
{
    let mut lines: Vec<String> = Vec::new();
    lines.push(String::new());
    lines.push(counter_line(counter));
    lines.push(String::new());
    lines.push(hint_line());
    lines
}

} // verus!
