use vstd::prelude::*;
use vstd::string::StringExecFns;

verus! {

/// The character that prints the decimal digit `d`.
pub open spec fn digit_char(d: nat) -> char {
    if d == 0 {
        '0'
    } else if d == 1 {
        '1'
    } else if d == 2 {
        '2'
    } else if d == 3 {
        '3'
    } else if d == 4 {
        '4'
    } else if d == 5 {
        '5'
    } else if d == 6 {
        '6'
    } else if d == 7 {
        '7'
    } else if d == 8 {
        '8'
    } else {
        '9'
    }
}

/// The decimal digits of `n`, most significant first, with no leading
/// zeros (a lone zero for `n == 0`).
pub open spec fn decimal_seq(n: nat) -> Seq<char>
    decreases n,
{
    if n < 10 {
        seq![digit_char(n)]
    } else {
        decimal_seq(n / 10).push(digit_char(n % 10))
    }
}

/// The prompt shown while a countdown reports `remaining` seconds left:
/// the remaining time followed by "> " while time remains, the default
/// prompt "> " once it has run out.
pub open spec fn prompt_text(remaining: u64) -> Seq<char> {
    if remaining > 0 {
        decimal_seq(remaining as nat) + "> "@
    } else {
        "> "@
    }
}

/// The control sequence that returns the cursor to column zero and
/// erases the rest of the row.
pub open spec fn clear_row_text() -> Seq<char> {
    "\r\u{1b}[0K"@
}

fn digit_str(d: u64) -> (s: &'static str)
    requires
        d < 10,
    ensures
        s@ == seq![digit_char(d as nat)],
{
    if d == 0 {
        proof {
            reveal_strlit("0");
            assert("0"@ =~= seq![digit_char(d as nat)]);
        }
        "0"
    } else if d == 1 {
        proof {
            reveal_strlit("1");
            assert("1"@ =~= seq![digit_char(d as nat)]);
        }
        "1"
    } else if d == 2 {
        proof {
            reveal_strlit("2");
            assert("2"@ =~= seq![digit_char(d as nat)]);
        }
        "2"
    } else if d == 3 {
        proof {
            reveal_strlit("3");
            assert("3"@ =~= seq![digit_char(d as nat)]);
        }
        "3"
    } else if d == 4 {
        proof {
            reveal_strlit("4");
            assert("4"@ =~= seq![digit_char(d as nat)]);
        }
        "4"
    } else if d == 5 {
        proof {
            reveal_strlit("5");
            assert("5"@ =~= seq![digit_char(d as nat)]);
        }
        "5"
    } else if d == 6 {
        proof {
            reveal_strlit("6");
            assert("6"@ =~= seq![digit_char(d as nat)]);
        }
        "6"
    } else if d == 7 {
        proof {
            reveal_strlit("7");
            assert("7"@ =~= seq![digit_char(d as nat)]);
        }
        "7"
    } else if d == 8 {
        proof {
            reveal_strlit("8");
            assert("8"@ =~= seq![digit_char(d as nat)]);
        }
        "8"
    } else {
        proof {
            reveal_strlit("9");
            assert("9"@ =~= seq![digit_char(d as nat)]);
        }
        "9"
    }
}

/// Appends the decimal digits of `n` to `out`.
fn push_decimal(out: &mut String, n: u64)
    ensures
        final(out)@ == old(out)@ + decimal_seq(n as nat),
    decreases n,
{
    if n >= 10 {
        push_decimal(out, n / 10);
        proof {
            assert((n / 10) as nat == n as nat / 10) by (nonlinear_arith);
        }
    }
    let digit = digit_str(n % 10);
    out.append(digit);
    proof {
        assert((n % 10) as nat == n as nat % 10) by (nonlinear_arith);
        if n >= 10 {
            assert(decimal_seq(n as nat) == decimal_seq(n as nat / 10).push(
                digit_char(n as nat % 10),
            ));
            assert(final(out)@ =~= old(out)@ + decimal_seq(n as nat));
        } else {
            assert(decimal_seq(n as nat) == seq![digit_char(n as nat)]);
            assert(final(out)@ =~= old(out)@ + decimal_seq(n as nat));
        }
    }
}

/// Builds the prompt shown for `remaining` seconds left.
pub fn prompt_string(remaining: u64) -> (prompt: String)
    ensures
        prompt@ == prompt_text(remaining),
{
    if remaining > 0 {
        let mut out = String::new();
        push_decimal(&mut out, remaining);
        out.append("> ");
        proof {
            assert(out@ =~= decimal_seq(remaining as nat) + "> "@);
        }
        out
    } else {
        String::from_str("> ")
    }
}

/// Appends the clear-row control sequence to `buffer`, so that the next
/// write starts on a blank row.
pub fn clear_old_rows(buffer: &mut String)
    ensures
        final(buffer)@ == old(buffer)@ + clear_row_text(),
{
    buffer.append("\r\u{1b}[0K");
}

/// The bytes echoed for a committed line: the line on a row of its own.
pub fn echo_text(line: &String) -> (echo: String)
    ensures
        echo@ == "\n"@ + line@ + "\n"@,
{
    let mut out = String::from_str("\n");
    out.append(line.as_str());
    out.append("\n");
    out
}

/// Interprets a window-size query: zero columns mean an uninitialized
/// pseudo-terminal and fall back to 80 columns, zero rows to unbounded
/// rows; a failed query falls back to 80 by 24.
pub fn normalize_window_size(query_ok: bool, cols: u16, rows: u16) -> (size: (usize, usize))
    ensures
        query_ok && cols == 0 ==> size.0 == 80,
        query_ok && cols != 0 ==> size.0 == cols as usize,
        query_ok && rows == 0 ==> size.1 == usize::MAX,
        query_ok && rows != 0 ==> size.1 == rows as usize,
        !query_ok ==> size == (80usize, 24usize),
{
    if query_ok {
        let width: usize = if cols == 0 {
            80
        } else {
            cols as usize
        };
        let height: usize = if rows == 0 {
            usize::MAX
        } else {
            rows as usize
        };
        (width, height)
    } else {
        (80, 24)
    }
}

} // verus!
