//! The output formatter: renders the selected counts as one line of text.
//!
//! The order is fixed whatever was selected: line count, word count, byte
//! count, character count, each followed by a single space, and the file
//! name last with nothing after it. A count that was not selected
//! contributes nothing, not even a placeholder.

use vstd::prelude::*;
use vstd::string::StringExecFns;
use crate::selection::OutputSelection;
use crate::stats::FileStatistics;

verus! {

/// The character that renders the decimal digit `d`.
pub open spec fn digit_char(d: int) -> char
    recommends
        0 <= d < 10,
{
    if d == 0 {
        '0'
    } else if d == 1 {
        '1'
    } else if d == 2 {
        '2'
    } else if d == 3 {
        '3'
    } else if d == 4 {
        '4'
    } else if d == 5 {
        '5'
    } else if d == 6 {
        '6'
    } else if d == 7 {
        '7'
    } else if d == 8 {
        '8'
    } else {
        '9'
    }
}

/// The usual decimal rendering of `n`: most significant digit first, no
/// leading zero except for `n == 0` itself.
pub open spec fn decimal_digits(n: nat) -> Seq<char>
    decreases n,
{
    if n < 10 {
        seq![digit_char(n as int)]
    } else {
        decimal_digits(n / 10) + seq![digit_char((n % 10) as int)]
    }
}

/// What one count contributes to the output line: its decimal rendering and
/// a trailing space when selected, nothing at all when not.
pub open spec fn rendered_field(show: bool, value: nat) -> Seq<char> {
    if show {
        decimal_digits(value) + seq![' ']
    } else {
        Seq::<char>::empty()
    }
}

/// The whole output line: the selected counts in the fixed order — lines,
/// words, bytes, characters — then the file name.
pub open spec fn rendered_line(data: FileStatistics, sel: OutputSelection) -> Seq<char> {
    rendered_field(sel.show_lines, data.line_count as nat) + rendered_field(
        sel.show_words,
        data.word_count as nat,
    ) + rendered_field(sel.show_bytes, data.byte_count as nat) + rendered_field(
        sel.show_chars,
        data.char_count as nat,
    ) + sel.target_file_name@
}

fn append_digit(out: &mut String, d: usize)
    requires
        d < 10,
    ensures
        final(out)@ == old(out)@ + seq![digit_char(d as int)],
{
    if d == 0 {
        proof {
            reveal_strlit("0");
        }
        out.append("0");
    } else if d == 1 {
        proof {
            reveal_strlit("1");
        }
        out.append("1");
    } else if d == 2 {
        proof {
            reveal_strlit("2");
        }
        out.append("2");
    } else if d == 3 {
        proof {
            reveal_strlit("3");
        }
        out.append("3");
    } else if d == 4 {
        proof {
            reveal_strlit("4");
        }
        out.append("4");
    } else if d == 5 {
        proof {
            reveal_strlit("5");
        }
        out.append("5");
    } else if d == 6 {
        proof {
            reveal_strlit("6");
        }
        out.append("6");
    } else if d == 7 {
        proof {
            reveal_strlit("7");
        }
        out.append("7");
    } else if d == 8 {
        proof {
            reveal_strlit("8");
        }
        out.append("8");
    } else {
        proof {
            reveal_strlit("9");
        }
        out.append("9");
    }
    proof {
        assert(final(out)@ =~= old(out)@ + seq![digit_char(d as int)]);
    }
}

fn append_decimal(out: &mut String, n: usize)
    ensures
        final(out)@ == old(out)@ + decimal_digits(n as nat),
    decreases n,
{
    if n < 10 {
        append_digit(out, n);
    } else {
        append_decimal(out, n / 10);
        append_digit(out, n % 10);
        proof {
            assert(final(out)@ =~= old(out)@ + decimal_digits(n as nat));
        }
    }
}

fn append_space(out: &mut String)
    ensures
        final(out)@ == old(out)@ + seq![' '],
{
    proof {
        reveal_strlit(" ");
    }
    out.append(" ");
    proof {
        assert(final(out)@ =~= old(out)@ + seq![' ']);
    }
}

/// Renders the output line for `data` under the selection `args`.
pub fn format_output(data: FileStatistics, args: OutputSelection) -> (r: String)
    ensures
        r@ == rendered_line(data, args),
{
    let mut out = String::new();
    if args.show_lines {
        append_decimal(&mut out, data.line_count);
        append_space(&mut out);
    }
    if args.show_words {
        append_decimal(&mut out, data.word_count);
        append_space(&mut out);
    }
    if args.show_bytes {
        append_decimal(&mut out, data.byte_count);
        append_space(&mut out);
    }
    if args.show_chars {
        append_decimal(&mut out, data.char_count);
        append_space(&mut out);
    }
    out.append(args.target_file_name.as_str());
    proof {
        assert(out@ =~= rendered_line(data, args));
    }
    out
}

} // verus!
