//! Deriving which counts to show from command-line style arguments.
//!
//! A flag is honoured when it appears anywhere among the arguments (`-l`
//! lines, `-w` words, `-c` bytes, `-m` characters); order and repetition do
//! not matter, unrecognised tokens are silently ignored, and the last
//! argument is always taken as the target file name, whatever it looks like.
//! The derivation runs in two steps: a raw scan of the flags, then a default
//! substitution — when no flag at all was given, lines, words and bytes are
//! shown and characters are not.

use vstd::prelude::*;

verus! {

/// Which of the four counts to render, and the name to render after them.
pub struct OutputSelection {
    pub show_bytes: bool,
    pub show_lines: bool,
    pub show_words: bool,
    pub show_chars: bool,
    pub target_file_name: String,
}

/// The flag `flag` appears among the arguments.
pub open spec fn has_flag(args: Seq<String>, flag: Seq<char>) -> bool {
    exists|i: int| 0 <= i < args.len() && args[i]@ == flag
}

/// The selection a raw scan of the arguments yields: one flag per count,
/// honoured wherever it appears, and the last argument as the file name.
pub open spec fn raw_selection(args: Seq<String>) -> OutputSelection
    recommends
        args.len() >= 1,
{
    OutputSelection {
        show_bytes: has_flag(args, "-c"@),
        show_lines: has_flag(args, "-l"@),
        show_words: has_flag(args, "-w"@),
        show_chars: has_flag(args, "-m"@),
        target_file_name: args.last(),
    }
}

/// The default substitution: a selection that asks for nothing becomes the
/// classic view — lines, words and bytes, but not characters. A selection
/// that asks for anything is kept as it is.
pub open spec fn with_default(sel: OutputSelection) -> OutputSelection {
    if !sel.show_bytes && !sel.show_lines && !sel.show_words && !sel.show_chars {
        OutputSelection {
            show_bytes: true,
            show_lines: true,
            show_words: true,
            show_chars: false,
            target_file_name: sel.target_file_name,
        }
    } else {
        sel
    }
}

fn string_eq_str(a: &String, flag: &str) -> (r: bool)
    ensures
        r == (a@ == flag@),
{
    let f: String = flag.to_owned();
    *a == f
}

fn contains_flag(args: &Vec<String>, flag: &str) -> (r: bool)
    ensures
        r == has_flag(args@, flag@),
{
    let mut i: usize = 0;
    while i < args.len()
        invariant
            i <= args@.len(),
            forall|j: int| 0 <= j < i ==> args@[j]@ != flag@,
        decreases args@.len() - i,
    {
        if string_eq_str(&args[i], flag) {
            return true;
        }
        i = i + 1;
    }
    false
}

/// The raw scan: one pass per flag over the arguments, plus the last
/// argument as the file name.
pub fn scan_selection(args: &Vec<String>) -> (sel: OutputSelection)
    requires
        args@.len() >= 1,
    ensures
        sel == raw_selection(args@),
{
    let name: String = args[args.len() - 1].clone();
    OutputSelection {
        show_bytes: contains_flag(args, "-c"),
        show_lines: contains_flag(args, "-l"),
        show_words: contains_flag(args, "-w"),
        show_chars: contains_flag(args, "-m"),
        target_file_name: name,
    }
}

/// The default substitution as an executable step.
pub fn apply_default_selection(sel: OutputSelection) -> (r: OutputSelection)
    ensures
        r == with_default(sel),
{
    if !sel.show_bytes && !sel.show_lines && !sel.show_words && !sel.show_chars {
        OutputSelection {
            show_bytes: true,
            show_lines: true,
            show_words: true,
            show_chars: false,
            target_file_name: sel.target_file_name,
        }
    } else {
        sel
    }
}

/// The whole derivation: scan the flags, then substitute the default view
/// when none was given.
pub fn derive_selection(args: &Vec<String>) -> (sel: OutputSelection)
    requires
        args@.len() >= 1,
    ensures
        sel == with_default(raw_selection(args@)),
{
    let raw = scan_selection(args);
    apply_default_selection(raw)
}

} // verus!
