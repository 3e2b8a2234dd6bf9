use wordcount::format::format_output;
use wordcount::selection::{apply_default_selection, derive_selection, scan_selection, OutputSelection};
use wordcount::stats::{collect_statistics, FileStatistics};

fn args_of(words: &[&str]) -> Vec<String> {
    words.iter().map(|w| String::from(*w)).collect()
}

#[test]
fn empty_file_counts() {
    let r = collect_statistics("");
    assert_eq!(
        r,
        FileStatistics { byte_count: 0, line_count: 0, word_count: 0, char_count: 0 }
    );
}

#[test]
fn hello_world_counts() {
    let r = collect_statistics("hello world\n");
    assert_eq!(r.line_count, 1);
    assert_eq!(r.word_count, 2);
    assert_eq!(r.byte_count, 12);
    assert_eq!(r.char_count, 12);
}

#[test]
fn unterminated_final_line_counts() {
    let r = collect_statistics("a\nb");
    assert_eq!(r.line_count, 2);
    assert_eq!(r.byte_count, 3);
    assert_eq!(r.word_count, 2);
    assert_eq!(r.char_count, 3);
}

#[test]
fn whitespace_runs_collapse() {
    let r = collect_statistics("  a   b  ");
    assert_eq!(r.word_count, 2);
}

#[test]
fn tabs_separate_words() {
    let r = collect_statistics("\ta\t\tb\t");
    assert_eq!(r.word_count, 2);
}

#[test]
fn whitespace_only_line() {
    let r = collect_statistics("   \n");
    assert_eq!(r.line_count, 1);
    assert_eq!(r.word_count, 0);
    assert_eq!(r.byte_count, 4);
    assert_eq!(r.char_count, 4);
}

#[test]
fn multibyte_characters_counted_once() {
    let r = collect_statistics("h\u{e9}llo\n");
    assert_eq!(r.line_count, 1);
    assert_eq!(r.word_count, 1);
    assert_eq!(r.char_count, 6);
    assert_eq!(r.byte_count, 7);
}

#[test]
fn carriage_returns_and_newlines() {
    let r = collect_statistics("a\r\nb\r\n");
    assert_eq!(r.line_count, 2);
    assert_eq!(r.word_count, 2);
    assert_eq!(r.byte_count, 6);
    assert_eq!(r.char_count, 6);
}

#[test]
fn collector_is_idempotent() {
    let text = "one two three\nfour\n";
    let first = collect_statistics(text);
    let second = collect_statistics(text);
    assert_eq!(first, second);
}

#[test]
fn default_selection_render() {
    let sel = derive_selection(&args_of(&["wc", "x.txt"]));
    let data = FileStatistics { byte_count: 55, line_count: 3, word_count: 10, char_count: 50 };
    assert_eq!(format_output(data, sel), "3 10 55 x.txt");
}

#[test]
fn chars_only_render() {
    let sel = derive_selection(&args_of(&["wc", "-m", "x.txt"]));
    let data = FileStatistics { byte_count: 55, line_count: 3, word_count: 10, char_count: 50 };
    assert_eq!(format_output(data, sel), "50 x.txt");
}

#[test]
fn explicit_flag_suppresses_defaults() {
    let sel = derive_selection(&args_of(&["wc", "-w", "x.txt"]));
    let data = FileStatistics { byte_count: 55, line_count: 3, word_count: 10, char_count: 50 };
    assert_eq!(format_output(data, sel), "10 x.txt");
}

#[test]
fn render_order_is_fixed() {
    let sel = derive_selection(&args_of(&["wc", "-c", "-l", "x.txt"]));
    let data = FileStatistics { byte_count: 55, line_count: 3, word_count: 10, char_count: 50 };
    assert_eq!(format_output(data, sel), "3 55 x.txt");
}

#[test]
fn repeated_flags_count_once() {
    let sel = derive_selection(&args_of(&["wc", "-l", "-l", "x.txt"]));
    let data = FileStatistics { byte_count: 55, line_count: 3, word_count: 10, char_count: 50 };
    assert_eq!(format_output(data, sel), "3 x.txt");
}

#[test]
fn unrecognized_flag_is_ignored() {
    let sel = derive_selection(&args_of(&["wc", "-z", "x.txt"]));
    let data = FileStatistics { byte_count: 55, line_count: 3, word_count: 10, char_count: 50 };
    assert_eq!(format_output(data, sel), "3 10 55 x.txt");
}

#[test]
fn last_argument_is_the_file_name() {
    let sel = derive_selection(&args_of(&["wc", "x.txt", "-l"]));
    assert_eq!(sel.target_file_name, "-l");
    let data = FileStatistics { byte_count: 55, line_count: 3, word_count: 10, char_count: 50 };
    assert_eq!(format_output(data, sel), "3 -l");
}

#[test]
fn raw_scan_before_default_substitution() {
    let raw = scan_selection(&args_of(&["wc", "x.txt"]));
    assert!(!raw.show_lines && !raw.show_words && !raw.show_bytes && !raw.show_chars);
    assert_eq!(raw.target_file_name, "x.txt");
    let sel = apply_default_selection(raw);
    assert!(sel.show_lines && sel.show_words && sel.show_bytes && !sel.show_chars);
    assert_eq!(sel.target_file_name, "x.txt");
}

#[test]
fn explicit_selection_kept_by_default_substitution() {
    let raw = scan_selection(&args_of(&["wc", "-m", "x.txt"]));
    let sel = apply_default_selection(raw);
    assert!(!sel.show_lines && !sel.show_words && !sel.show_bytes && sel.show_chars);
}

#[test]
fn zero_counts_render() {
    let sel = derive_selection(&args_of(&["wc", "empty.txt"]));
    let data = FileStatistics { byte_count: 0, line_count: 0, word_count: 0, char_count: 0 };
    assert_eq!(format_output(data, sel), "0 0 0 empty.txt");
}

#[test]
fn large_counts_render() {
    let sel = OutputSelection {
        show_bytes: true,
        show_lines: false,
        show_words: false,
        show_chars: false,
        target_file_name: String::from("test.txt"),
    };
    let data = FileStatistics { byte_count: 342190, line_count: 7, word_count: 9, char_count: 11 };
    assert_eq!(format_output(data, sel), "342190 test.txt");
}
