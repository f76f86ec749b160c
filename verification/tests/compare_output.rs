use normal_oj::compare::compare_output;
use normal_oj::compare::normalized_lines;

#[test]
fn test_compare_output() {
    let test_case = [
        // exactly the same
        ("aaa\nbbb\n", "aaa\nbbb\n", true),
        // trailing space before new line
        ("aaa  \nbbb\n", "aaa\nbbb\n", true),
        // redundant new line at the end
        ("aaa\nbbb\n\n", "aaa\nbbb\n", true),
        // redundant new line in the middle
        ("aaa\n\nbbb\n", "aaa\nbbb\n", false),
        // trailing space at the start
        ("aaa\n bbb", "aaa\nbbb\n", false),
        // empty string
        ("", "", true),
        // only new line
        ("\n\n\n\n", "", true),
        // empty character
        ("\t\r\n", "", true),
        // crlf
        ("crlf\r\n", "crlf\n", true),
    ];

    for (a, b, result) in test_case {
        assert!(compare_output(a, b) == result);
    }
}

#[test]
fn compare_is_reflexive_on_samples() {
    for x in ["", "a", "a\nb", " leading", "mixed \t\r\n\nlines\n\n"] {
        assert!(compare_output(x, x));
    }
}

#[test]
fn compare_ignores_trailing_whitespace_suffix() {
    assert!(compare_output("out", "out \t"));
    assert!(compare_output("out", "out\n\n\t\n"));
    assert!(compare_output("a\nb", "a\nb\r\n"));
}

#[test]
fn compare_rejects_leading_and_interior_changes() {
    assert!(!compare_output("a\nb", " a\nb"));
    assert!(!compare_output("a\nb", "a\n\nb"));
    assert!(!compare_output("ab", "a b"));
}

#[test]
fn compare_handles_unicode_whitespace() {
    // U+00A0 (no-break space) counts as trailing whitespace.
    assert!(compare_output("x\u{a0}\n", "x\n"));
    // but not in the middle of a line
    assert!(!compare_output("x\u{a0}y\n", "xy\n"));
}

#[test]
fn normalized_lines_drops_what_comparison_ignores() {
    let n = normalized_lines("a \nb\t\n\n\n");
    assert_eq!(n.len(), 2);
    assert_eq!(n[0], vec!['a']);
    assert_eq!(n[1], vec!['b']);

    let empty = normalized_lines("\n\n");
    assert_eq!(empty.len(), 0);
}
