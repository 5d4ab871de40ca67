use abi_cafe::fivemat::Fivemat;
use abi_cafe::text::{push_decimal, push_padded_left, push_padded_right, push_repeated, str_eq};

#[test]
fn text_at_depth_zero_is_written_as_it_is() {
    let mut f = Fivemat::new("    ");
    f.write_str("a\nb\n\nc");
    assert_eq!(f.as_str(), "a\nb\n\nc");
    assert_eq!(f.indent(), 0);
    assert_eq!(f.into_string(), "a\nb\n\nc");
}

#[test]
fn each_line_starts_with_the_indentation() {
    let mut f = Fivemat::new("  ");
    f.add_indent(1);
    f.write_str("a\nb");
    f.add_indent(2);
    // the line was started at the old depth
    f.write_str("c\nd\n");
    f.sub_indent(3);
    f.write_str("e\n");
    assert_eq!(f.as_str(), "  a\n  bc\n      d\ne\n");
}

#[test]
fn empty_lines_are_not_indented() {
    let mut f = Fivemat::new("\t");
    f.add_indent(2);
    f.write_str("\n\na\n\n");
    f.newline();
    f.write_str("\n");
    f.write_str("b\n");
    assert_eq!(f.as_str(), "\n\n\t\ta\n\n\n\n\t\tb\n");
}

#[test]
fn writing_in_pieces_is_writing_the_whole() {
    let text = "struct {\n  int x;\n\n};\ntail";
    for depth in 0..3 {
        let mut whole = Fivemat::new("..");
        whole.add_indent(depth);
        whole.write_str(text);
        for cut in 0..=text.len() {
            let mut pieces = Fivemat::new("..");
            pieces.add_indent(depth);
            pieces.write_str(&text[..cut]);
            pieces.write_str(&text[cut..]);
            assert_eq!(pieces.as_str(), whole.as_str());
        }
        let mut chars = Fivemat::new("..");
        chars.add_indent(depth);
        for c in text.chars() {
            chars.write_char(c);
        }
        assert_eq!(chars.as_str(), whole.as_str());
    }
}

#[test]
fn the_indentation_is_written_once_for_a_line() {
    let mut f = Fivemat::new("ab");
    f.add_indent(3);
    f.ensure_indent();
    f.ensure_indent();
    f.write_str("x");
    f.ensure_indent();
    assert_eq!(f.as_str(), "abababx");
    f.newline();
    f.sub_indent(2);
    f.ensure_indent();
    assert_eq!(f.as_str(), "abababx\nab");
}

#[test]
fn characters_beyond_ascii_are_kept() {
    let mut f = Fivemat::new("→");
    f.add_indent(1);
    f.write_str("é\nü");
    assert_eq!(f.as_str(), "→é\n→ü");
}

#[test]
fn an_empty_indentation_indents_nothing() {
    let mut f = Fivemat::new("");
    f.add_indent(5);
    f.write_str("a\n");
    f.write_str("b\n");
    assert_eq!(f.as_str(), "a\nb\n");
    assert_eq!(f.indent(), 5);
}

#[test]
fn numbers_are_written_in_decimal() {
    for n in [0, 1, 9, 10, 11, 99, 100, 101, 12345, 1 << 32, u64::MAX - 1, u64::MAX] {
        let mut text = "n=".to_string();
        push_decimal(&mut text, n);
        assert_eq!(text, format!("n={n}"));
    }
    let mut text = String::new();
    push_decimal(&mut text, 1234567890);
    push_decimal(&mut text, 0);
    assert_eq!(text, "12345678900");
}

#[test]
fn padding_fills_up_to_the_width() {
    for text in ["", "a", "ab", "abc", "abcd", "é", "日本"] {
        for width in 0..6 {
            let mut right = "<".to_string();
            push_padded_right(&mut right, text, width);
            assert_eq!(right, format!("<{text:<width$}"));
            let mut left = "<".to_string();
            push_padded_left(&mut left, text, width);
            assert_eq!(left, format!("<{text:>width$}"));
        }
    }
    let mut text = String::new();
    push_padded_right(&mut text, "ab", 4);
    assert_eq!(text, "ab  ");
    push_padded_left(&mut text, "7", 3);
    assert_eq!(text, "ab    7");
}

#[test]
fn repetition_repeats() {
    let mut text = "x".to_string();
    push_repeated(&mut text, "ab", 3);
    assert_eq!(text, "xababab");
    push_repeated(&mut text, "ab", 0);
    assert_eq!(text, "xababab");
    push_repeated(&mut text, "", 9);
    assert_eq!(text, "xababab");
}

#[test]
fn strings_are_equal_letter_by_letter() {
    assert!(str_eq("", ""));
    assert!(str_eq("i128", "i128"));
    assert!(!str_eq("i128", "u128"));
    assert!(!str_eq("i128", "i1280"));
    assert!(!str_eq("c", "C"));
}
