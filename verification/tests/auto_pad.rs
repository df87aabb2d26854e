use youran::auto_pad_str::{Alignment, AsAutoPadStr, FormatSpec};
use youran::width::{rendered_width, rendered_width_of_char};

fn spec(
    minimum_width: Option<usize>,
    fill_char: char,
    alignment: Option<Alignment>,
    precision: Option<usize>,
) -> FormatSpec {
    FormatSpec { minimum_width, fill_char, alignment, precision }
}

#[test]
fn string_length_in_terminal() {
    let s1 = "hello 😊😊";
    let s2 = "hello word";

    println!("{:<1$}|", s1, s1.len());
    println!("{:<1$}|", s2, s1.len());

    let w1 = s1.as_auto_pad_str().rendered_len();
    let w2 = s2.as_auto_pad_str().rendered_len();
    let fs1 = spec(Some(w1), ' ', Some(Alignment::Left), None);
    let fs2 = spec(Some(w2), ' ', Some(Alignment::Left), None);
    println!("{}|", s1.as_auto_pad_str().format(&fs1));
    println!("{}|", s2.as_auto_pad_str().format(&fs2));
}

#[test]
fn rendered_width_ascii() {
    assert_eq!(rendered_width("hello"), 5);
    assert_eq!("hello".as_auto_pad_str().rendered_len(), 5);
    assert_eq!(rendered_width(""), 0);
}

#[test]
fn rendered_width_emoji() {
    assert_eq!(rendered_width("hello 😊😊"), 10);
    assert_eq!(rendered_width_of_char('😊'), 2);
}

#[test]
fn rendered_width_zero_width() {
    assert_eq!(rendered_width_of_char('\u{0301}'), 0);
    assert_eq!(rendered_width("a\u{0301}"), 1);
    assert_eq!(rendered_width_of_char('\u{7}'), 0);
    assert_eq!(rendered_width_of_char('~'), 1);
    assert_eq!(rendered_width_of_char(' '), 1);
}

#[test]
fn format_left() {
    let fs = spec(Some(5), ' ', Some(Alignment::Left), None);
    assert_eq!("ab".as_auto_pad_str().format(&fs), "ab   ");
}

#[test]
fn format_right() {
    let fs = spec(Some(5), '*', Some(Alignment::Right), None);
    assert_eq!("ab".as_auto_pad_str().format(&fs), "***ab");
}

#[test]
fn format_center() {
    let fs = spec(Some(5), '-', Some(Alignment::Center), None);
    assert_eq!("ab".as_auto_pad_str().format(&fs), "-ab--");
}

#[test]
fn format_already_at_width() {
    let fs = spec(Some(5), ' ', Some(Alignment::Left), None);
    assert_eq!("abcde".as_auto_pad_str().format(&fs), "abcde");
}

#[test]
fn format_no_alignment_is_unpadded() {
    let fs = spec(Some(5), ' ', None, None);
    assert_eq!("ab".as_auto_pad_str().format(&fs), "ab");
}

#[test]
fn format_precision_only() {
    let fs = spec(None, ' ', None, Some(3));
    assert_eq!("hello".as_auto_pad_str().format(&fs), "hel");
}

#[test]
fn format_precision_never_splits_wide_char() {
    let fs = spec(None, ' ', None, Some(1));
    assert_eq!("😊a".as_auto_pad_str().format(&fs), "");
    let fs3 = spec(None, ' ', None, Some(3));
    assert_eq!("a😊b".as_auto_pad_str().format(&fs3), "a😊");
}

#[test]
fn format_precision_keeps_zero_width_tail() {
    let fs = spec(None, ' ', None, Some(1));
    assert_eq!("a\u{0301}".as_auto_pad_str().format(&fs), "a\u{0301}");
}

#[test]
fn format_precision_then_padding() {
    let fs = spec(Some(10), '.', Some(Alignment::Left), Some(7));
    assert_eq!("hello 😊😊".as_auto_pad_str().format(&fs), "hello ....");
}

#[test]
fn format_idempotent_on_own_width() {
    let fs = spec(Some(5), ' ', Some(Alignment::Left), None);
    let once = "ab".as_auto_pad_str().format(&fs);
    assert_eq!(once.as_auto_pad_str().rendered_len(), 5);
    let twice = once.as_auto_pad_str().format(&fs);
    assert_eq!(twice, once);
}

#[test]
fn truncation_bounded_and_prefix() {
    for precision in 0..12 {
        for text in ["hello 😊😊", "abc", "", "ｗｉｄｅ", "a\u{0301}bc"] {
            let fs = spec(None, ' ', None, Some(precision));
            let cut = text.as_auto_pad_str().format(&fs);
            assert!(cut.as_auto_pad_str().rendered_len() <= precision);
            assert!(text.starts_with(&cut));
        }
    }
}

#[test]
fn default_spec_changes_nothing() {
    let fs = FormatSpec::default();
    assert_eq!("hello 😊😊".as_auto_pad_str().format(&fs), "hello 😊😊");
}
