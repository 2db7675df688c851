use channels::strsplit::Delimeter;
use channels::strsplit::StrSplit;

#[test]
fn splits_on_every_occurrence() {
    let mut split = StrSplit::new("a b c", " ");

    assert_eq!(Some("a"), split.next());
    assert_eq!(Some("b"), split.next());
    assert_eq!(Some("c"), split.next());
    assert_eq!(None, split.next());
}

#[test]
fn a_trailing_delimiter_yields_an_empty_piece() {
    let mut split = StrSplit::new("a ", " ");

    assert_eq!(Some("a"), split.next());
    assert_eq!(Some(""), split.next());
    assert_eq!(None, split.next());
}

#[test]
fn without_an_occurrence_the_whole_text_is_one_piece() {
    let mut split = StrSplit::new("abc", "x");

    assert_eq!(Some("abc"), split.next());
    assert_eq!(None, split.next());
}

#[test]
fn a_multi_character_delimiter_is_matched_whole() {
    let mut split = StrSplit::new("one::two::three", "::");

    assert_eq!(Some("one"), split.next());
    assert_eq!(Some("two"), split.next());
    assert_eq!(Some("three"), split.next());
    assert_eq!(None, split.next());
}

#[test]
fn find_next_reports_the_first_occurrence() {
    assert_eq!(Some((1, 2)), "b".find_next("abab"));
    assert_eq!(None, "z".find_next("abab"));
}
