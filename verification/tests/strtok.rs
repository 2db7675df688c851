use channels::strtok::find_char;
use channels::strtok::strtok;

#[test]
#[allow(non_snake_case)]
fn case_Default() {
    let mut x = "hello world";

    let beforeDelimiter = strtok(&mut x, ' ');
    assert_eq!(beforeDelimiter, "hello");
}

#[test]
fn without_the_delimiter_the_whole_text_is_the_token() {
    let mut x = "hello";

    let token = strtok(&mut x, ' ');
    assert_eq!(token, "hello");
}

#[test]
fn a_leading_delimiter_gives_an_empty_token() {
    let mut x = " trailing";

    let token = strtok(&mut x, ' ');
    assert_eq!(token, "");
}

#[test]
fn find_char_reports_the_first_occurrence() {
    assert_eq!(Some(2), find_char("abcbc", 'c'));
    assert_eq!(None, find_char("abcbc", 'z'));
    assert_eq!(None, find_char("", 'z'));
}
