use scanner::SourceIterator;

#[test]
fn test_empty() {
    let mut source = SourceIterator::new("".chars());
    assert_eq!(source.peek(), None);
    assert_eq!(source.next(), None);
}

#[test]
fn source_iterator_test_single_char() {
    let mut source = SourceIterator::new("A".chars());
    assert_eq!(source.peek(), Some(&'A'));
    assert_eq!(source.next(), Some('A'));
    assert_eq!(source.peek(), None);
    assert_eq!(source.next(), None);
}

#[test]
fn test_two_chars() {
    let mut source = SourceIterator::new("AB".chars());
    assert_eq!(source.peek(), Some(&'A'));
    assert_eq!(source.next(), Some('A'));
    assert_eq!(source.peek(), Some(&'B'));
    assert_eq!(source.next(), Some('B'));
    assert_eq!(source.peek(), None);
    assert_eq!(source.next(), None);
}

#[test]
fn peek_is_repeatable_and_consumes_nothing() {
    let mut source = SourceIterator::new("xy".chars());
    assert_eq!(source.peek(), Some(&'x'));
    assert_eq!(source.peek(), Some(&'x'));
    assert_eq!(source.peek_ahead(), Some(&'y'));
    assert_eq!(source.peek(), Some(&'x'));
    assert_eq!(source.next(), Some('x'));
    assert_eq!(source.next(), Some('y'));
}

#[test]
fn peek_ahead_looks_one_past_the_next() {
    let mut source = SourceIterator::new("abc".chars());
    assert_eq!(source.peek_ahead(), Some(&'b'));
    assert_eq!(source.next(), Some('a'));
    assert_eq!(source.peek_ahead(), Some(&'c'));
    assert_eq!(source.next(), Some('b'));
    assert_eq!(source.peek_ahead(), None);
    assert_eq!(source.peek(), Some(&'c'));
    assert_eq!(source.next(), Some('c'));
    assert_eq!(source.peek_ahead(), None);
    assert_eq!(source.peek(), None);
}

#[test]
fn peek_ahead_on_short_input() {
    let mut empty = SourceIterator::new("".chars());
    assert_eq!(empty.peek_ahead(), None);
    assert_eq!(empty.next(), None);
    let mut one = SourceIterator::new("z".chars());
    assert_eq!(one.peek_ahead(), None);
    assert_eq!(one.next(), Some('z'));
    assert_eq!(one.next(), None);
}

#[test]
fn next_stays_exhausted() {
    let mut source = SourceIterator::new("q".chars());
    assert_eq!(source.next(), Some('q'));
    for _ in 0..5 {
        assert_eq!(source.next(), None);
        assert_eq!(source.peek(), None);
    }
}

#[test]
fn next_if_matches_consumes_only_on_a_match() {
    let mut source = SourceIterator::new("=!".chars());
    assert!(!source.next_if_matches('!'));
    assert_eq!(source.peek(), Some(&'='));
    assert!(source.next_if_matches('='));
    assert_eq!(source.peek(), Some(&'!'));
    assert!(!source.next_if_matches('='));
    assert!(source.next_if_matches('!'));
    assert!(!source.next_if_matches('!'));
    assert_eq!(source.next(), None);
}

#[test]
fn next_skipping_blank_returns_the_first_visible_character() {
    let mut source = SourceIterator::new(" \t\r\n x y".chars());
    assert_eq!(source.next_skipping_blank(), Some('x'));
    assert_eq!(source.current_line(), 1);
    assert_eq!(source.peek(), Some(&' '));
    assert_eq!(source.next_skipping_blank(), Some('y'));
    assert_eq!(source.next_skipping_blank(), None);
    assert_eq!(source.next_skipping_blank(), None);
    assert_eq!(source.current_line(), 1);
}

#[test]
fn next_skipping_blank_on_blanks_alone() {
    let mut source = SourceIterator::new("\n \n\t\n".chars());
    assert_eq!(source.next_skipping_blank(), None);
    assert_eq!(source.current_line(), 3);
    assert_eq!(source.next(), None);
}

#[test]
fn every_newline_is_counted_once() {
    let mut source = SourceIterator::new("a\nb\n\nc".chars());
    assert_eq!(source.current_line(), 0);
    assert_eq!(source.next(), Some('a'));
    assert_eq!(source.current_line(), 0);
    assert_eq!(source.peek(), Some(&'\n'));
    assert_eq!(source.current_line(), 0);
    assert_eq!(source.next(), Some('\n'));
    assert_eq!(source.current_line(), 1);
    assert_eq!(source.next(), Some('b'));
    assert!(source.next_if_matches('\n'));
    assert_eq!(source.current_line(), 2);
    assert_eq!(source.next_skipping_blank(), Some('c'));
    assert_eq!(source.current_line(), 3);
    assert_eq!(source.next(), None);
    assert_eq!(source.current_line(), 3);
}

#[test]
fn a_cursor_starts_where_its_source_stands() {
    let mut chars = "skip+".chars();
    chars.next();
    chars.next();
    let mut source = SourceIterator::new(chars);
    assert_eq!(source.peek(), Some(&'i'));
    assert_eq!(source.peek_ahead(), Some(&'p'));
    assert_eq!(source.current_line(), 0);
}
