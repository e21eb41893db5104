use simpleio::Chars;
use simpleio::Lines;
use simpleio::MemSource;
use simpleio::SimpleIO;

#[test]
fn chars_first_and_get_reach_every_position() {
    let c = Chars::from(vec!['x', 'y', 'z']);
    assert_eq!(c.first(), Some('x'));
    assert_eq!(c.get(0), Some('x'));
    assert_eq!(c.get(2), Some('z'));
    assert_eq!(c.get(3), None);
}

#[test]
fn chars_iteration_skips_the_first_element() {
    let mut c = Chars::from(vec!['x', 'y', 'z']);
    assert_eq!(c.next(), Some('y'));
    assert_eq!(c.next(), Some('z'));
    assert_eq!(c.next(), None);
    assert_eq!(c.next(), None);
    assert_eq!(c.next(), None);
}

#[test]
fn chars_single_element_yields_nothing_on_iteration() {
    let mut c = Chars::from(vec!['x']);
    assert_eq!(c.first(), Some('x'));
    assert_eq!(c.next(), None);
}

#[test]
fn chars_empty() {
    let mut c = Chars::from(Vec::new());
    assert_eq!(c.first(), None);
    assert_eq!(c.get(0), None);
    assert_eq!(c.next(), None);
}

#[test]
fn lines_first_and_get_reach_every_position() {
    let l = Lines::from(vec![
        String::from("one"),
        String::from("two"),
        String::from("three"),
    ]);
    assert_eq!(l.first(), Some(String::from("one")));
    assert_eq!(l.get(2), Some(String::from("three")));
    assert_eq!(l.get(3), None);
}

#[test]
fn lines_iteration_skips_the_first_element() {
    let mut l = Lines::from(vec![
        String::from("one"),
        String::from("two"),
        String::from("three"),
    ]);
    assert_eq!(l.next(), Some(String::from("two")));
    assert_eq!(l.next(), Some(String::from("three")));
    assert_eq!(l.next(), None);
    assert_eq!(l.next(), None);
}

#[test]
fn lines_lookup_returns_copies() {
    let l = Lines::from(vec![String::from("keep")]);
    let a = l.first().unwrap();
    let b = l.first().unwrap();
    assert_eq!(a, b);
    assert_eq!(l.get(0), Some(String::from("keep")));
}

#[test]
fn read_lines_feeds_the_lines_wrapper() {
    let mut src = MemSource::new(b"alpha\nbeta\ngamma\n".to_vec());
    let mut l = Lines::from(src.read_lines().unwrap());
    assert_eq!(l.first(), Some(String::from("alpha")));
    assert_eq!(l.next(), Some(String::from("beta")));
    assert_eq!(l.next(), Some(String::from("gamma")));
    assert_eq!(l.next(), None);
}

#[test]
fn read_chars_feeds_the_chars_wrapper() {
    let mut src = MemSource::new(b"ab".to_vec());
    let mut c = Chars::from(src.read_chars().unwrap());
    assert_eq!(c.first(), Some('a'));
    assert_eq!(c.next(), Some('b'));
    assert_eq!(c.next(), None);
}

#[test]
fn string_chars_matches_the_text() {
    assert_eq!(simpleio::string_chars("ab\u{e9}"), vec!['a', 'b', '\u{e9}']);
    assert_eq!(simpleio::string_chars(""), Vec::<char>::new());
}

#[test]
fn split_lines_matches_read_lines() {
    assert_eq!(
        simpleio::split_lines("hi\r\nbye\n"),
        vec![String::from("hi"), String::from("bye")]
    );
    assert_eq!(simpleio::split_lines(""), Vec::<String>::new());
}
