use simple_calculator::util::{find_even, longest};

#[test]
fn test_find_even() {
    assert_eq!(find_even(&[1, 2, 5, 7]), Some(2));
    assert_eq!(find_even(&[1, 3, 5, 7]), None);
    // the first even element wins
    assert_eq!(find_even(&[9, 4, 6]), Some(4));
    assert_eq!(find_even(&[-2, 3]), Some(-2));
    assert_eq!(find_even(&[]), None);
}

#[test]
fn test_longest() {
    assert_eq!(longest("hi", "hello"), "hello");
    assert_eq!(longest("longer", "short"), "longer");
    // ties go to the second argument
    assert_eq!(longest("abc", "xyz"), "xyz");
}

#[test]
fn test_longest_measures_bytes() {
    // two two-byte characters outweigh three one-byte ones
    let x = "\u{e9}\u{e9}";
    assert_eq!(x.len(), 4);
    assert_eq!(x.chars().count(), 2);
    assert_eq!(longest(x, "abc"), x);
    assert_eq!(longest("abc", x), x);
}
