use sub_lib::index_of;
use sub_lib::index_of_from;

#[test]
fn index_of_fails_to_find_nonexistent_needle_in_haystack() {
    let result = index_of("haystack".as_bytes(), "needle".as_bytes());

    assert_eq!(result, None);
}

#[test]
fn index_of_finds_needle_at_beginning_of_haystack() {
    let result = index_of("haystack haystack".as_bytes(), "haystack".as_bytes());

    assert_eq!(result, Some(0));
}

#[test]
fn index_of_finds_needle_at_end_of_haystack() {
    let result = index_of("needle haystack".as_bytes(), "haystack".as_bytes());

    assert_eq!(result, Some(7));
}

#[test]
fn index_of_fails_to_find_nonempty_needle_in_empty_haystack() {
    let result = index_of("".as_bytes(), "needle".as_bytes());

    assert_eq!(result, None);
}

#[test]
fn index_of_fails_to_find_needle_that_ends_past_end_of_haystack() {
    let result = index_of("haystack needl".as_bytes(), "needle".as_bytes());

    assert_eq!(result, None);
}

#[test]
fn index_of_from_fails_to_find_nonexistent_needle_in_haystack() {
    let haystack = vec![true, true, true, true];

    let result = index_of_from(&haystack, &false, 0);

    assert_eq!(result, None);
}

#[test]
fn index_of_from_fails_to_find_needle_in_empty_haystack() {
    let haystack: Vec<i32> = vec![];

    let result = index_of_from(&haystack, &-42, 0);

    assert_eq!(result, None);
}

#[test]
fn index_of_from_finds_needle_at_beginning_of_search() {
    let haystack = vec![8, 7, 8, 3];

    let result = index_of_from(&haystack, &8, 2);

    assert_eq!(result, Some(2));
}

#[test]
fn index_of_from_finds_needle_at_end_of_haystack() {
    let haystack = vec![8, 7, 8, 3];

    let result = index_of_from(&haystack, &3, 0);

    assert_eq!(result, Some(3));
}

#[test]
fn index_of_from_fails_when_start_is_past_the_end() {
    let haystack = vec![8, 7, 8, 3];

    assert_eq!(index_of_from(&haystack, &8, 4), None);
    assert_eq!(index_of_from(&haystack, &8, 100), None);
}

#[test]
fn index_of_finds_first_of_several_occurrences() {
    let haystack = vec![1u8, 2, 3, 2, 3];

    let result = index_of(&haystack, &[2u8, 3u8]);

    assert_eq!(result, Some(1));
}

#[test]
fn index_of_fails_when_haystack_is_shorter_than_needle() {
    let result = index_of("abc".as_bytes(), "abcd".as_bytes());

    assert_eq!(result, None);
}
