use lang_lessons::std_library_types::IntSet;
use lang_lessons::std_library_types::hash_map_ops;
use lang_lessons::std_library_types::min_of;
use lang_lessons::std_library_types::nth_word;
use lang_lessons::std_library_types::chars_of;
use lang_lessons::std_library_types::reference_counting;
use lang_lessons::std_library_types::replace_str;
use lang_lessons::std_library_types::string_from_chars;
use lang_lessons::std_library_types::string_ops;
use lang_lessons::std_library_types::sum_vec;
use lang_lessons::std_library_types::vector_ops;

#[test]
fn vectors_push_pop_and_sum() {
    vector_ops();
    assert_eq!(sum_vec(&vec![1, 2, 3]), 6);
    assert_eq!(sum_vec(&vec![]), 0);
    assert_eq!(sum_vec(&vec![i32::MAX, i32::MAX]), 2 * (i32::MAX as i64));
    assert_eq!(sum_vec(&vec![i32::MIN, 1]), (i32::MIN as i64) + 1);
}

#[test]
fn strings_build_and_reveal() {
    string_ops();
}

#[test]
fn keyed_maps_insert_find_and_remove() {
    hash_map_ops();
}

#[test]
fn replace_rewrites_every_occurrence() {
    assert_eq!(replace_str("a cake", "cake", "baked cake"), "a baked cake");
    assert_eq!(replace_str("aaa", "aa", "b"), "ba");
    assert_eq!(replace_str("none here", "cake", "pie"), "none here");
    assert_eq!(replace_str("", "cake", "pie"), "");
    assert_eq!(replace_str("ababab", "ab", ""), "");
    assert_eq!(replace_str("aaa", "", "b"), "bababab");
    assert_eq!(replace_str("", "", "b"), "b");
}

#[test]
fn whitespace_splitting_finds_the_words() {
    assert_eq!(nth_word("some literal string", 0), Some(String::from("some")));
    assert_eq!(nth_word("some literal string", 1), Some(String::from("literal")));
    assert_eq!(nth_word("some literal string", 2), Some(String::from("string")));
    assert_eq!(nth_word("some literal string", 3), None);
    assert_eq!(nth_word("  spaced\tout\nwords  ", 1), Some(String::from("out")));
    assert_eq!(nth_word("", 0), None);
    assert_eq!(nth_word("   ", 0), None);
}

#[test]
fn chars_round_trip_through_vectors() {
    let cs = chars_of("some literal string");
    assert_eq!(cs.len(), 19);
    assert_eq!(string_from_chars(&cs), "some literal string");
}

#[test]
fn sets_deduplicate_and_combine() {
    let a = IntSet::from_vec(&vec![1, 2, 3, 3]);
    assert_eq!(a.len(), 3);
    let b = IntSet::from_vec(&vec![2, 3, 4]);

    let union = a.union(&b);
    for v in [1, 2, 3, 4] {
        assert!(union.contains(v));
    }
    assert_eq!(union.len(), 4);

    let both = a.intersection(&b);
    assert!(both.contains(2) && both.contains(3));
    assert!(!both.contains(1) && !both.contains(4));

    let only_a = a.difference(&b);
    assert!(only_a.contains(1));
    assert!(!only_a.contains(2) && !only_a.contains(3) && !only_a.contains(4));

    let either = a.symmetric_difference(&b);
    assert!(either.contains(1) && either.contains(4));
    assert!(!either.contains(2) && !either.contains(3));
}

#[test]
fn empty_set_and_repeated_insert() {
    let mut s = IntSet::new();
    assert_eq!(s.len(), 0);
    assert!(!s.contains(5));
    s.insert(5);
    s.insert(5);
    assert_eq!(s.len(), 1);
    assert!(s.contains(5));
}

#[test]
fn minimum_of_the_repetition_lesson() {
    assert_eq!(min_of(&vec![1]), Some(1));
    assert_eq!(min_of(&vec![1 + 2, 2]), Some(2));
    assert_eq!(min_of(&vec![5, 2 * 3, 4]), Some(4));
    assert_eq!(min_of(&vec![]), None);
}

#[test]
fn shared_ownership_reads_through_clones() {
    reference_counting();
}
