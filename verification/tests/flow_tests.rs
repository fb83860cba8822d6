use lang_lessons::flow_of_control::Colour;
use lang_lessons::flow_of_control::ColourLabel;
use lang_lessons::flow_of_control::Foo;
use lang_lessons::flow_of_control::FooCase;
use lang_lessons::flow_of_control::NumberKind;
use lang_lessons::flow_of_control::PairLabel;
use lang_lessons::flow_of_control::capped_count;
use lang_lessons::flow_of_control::classify_colour;
use lang_lessons::flow_of_control::classify_foo;
use lang_lessons::flow_of_control::classify_pair;
use lang_lessons::flow_of_control::collect_borrowed;
use lang_lessons::flow_of_control::collect_owned;
use lang_lessons::flow_of_control::count_until;
use lang_lessons::flow_of_control::describe_number;
use lang_lessons::flow_of_control::if_let_irrefutable;
use lang_lessons::flow_of_control::if_let_ladder;
use lang_lessons::flow_of_control::Solo;
use lang_lessons::flow_of_control::increment_in_match;
use lang_lessons::flow_of_control::loop_with_breaks;
use lang_lessons::flow_of_control::read_through_ref;
use lang_lessons::flow_of_control::scale_by_magnitude;
use lang_lessons::flow_of_control::sum_exclusive;
use lang_lessons::flow_of_control::sum_inclusive;
use lang_lessons::flow_of_control::while_with_break;
use lang_lessons::primitives::reverse;

#[test]
fn loops_return_their_breaks() {
    assert_eq!(loop_with_breaks(), (11, 42));
    assert_eq!(while_with_break(), 3);
}

#[test]
fn if_else_scales_by_magnitude() {
    assert_eq!(scale_by_magnitude(4), 8);
    assert_eq!(scale_by_magnitude(15), 45);
    assert_eq!(scale_by_magnitude(20), 80);
    assert_eq!(scale_by_magnitude(-4), -8);
}

#[test]
fn range_sums_agree_with_the_lesson() {
    assert_eq!(sum_exclusive(10), 45);
    assert_eq!(sum_inclusive(9), 45);
    assert_eq!(sum_inclusive(0), 0);
    assert_eq!(sum_exclusive(0), 0);
}

#[test]
fn counting_stops_at_the_cap() {
    assert_eq!(capped_count(99, 10), 10);
    assert_eq!(capped_count(5, 10), 5);
    assert_eq!(capped_count(0, 10), 0);
}

#[test]
fn iterating_copies_elements_borrowed_or_owned() {
    let names: Vec<u64> = vec![7, 8, 9];
    let copied = collect_borrowed(&names);
    assert_eq!(copied, names);
    let moved = collect_owned(names);
    assert_eq!(moved, vec![7, 8, 9]);
}

#[test]
fn the_layered_match_selects_the_even_teen_arm() {
    assert_eq!(describe_number(42), NumberKind::EvenTeen(42));
    assert_eq!(describe_number(1), NumberKind::One);
    assert_eq!(describe_number(3), NumberKind::SmallAlternative);
    assert_eq!(describe_number(10), NumberKind::MidRange);
    assert_eq!(describe_number(11), NumberKind::OddTeen(11));
    assert_eq!(describe_number(43), NumberKind::Unmatched);
    assert_eq!(describe_number(0), NumberKind::Unmatched);
}

#[test]
fn tuple_destructuring_picks_the_alternation_arm() {
    assert_eq!(classify_pair((2, false)), PairLabel::SmallClear);
    assert_eq!(classify_pair((3, false)), PairLabel::SmallClear);
    assert_eq!(classify_pair((2, true)), PairLabel::TwoSet);
    assert_eq!(classify_pair((9, true)), PairLabel::AnySet);
    assert_eq!(classify_pair((9, false)), PairLabel::Leftover);
}

#[test]
fn struct_destructuring_binds_fields() {
    assert_eq!(classify_foo(&Foo { x: (1, 2), y: 3 }), FooCase::StartsWithOne(2, 3));
    assert_eq!(classify_foo(&Foo { x: (3, 4), y: 2 }), FooCase::YIsTwo(3, 4));
    assert_eq!(classify_foo(&Foo { x: (2, 9), y: 9 }), FooCase::StartsWithTwo);
    assert_eq!(classify_foo(&Foo { x: (9, 9), y: 9 }), FooCase::AnythingElse);
}

#[test]
fn enum_destructuring_reads_channels() {
    assert_eq!(classify_colour(&Colour::Rgb(1, 2, 3)), ColourLabel::Channels(1, 2, 3));
    assert_eq!(classify_colour(&Colour::Red), ColourLabel::Named(true));
    assert_eq!(classify_colour(&Colour::Blue), ColourLabel::Named(false));
}

#[test]
fn if_let_and_while_let() {
    assert_eq!(if_let_ladder(Some(42), false), 0);
    assert_eq!(if_let_ladder(None, true), 1);
    assert_eq!(if_let_ladder(None, false), 2);
    assert_eq!(count_until(42), 42);
    assert_eq!(count_until(0), 0);
    let (bound, matched) = if_let_irrefutable(Solo::Bar);
    assert!(matched);
    assert!(matches!(bound, Solo::Bar));
}

#[test]
fn matching_through_references() {
    assert_eq!(read_through_ref(&4), 4);
    assert_eq!(increment_in_match(42), 43);
}

#[test]
fn tuples_reverse_by_destructuring() {
    assert_eq!(reverse((42, true)), (true, 42));
}
