use lang_lessons::conversion::Circle;
use lang_lessons::conversion::EvenNumber;
use lang_lessons::conversion::Number;
use lang_lessons::conversion::format_i32;
use lang_lessons::conversion::format_u64;
use lang_lessons::custom_types::ColourName;
use lang_lessons::custom_types::PairTuple;
use lang_lessons::custom_types::Point;
use lang_lessons::custom_types::THRESHOLD;
use lang_lessons::custom_types::Unit;
use lang_lessons::custom_types::WebEvent;
use lang_lessons::custom_types::build_add;
use lang_lessons::custom_types::inspect;
use lang_lessons::custom_types::over_threshold;
use lang_lessons::custom_types::pair_components;
use lang_lessons::custom_types::point_components;
use lang_lessons::custom_types::point_with_x;
use lang_lessons::error_handling::DoubleError;
use lang_lessons::error_handling::increase_matched;
use lang_lessons::error_handling::increase_ok_matched;
use lang_lessons::error_handling::increase_ok_propagated;
use lang_lessons::error_handling::increase_propagated;
use lang_lessons::error_handling::to_result;

#[test]
fn unit_structs_compare_equal() {
    assert_eq!(Unit, Unit);
}

#[test]
fn tuple_and_field_structs_destructure() {
    assert_eq!(pair_components(PairTuple(1, 2)), (1, 2));
    let point = Point { x: 1, y: 2 };
    let point2 = point_with_x(point, 7);
    assert_eq!(point2.x, 7);
    assert_eq!(point2.y, 2);
    assert_eq!(point_components(point), (1, 2));
}

#[test]
fn events_are_inspected_exhaustively() {
    assert_eq!(inspect(&WebEvent::PageLoad), "page loaded");
    assert_eq!(inspect(&WebEvent::PageUnload), "page unloaded");
    assert_eq!(inspect(&WebEvent::KeyPress('k')), "key k pressed");
    assert_eq!(inspect(&WebEvent::Paste(String::from("text"))), "pasted string text");
    assert_eq!(inspect(&WebEvent::Click { x: 32, y: 4 }), "Clicked at (32, 4)");
    assert_eq!(inspect(&WebEvent::Click { x: -5, y: 0 }), "Clicked at (-5, 0)");
}

#[test]
fn aliases_and_codes_and_constants() {
    assert_eq!(build_add(), build_add());
    assert_eq!(ColourName::Red.code(), 0xff0000);
    assert_eq!(ColourName::Green.code(), 0x00ff00);
    assert_eq!(ColourName::Blue.code(), 0x0000ff);
    assert_eq!(THRESHOLD, 42);
    assert!(over_threshold(43));
    assert!(!over_threshold(42));
}

#[test]
fn from_and_into_wrap_unchanged() {
    assert_eq!(Number { value: 42 }.value, Number::from(42).value);
    let to: Number = 42.into();
    assert_eq!(to.value, 42);
}

#[test]
fn try_from_accepts_exactly_the_even() {
    assert_eq!(EvenNumber::try_from(42), Ok(EvenNumber(42)));
    assert_eq!(EvenNumber::try_from(43), Err(()));
    assert_eq!(EvenNumber::try_from(-4), Ok(EvenNumber(-4)));
}

#[test]
fn rendering_numbers_and_circles() {
    assert_eq!(Circle { radius: 42 }.describe(), "Circle of radius 42");
    assert_eq!(Circle { radius: -3 }.describe(), "Circle of radius -3");
    assert_eq!(format_u64(0), "0");
    assert_eq!(format_u64(18446744073709551615), "18446744073709551615");
    assert_eq!(format_i32(-2147483648), "-2147483648");
    assert_eq!(format_i32(100), "100");
}

#[test]
fn option_increase_preserves_absence() {
    assert_eq!(increase_matched(Some(42)), Some(43));
    assert_eq!(increase_matched(None), None);
    assert_eq!(increase_propagated(Some(42)), Some(43));
    assert_eq!(increase_propagated(None), None);
}

#[test]
fn result_increase_passes_errors_along() {
    assert_eq!(increase_ok_matched(Ok(42)), Ok(43));
    assert_eq!(increase_ok_matched(Err(DoubleError)), Err(DoubleError));
    assert_eq!(increase_ok_propagated(Ok(42)), Ok(43));
    assert_eq!(increase_ok_propagated(Err(DoubleError)), Err(DoubleError));
    assert_eq!(DoubleError.message(), "invalid first item to double");
}

#[test]
fn absence_becomes_a_unit_error() {
    assert_eq!(to_result(Some(32)), Ok(32));
    assert_eq!(to_result(None), Err(DoubleError));
}
