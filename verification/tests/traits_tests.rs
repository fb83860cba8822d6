use lang_lessons::functions::Pair;
use lang_lessons::functions::answer;
use lang_lessons::functions::closure_capture_lesson;
use lang_lessons::functions::forced_capture_with_move;
use lang_lessons::functions::functions_as_closures;
use lang_lessons::generics::Cardinal;
use lang_lessons::generics::BlueJay;
use lang_lessons::generics::Container;
use lang_lessons::generics::Contains;
use lang_lessons::generics::GenVal;
use lang_lessons::generics::Rectangle;
use lang_lessons::generics::Years;
use lang_lessons::generics::area_of;
use lang_lessons::generics::blue;
use lang_lessons::generics::difference;
use lang_lessons::generics::old_enough;
use lang_lessons::generics::phantom_type_parameters;
use lang_lessons::generics::red;
use lang_lessons::generics::wrap_in_option;
use lang_lessons::traits::Animal;
use lang_lessons::traits::BarPiece;
use lang_lessons::traits::Centimeters;
use lang_lessons::traits::ExampleStudent;
use lang_lessons::traits::Fibonacci;
use lang_lessons::traits::FooBar;
use lang_lessons::traits::FooPiece;
use lang_lessons::traits::Form;
use lang_lessons::traits::Sheep;
use lang_lessons::traits::clone_lesson;
use lang_lessons::traits::combine_vecs;
use lang_lessons::traits::compare_lengths;
use lang_lessons::traits::double_positives;
use lang_lessons::traits::greeting;
use lang_lessons::traits::nth_fibonacci;
use lang_lessons::traits::operator_overloading;
use lang_lessons::traits::adder_lesson;
use lang_lessons::traits::make_adder_function;
use lang_lessons::traits::read_form;
use lang_lessons::variable_binding::block_expressions;

#[test]
fn methods_on_every_kind_of_receiver() {
    let pair = Pair(1, 2);
    assert_eq!(pair.sum(), 3);
    pair.destroy();

    let mut pair2 = Pair(3, 4);
    pair2.inc();
    assert_eq!(pair2.sum(), 9);
    pair2.destroy();
}

#[test]
fn closures_capture_and_apply() {
    assert_eq!(closure_capture_lesson(), (15, 16));
    assert_eq!(functions_as_closures(), 42);
    assert_eq!(answer(), 42);
    assert_eq!(forced_capture_with_move(), 7);
}

#[test]
fn returned_adder_adds_its_capture() {
    assert_eq!(make_adder_function(5)(4), 9);
    assert_eq!(adder_lesson(), 9);
    assert_eq!(block_expressions(), 25);
}

#[test]
fn generic_containers_and_bounds() {
    let v = GenVal(32);
    assert_eq!(*v.value(), 32);

    let rectangle = Rectangle { length: 3, height: 5 };
    assert_eq!(area_of(&rectangle), 15);

    assert_eq!(red(&Cardinal), "red");
    assert_eq!(blue(&BlueJay), "blue");

    assert_eq!(wrap_in_option(7), Some(7));

    assert!(old_enough(&Years(43)));
    assert!(!old_enough(&Years(17)));

    let container = Container(1, 3);
    assert_eq!(difference(&container), 2);
    assert!(container.contains(&1, &3));

    phantom_type_parameters();
}

#[test]
fn animals_are_named_and_noisy() {
    let dolly: Sheep = Animal::new("Dolly");
    assert!(!dolly.is_naked());
    assert_eq!(dolly.noise(), "blaaaah");
    assert_eq!(dolly.talk(), "blaaaah");
}

#[test]
fn hand_written_ordering_orders() {
    compare_lengths();
    assert!(Centimeters(1) < Centimeters(2));
    assert!(Centimeters(2) == Centimeters(2));
    assert!(!(Centimeters(2) < Centimeters(1)));
}

#[test]
fn combining_pieces_yields_a_foobar() {
    assert_eq!(FooPiece + BarPiece, FooBar);
    assert_eq!(operator_overloading(), FooBar);
}

#[test]
fn fibonacci_steps_and_skips() {
    let mut fib = Fibonacci::new();
    assert_eq!(fib.advance(), 1);
    assert_eq!(fib.advance(), 1);
    assert_eq!(fib.advance(), 2);
    assert_eq!(fib.advance(), 3);
    assert_eq!(nth_fibonacci(4), 3);
    assert_eq!(nth_fibonacci(10), 55);
    assert_eq!(nth_fibonacci(0), 0);
}

#[test]
fn iterator_chains_as_loops() {
    assert_eq!(double_positives(&vec![1, 2, 3]), vec![2, 4, 6]);
    assert_eq!(double_positives(&vec![1, -2, 3])[1], 6);
    assert_eq!(double_positives(&vec![-1, 0]), Vec::<i32>::new());
    let combined = combine_vecs(vec![1, 2, 3], vec![4, 5]);
    assert_eq!(combined, vec![1, 2, 3, 4, 5]);
}

#[test]
fn copies_stay_usable() {
    clone_lesson();
}

#[test]
fn supertraits_compose_a_greeting() {
    let student = ExampleStudent;
    assert_eq!(
        greeting(&student),
        "My name is Ada and I attend Cambridge. My favorite language is Rust. My Git username is ada"
    );
}

#[test]
fn same_named_accessors_are_disambiguated() {
    let form = Form { username: String::from("rustacean"), age: 28 };
    let (name, age) = read_form(&form);
    assert_eq!(name, "rustacean");
    assert_eq!(age, 28);
}
