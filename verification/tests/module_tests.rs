use lang_lessons::modules::mod_access;
use lang_lessons::modules::structures;
use lang_lessons::modules::super_and_self;
use lang_lessons::modules::use_declaration;
use lang_lessons::my_mod::ClosedBox;
use lang_lessons::my_mod::OpenBox;
use lang_lessons::my_mod::public_function;
use lang_lessons::my_mod::public_nested;
use lang_lessons::primitives::alias_round_trip;
use lang_lessons::primitives::arrays_and_slices;
use lang_lessons::primitives::casting;
use lang_lessons::primitives::literal_specifiers;
use lang_lessons::primitives::literals;
use lang_lessons::scoping_rules::borrowing_vs_mutable_borrowing;
use lang_lessons::scoping_rules::lifetimes;
use lang_lessons::scoping_rules::moving_vs_borrowing;
use lang_lessons::scoping_rules::multiply;
use lang_lessons::scoping_rules::ownership_and_moves;
use lang_lessons::scoping_rules::raii;
use lang_lessons::scoping_rules::ref_pattern;
use lang_lessons::use_mod::public_function as use_mod_public_function;
use lang_lessons::variable_binding::declare_first;
use lang_lessons::variable_binding::freezing;
use lang_lessons::variable_binding::intro;
use lang_lessons::variable_binding::mutability;
use lang_lessons::variable_binding::scope_and_shadowing;

#[test]
fn visibility_fences_allow_these_calls() {
    public_function();
    public_nested::public_function();
    mod_access();
    super_and_self();
    use_declaration();
    assert_eq!(use_mod_public_function(), "cake");
}

#[test]
fn open_and_closed_boxes() {
    structures();
    let open_box = OpenBox { contents: String::from("public") };
    assert_eq!(open_box.contents, "public");
    let closed_box = ClosedBox::new("classified");
    assert_eq!(closed_box.unclassify_contents(), &"classified");
}

#[test]
fn primitive_lessons_run() {
    literals();
    literal_specifiers();
    casting();
    arrays_and_slices();
    assert_eq!(alias_round_trip(4), 4);
}

#[test]
fn binding_lessons_run() {
    intro();
    mutability();
    scope_and_shadowing();
    declare_first();
    freezing();
}

#[test]
fn ownership_lessons_run() {
    raii();
    ownership_and_moves();
    moving_vs_borrowing();
    borrowing_vs_mutable_borrowing();
    assert_eq!(ref_pattern(), (34, 4));
    assert_eq!(multiply(&3, &4), 12);
    lifetimes();
}
