use lang_lessons::matching::Arm;
use lang_lessons::matching::FlagPattern;
use lang_lessons::matching::Guard;
use lang_lessons::matching::MatchError;
use lang_lessons::matching::MatchExpr;
use lang_lessons::matching::NumPattern;
use lang_lessons::matching::Pattern;
use lang_lessons::matching::Value;
use lang_lessons::matching::arm_match;
use lang_lessons::matching::num_match;
use lang_lessons::matching::pattern_match;

fn layered_arms() -> Vec<Arm> {
    vec![
        Arm { pattern: Pattern::IntPat(NumPattern::NumLit(1)), guard: Guard::Always, label: 10 },
        Arm {
            pattern: Pattern::IntPat(NumPattern::OneOf(vec![2, 3, 4, 5])),
            guard: Guard::Always,
            label: 11,
        },
        Arm {
            pattern: Pattern::IntPat(NumPattern::RangeIncl(6, 10)),
            guard: Guard::Always,
            label: 12,
        },
        Arm {
            pattern: Pattern::IntPat(NumPattern::BindRangeIncl(11, 42)),
            guard: Guard::NumIsEven,
            label: 13,
        },
        Arm {
            pattern: Pattern::IntPat(NumPattern::BindRangeIncl(11, 42)),
            guard: Guard::NumIsOdd,
            label: 14,
        },
        Arm { pattern: Pattern::Wildcard, guard: Guard::Always, label: 15 },
    ]
}

#[test]
fn forty_two_selects_fourth_arm_and_binds() {
    let expr = MatchExpr::new(layered_arms()).unwrap();
    let selection = expr.eval(&Value::Int(42));
    assert_eq!(selection.index, 3);
    assert_eq!(selection.label, 13);
    assert_eq!(selection.bindings.num, Some(42));
    assert_eq!(selection.bindings.flag, None);
}

#[test]
fn layered_arms_cover_every_shape_once() {
    let expr = MatchExpr::new(layered_arms()).unwrap();
    assert_eq!(expr.eval(&Value::Int(1)).index, 0);
    assert_eq!(expr.eval(&Value::Int(3)).index, 1);
    assert_eq!(expr.eval(&Value::Int(10)).index, 2);
    assert_eq!(expr.eval(&Value::Int(41)).index, 4);
    assert_eq!(expr.eval(&Value::Int(100)).index, 5);
    assert_eq!(expr.eval(&Value::Flag(true)).index, 5);
    assert_eq!(expr.eval(&Value::Pair(2, false)).index, 5);
    assert_eq!(expr.eval(&Value::Rgb(1, 2, 3)).index, 5);
}

#[test]
fn arm_list_without_wildcard_is_rejected_at_construction() {
    let arms = vec![
        Arm { pattern: Pattern::IntPat(NumPattern::AnyNum), guard: Guard::Always, label: 0 },
        Arm { pattern: Pattern::FlagPat(FlagPattern::AnyFlag), guard: Guard::Always, label: 1 },
    ];
    match MatchExpr::new(arms) {
        Err(MatchError::NonExhaustiveMatch) => {}
        Ok(_) => panic!("an arm list leaving pairs uncovered was accepted"),
    }
}

#[test]
fn guarded_wildcard_alone_is_rejected() {
    let arms = vec![Arm { pattern: Pattern::Wildcard, guard: Guard::FlagIsSet, label: 0 }];
    match MatchExpr::new(arms) {
        Err(e) => assert_eq!(e, MatchError::NonExhaustiveMatch),
        Ok(_) => panic!("a guarded wildcard alone was accepted"),
    }
}

#[test]
fn first_true_guard_wins_over_identical_later_arm() {
    let arms = vec![
        Arm { pattern: Pattern::IntPat(NumPattern::BindNum), guard: Guard::NumIsEven, label: 0 },
        Arm { pattern: Pattern::IntPat(NumPattern::BindNum), guard: Guard::NumIsOdd, label: 1 },
        Arm { pattern: Pattern::Wildcard, guard: Guard::Always, label: 2 },
    ];
    let expr = MatchExpr::new(arms).unwrap();
    assert_eq!(expr.eval(&Value::Int(8)).index, 0);
    assert_eq!(expr.eval(&Value::Int(9)).index, 1);
}

#[test]
fn failed_guard_falls_through_to_later_arm() {
    let arms = vec![
        Arm {
            pattern: Pattern::PairPat(NumPattern::AnyNum, FlagPattern::BindFlag),
            guard: Guard::FlagIsSet,
            label: 0,
        },
        Arm {
            pattern: Pattern::PairPat(NumPattern::AnyNum, FlagPattern::BindFlag),
            guard: Guard::Always,
            label: 1,
        },
        Arm { pattern: Pattern::Wildcard, guard: Guard::Always, label: 2 },
    ];
    let expr = MatchExpr::new(arms).unwrap();
    assert_eq!(expr.eval(&Value::Pair(7, true)).index, 0);
    let fallen = expr.eval(&Value::Pair(7, false));
    assert_eq!(fallen.index, 1);
    assert_eq!(fallen.bindings.flag, Some(false));
}

#[test]
fn inclusive_upper_bound_matches_exclusive_does_not() {
    assert!(num_match(&NumPattern::RangeIncl(6, 10), 10));
    assert!(!num_match(&NumPattern::RangeExcl(6, 10), 10));
    assert!(num_match(&NumPattern::RangeExcl(6, 10), 9));
    assert!(num_match(&NumPattern::RangeIncl(6, 10), 6));
    assert!(num_match(&NumPattern::RangeExcl(6, 10), 6));
}

#[test]
fn alternation_matches_any_listed_literal() {
    let p = NumPattern::OneOf(vec![2, 3, 4, 5]);
    assert!(num_match(&p, 2));
    assert!(num_match(&p, 5));
    assert!(!num_match(&p, 6));
}

#[test]
fn structural_match_respects_shape() {
    let p = Pattern::RgbPat(NumPattern::NumLit(1), NumPattern::AnyNum, NumPattern::BindNum);
    assert!(pattern_match(&p, &Value::Rgb(1, 9, 3)));
    assert!(!pattern_match(&p, &Value::Rgb(2, 9, 3)));
    assert!(!pattern_match(&p, &Value::Int(1)));
    assert!(pattern_match(&Pattern::Wildcard, &Value::Flag(false)));
}

#[test]
fn guard_without_binding_never_holds() {
    let arm = Arm { pattern: Pattern::IntPat(NumPattern::AnyNum), guard: Guard::NumIsEven, label: 0 };
    assert!(!arm_match(&arm, &Value::Int(4)));
    let bound = Arm { pattern: Pattern::IntPat(NumPattern::BindNum), guard: Guard::NumIsEven, label: 0 };
    assert!(arm_match(&bound, &Value::Int(4)));
}
