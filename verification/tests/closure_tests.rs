use lang_lessons::closures::Access;
use lang_lessons::closures::CaptureMode;
use lang_lessons::closures::InvokeError;
use lang_lessons::closures::MutRunner;
use lang_lessons::closures::OnceRunner;
use lang_lessons::closures::SharedRunner;
use lang_lessons::closures::classify;
use lang_lessons::closures::closure_traits_lesson;
use lang_lessons::functions::create_appender;
use lang_lessons::functions::create_consumer;
use lang_lessons::functions::create_counter;
use lang_lessons::functions::create_reader;

#[test]
fn consuming_closure_rejects_second_invocation() {
    let mut consume = OnceRunner::new(String::from("cake"));
    let first = consume.invoke();
    assert_eq!(first.unwrap(), "cake");
    let second = consume.invoke();
    assert_eq!(second.unwrap_err(), InvokeError::AlreadyConsumed);
    let third = consume.invoke();
    assert_eq!(third.unwrap_err(), InvokeError::AlreadyConsumed);
}

fn first_call_site(reader: &SharedRunner) -> String {
    reader.invoke()
}

fn second_call_site(reader: &SharedRunner) -> String {
    reader.invoke()
}

#[test]
fn read_only_closure_invoked_twice_from_two_sites() {
    let print = SharedRunner::new(String::from("green"));
    let a = first_call_site(&print);
    let b = second_call_site(&print);
    assert_eq!(a, "green");
    assert_eq!(b, "green");
}

#[test]
fn one_closure_satisfies_every_applier() {
    assert_eq!(closure_traits_lesson(), (42, 42));
}

#[test]
fn mutating_closure_counts_under_exclusive_access() {
    let mut inc = MutRunner::new();
    assert_eq!(inc.invoke(), 1);
    assert_eq!(inc.invoke(), 2);
    assert_eq!(inc.invoke(), 3);
}

#[test]
fn mutating_closure_grows_its_capture() {
    let mut appender = create_appender();
    assert_eq!(appender.invoke(), "cake2");
    assert_eq!(appender.invoke(), "cake22");
    assert_eq!(appender.invoke(), "cake222");
}

#[test]
fn classify_picks_minimal_capability() {
    assert_eq!(classify(&vec![Access::ReadOnlyUse, Access::ReadOnlyUse]), CaptureMode::ReadOnly);
    assert_eq!(
        classify(&vec![Access::ReadOnlyUse, Access::MutateInPlace]),
        CaptureMode::Mutating
    );
    assert_eq!(
        classify(&vec![Access::MutateInPlace, Access::MoveOut, Access::ReadOnlyUse]),
        CaptureMode::Consuming
    );
    assert_eq!(classify(&vec![]), CaptureMode::ReadOnly);
}

#[test]
fn returned_closures_behave_like_their_modes() {
    let reader = create_reader();
    assert_eq!(reader.invoke(), "cake1");
    assert_eq!(reader.invoke(), "cake1");

    let mut counter = create_counter();
    assert_eq!(counter.invoke(), 1);

    let mut consumer = create_consumer();
    assert_eq!(consumer.invoke().unwrap(), "cake3");
    assert!(consumer.invoke().is_err());
}
