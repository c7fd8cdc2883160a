#![allow(dead_code)]

use ethtest::{plan_registration, registry_name, state_type_of, Param, ParamType, SignatureError, TestFn};

pub struct State0;
pub struct State1;
pub trait State {
    type Prev: State;
}
impl State for State0 {
    type Prev = State0;
}

fn test_fn(is_async: bool, name: &str, params: Vec<Param>) -> TestFn {
    TestFn { is_async, name: name.to_string(), params }
}

fn path(segments: &[&str]) -> Param {
    Param::Typed(ParamType::Path(segments.iter().map(|s| s.to_string()).collect()))
}

fn on_path(segment: &str) -> Vec<Param> {
    vec![path(&[segment])]
}

#[test]
pub fn tests() {
    impl State for State1 {
        type Prev = State0;
    }
    // `async fn foo(ctx: State1)` registers into the registry of `State1`.
    let reg = plan_registration(&test_fn(true, "foo", on_path("State1"))).unwrap();
    assert_eq!(reg.test_name, "foo");
    assert_eq!(reg.state_type, "State1");
    assert_eq!(reg.registry, "TESTS_ON_STATE1");
}

#[test]
fn registers_under_function_name_and_state() {
    let reg = plan_registration(&test_fn(true, "test_deploy", on_path("State0"))).unwrap();
    assert_eq!(reg.test_name, "test_deploy");
    assert_eq!(reg.state_type, "State0");
    assert_eq!(reg.registry, "TESTS_ON_STATE0");
}

#[test]
fn first_segment_of_a_longer_path_names_the_state() {
    let reg = plan_registration(&test_fn(true, "t", vec![path(&["states", "State0"])])).unwrap();
    assert_eq!(reg.state_type, "states");
    assert_eq!(reg.registry, "TESTS_ON_STATES");
}

#[test]
fn refuses_a_function_that_is_not_async() {
    let err = plan_registration(&test_fn(false, "t", on_path("State0"))).err().unwrap();
    assert_eq!(err, SignatureError::NotAsync);
    assert_eq!(err.message(), "Non async test fn.");
}

#[test]
fn async_check_comes_before_the_parameter_checks() {
    let err = plan_registration(&test_fn(false, "t", vec![])).err().unwrap();
    assert_eq!(err, SignatureError::NotAsync);
}

#[test]
fn refuses_a_function_without_parameters() {
    let err = plan_registration(&test_fn(true, "t", vec![])).err().unwrap();
    assert_eq!(err, SignatureError::NoParameters);
    assert_eq!(err.message(), "called `Option::unwrap()` on a `None` value");
}

#[test]
fn refuses_a_receiver() {
    let err = plan_registration(&test_fn(true, "t", vec![Param::Receiver])).err().unwrap();
    assert_eq!(err, SignatureError::ReceiverParameter);
    assert_eq!(err.message(), "");
}

#[test]
fn refuses_a_type_that_is_not_a_path() {
    let err =
        plan_registration(&test_fn(true, "t", vec![Param::Typed(ParamType::Other)])).err().unwrap();
    assert_eq!(err, SignatureError::UnsupportedParameterType);
    assert_eq!(err.message(), "");
}

#[test]
fn refuses_an_empty_path() {
    let err = plan_registration(&test_fn(true, "t", vec![path(&[])]))
        .err()
        .unwrap();
    assert_eq!(err, SignatureError::EmptyTypePath);
    assert_eq!(err.message(), "called `Option::unwrap()` on a `None` value");
}

#[test]
fn state_type_of_reads_the_first_segment() {
    assert_eq!(state_type_of(&test_fn(true, "t", on_path("Ctx"))).unwrap(), "Ctx");
    assert_eq!(
        state_type_of(&test_fn(true, "t", vec![Param::Receiver])).err(),
        Some(SignatureError::ReceiverParameter)
    );
}

#[test]
fn registry_name_uppercases_ascii() {
    assert_eq!(registry_name("State_0b"), "TESTS_ON_STATE_0B");
    assert_eq!(registry_name(""), "TESTS_ON_");
}

#[test]
fn registry_name_uses_the_unicode_uppercase() {
    assert_eq!(registry_name("straße"), "TESTS_ON_STRASSE");
    assert_eq!(registry_name("état"), "TESTS_ON_ÉTAT");
}

#[test]
fn same_state_same_registry_on_examples() {
    let a = plan_registration(&test_fn(true, "first", on_path("State0"))).unwrap();
    let b = plan_registration(&test_fn(true, "second", on_path("State0"))).unwrap();
    assert_eq!(a.registry, b.registry);
    assert_ne!(a.test_name, b.test_name);
}

#[test]
fn renaming_keeps_registration_on_examples() {
    let a = plan_registration(&test_fn(true, "alpha", on_path("State1"))).unwrap();
    let b = plan_registration(&test_fn(true, "beta", on_path("State1"))).unwrap();
    assert_eq!(a.state_type, b.state_type);
    assert_eq!(a.registry, b.registry);
    let ea = plan_registration(&test_fn(true, "alpha", vec![Param::Receiver])).err();
    let eb = plan_registration(&test_fn(true, "beta", vec![Param::Receiver])).err();
    assert_eq!(ea, eb);
}

#[test]
fn registry_of_an_ascii_identifier_is_an_identifier() {
    let name = registry_name("my_state9");
    assert_eq!(name, "TESTS_ON_MY_STATE9");
    assert!(name.chars().all(|c| c.is_ascii_alphanumeric() || c == '_'));
    assert!(name.chars().next().unwrap().is_ascii_uppercase());
}

#[test]
fn raw_state_name_gives_no_identifier() {
    // `r#State` is not made of identifier characters, and its registry name is no identifier.
    assert_eq!(registry_name("r#State"), "TESTS_ON_R#STATE");
}

#[test]
fn later_parameters_are_not_read() {
    let one = plan_registration(&test_fn(true, "t", on_path("State0"))).unwrap();
    let more = plan_registration(&test_fn(
        true,
        "t",
        vec![path(&["State0"]), Param::Receiver, Param::Typed(ParamType::Other)],
    ))
    .unwrap();
    assert_eq!(one.state_type, more.state_type);
    assert_eq!(one.registry, more.registry);
    let refused = plan_registration(&test_fn(true, "t", vec![Param::Receiver, path(&["State0"])]));
    assert_eq!(refused.err(), Some(SignatureError::ReceiverParameter));
}
