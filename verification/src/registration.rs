//! The registration that `#[ethtest]` emits for a test function.
use vstd::prelude::*;

use crate::naming::{
    all_ascii, ascii_uppercase, is_ident_char, is_upper_ascii_identifier, registry_name,
    registry_name_of, registry_prefix,
};
use crate::signature::{spec_state_type, state_type_of, SignatureError, TestFn, TestFnView};

verus! {

/// Where and under which name a test function is registered.
pub struct Registration {
    /// The name the test is listed under: the function's name.
    pub test_name: String,
    /// The test state the test runs on.
    pub state_type: String,
    /// The registry (distributed slice) that collects the tests on that state.
    pub registry: String,
}

/// The mathematical content of a [`Registration`].
pub struct RegistrationView {
    pub test_name: Seq<char>,
    pub state_type: Seq<char>,
    pub registry: Seq<char>,
}

impl View for Registration {
    type V = RegistrationView;

    open spec fn view(&self) -> RegistrationView {
        RegistrationView {
            test_name: self.test_name@,
            state_type: self.state_type@,
            registry: self.registry@,
        }
    }
}

/// The registration of `f`: listed under its own name, running on the state
/// its first parameter names, collected by that state's registry.
pub open spec fn spec_plan(f: TestFnView) -> Result<RegistrationView, SignatureError> {
    match spec_state_type(f) {
        Ok(state) => Ok(
            RegistrationView {
                test_name: f.name,
                state_type: state,
                registry: registry_name_of(state),
            },
        ),
        Err(e) => Err(e),
    }
}

/// Plans the registration of the test function `f`, or says why `f` cannot be a test.
pub fn plan_registration(f: &TestFn) -> (r: Result<Registration, SignatureError>)
    ensures
        match r {
            Ok(reg) => spec_plan(f@) == Ok::<RegistrationView, SignatureError>(reg@),
            Err(e) => spec_plan(f@) == Err::<RegistrationView, SignatureError>(e),
        },
        r matches Ok(reg) ==> (all_ascii(reg.state_type@) ==> reg.registry@ == registry_prefix()
            + ascii_uppercase(reg.state_type@)),
        r matches Ok(reg) ==> ((forall|i: int|
            0 <= i < reg.state_type@.len() ==> is_ident_char(#[trigger] reg.state_type@[i]))
            ==> is_upper_ascii_identifier(reg.registry@)),
        r matches Ok(reg) ==> (all_ascii(reg.state_type@) ==> (is_upper_ascii_identifier(
            reg.registry@,
        ) <==> (forall|i: int|
            0 <= i < reg.state_type@.len() ==> is_ident_char(#[trigger] reg.state_type@[i])))),
{
    match state_type_of(f) {
        Ok(state_type) => {
            let registry = registry_name(state_type.as_str());
            Ok(Registration { test_name: f.name.clone(), state_type, registry })
        },
        Err(e) => Err(e),
    }
}

/// Tests on one state are collected by one registry: two test functions
/// that run on the same state are registered in the same registry.
pub proof fn same_state_same_registry(a: TestFnView, b: TestFnView)
    requires
        spec_state_type(a) is Ok,
        spec_state_type(a) == spec_state_type(b),
    ensures
        spec_plan(a) is Ok,
        spec_plan(b) is Ok,
        spec_plan(a)->Ok_0.registry == spec_plan(b)->Ok_0.registry,
{
}

/// Only whether a function is `async` and its first parameter decide its
/// registration; its name only decides the name it is listed under. Two
/// functions that agree on these (whatever their names, further parameters,
/// body or attributes) are accepted or refused alike, and when accepted run
/// on the same state and land in the same registry.
pub proof fn only_async_and_first_parameter_matter(a: TestFnView, b: TestFnView)
    requires
        a.is_async == b.is_async,
        a.params.len() == 0 <==> b.params.len() == 0,
        a.params.len() > 0 ==> a.params[0] == b.params[0],
    ensures
        spec_plan(a) is Ok <==> spec_plan(b) is Ok,
        spec_plan(a) is Err ==> spec_plan(a) == spec_plan(b),
        spec_plan(a) is Ok ==> {
            &&& spec_plan(a)->Ok_0.test_name == a.name
            &&& spec_plan(b)->Ok_0.test_name == b.name
            &&& spec_plan(a)->Ok_0.state_type == spec_plan(b)->Ok_0.state_type
            &&& spec_plan(a)->Ok_0.registry == spec_plan(b)->Ok_0.registry
        },
{
}

} // verus!
