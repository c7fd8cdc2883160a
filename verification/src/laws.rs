//! What state selection and planning do, stated directly over a test
//! function's `async` flag, parameters and name. Together these laws cover
//! every function: each one is either refused for the first reason that
//! applies, in the order `async`, parameter, receiver, path type, non-empty
//! path, or accepted with the whole first segment as its state.
use vstd::prelude::*;

use crate::naming::{registry_name_of, unicode_uppercase};
use crate::registration::{spec_plan, RegistrationView};
use crate::signature::{
    spec_message, spec_state_type, ParamTypeView, ParamView, SignatureError, TestFnView,
};

verus! {

/// The registry of a state is `TESTS_ON_` followed by the uppercase of the
/// whole state name.
pub proof fn registry_is_tests_on_and_uppercase(state: Seq<char>)
    ensures
        registry_name_of(state) == seq!['T', 'E', 'S', 'T', 'S', '_', 'O', 'N', '_'] + unicode_uppercase(state),
        registry_name_of(state).len() == 9 + unicode_uppercase(state).len(),
{
}

/// A function that is not `async` is refused as not `async`, whatever its
/// parameters, and the refusal says "Non async test fn.".
pub proof fn not_async_is_refused(f: TestFnView)
    requires
        !f.is_async,
    ensures
        spec_state_type(f) == Err::<Seq<char>, SignatureError>(SignatureError::NotAsync),
        spec_plan(f) == Err::<RegistrationView, SignatureError>(SignatureError::NotAsync),
        spec_message(SignatureError::NotAsync) == "Non async test fn."@,
{
}

/// An `async` function whose first parameter has a path type with at least one
/// segment is accepted, whatever that segment's text and whatever follows it:
/// it runs on exactly the whole text of the first segment, is listed under its
/// own name, and lands in `TESTS_ON_` followed by the uppercase of that text.
pub proof fn first_segment_is_the_state(f: TestFnView, segments: Seq<Seq<char>>)
    requires
        f.is_async,
        f.params.len() > 0,
        f.params[0] == ParamView::Typed(ParamTypeView::Path(segments)),
        segments.len() > 0,
    ensures
        spec_state_type(f) == Ok::<Seq<char>, SignatureError>(segments[0]),
        spec_plan(f) == Ok::<RegistrationView, SignatureError>(
            RegistrationView {
                test_name: f.name,
                state_type: segments[0],
                registry: seq!['T', 'E', 'S', 'T', 'S', '_', 'O', 'N', '_'] + unicode_uppercase(segments[0]),
            },
        ),
{
}

/// An `async` function without parameters is refused for that.
pub proof fn no_parameters_is_refused(f: TestFnView)
    requires
        f.is_async,
        f.params.len() == 0,
    ensures
        spec_state_type(f) == Err::<Seq<char>, SignatureError>(SignatureError::NoParameters),
        spec_plan(f) == Err::<RegistrationView, SignatureError>(SignatureError::NoParameters),
{
}

/// An `async` function whose first parameter is a receiver is refused for that.
pub proof fn receiver_is_refused(f: TestFnView)
    requires
        f.is_async,
        f.params.len() > 0,
        f.params[0] == ParamView::Receiver,
    ensures
        spec_state_type(f) == Err::<Seq<char>, SignatureError>(SignatureError::ReceiverParameter),
        spec_plan(f) == Err::<RegistrationView, SignatureError>(SignatureError::ReceiverParameter),
{
}

/// An `async` function whose first parameter's type is no path type is
/// refused for that.
pub proof fn non_path_type_is_refused(f: TestFnView)
    requires
        f.is_async,
        f.params.len() > 0,
        f.params[0] == ParamView::Typed(ParamTypeView::Other),
    ensures
        spec_state_type(f) == Err::<Seq<char>, SignatureError>(
            SignatureError::UnsupportedParameterType,
        ),
        spec_plan(f) == Err::<RegistrationView, SignatureError>(
            SignatureError::UnsupportedParameterType,
        ),
{
}

/// An `async` function whose first parameter's type is a path without
/// segments is refused for that.
pub proof fn empty_path_is_refused(f: TestFnView)
    requires
        f.is_async,
        f.params.len() > 0,
        f.params[0] == ParamView::Typed(ParamTypeView::Path(Seq::<Seq<char>>::empty())),
    ensures
        spec_state_type(f) == Err::<Seq<char>, SignatureError>(SignatureError::EmptyTypePath),
        spec_plan(f) == Err::<RegistrationView, SignatureError>(SignatureError::EmptyTypePath),
{
}

/// Each refusal's message: "Non async test fn." for a function that is not
/// `async`; the message of an unwrapped `None` where there is no parameter or
/// no path segment to take the state from; an empty message otherwise.
pub proof fn refusal_messages()
    ensures
        spec_message(SignatureError::NotAsync) == "Non async test fn."@,
        spec_message(SignatureError::NoParameters)
            == "called `Option::unwrap()` on a `None` value"@,
        spec_message(SignatureError::EmptyTypePath)
            == "called `Option::unwrap()` on a `None` value"@,
        spec_message(SignatureError::ReceiverParameter) == ""@,
        spec_message(SignatureError::UnsupportedParameterType) == ""@,
{
}

/// Planning follows state selection: where a state is selected the plan runs
/// on exactly that state, under the function's own name, in `TESTS_ON_`
/// followed by the state's uppercase; where it is refused the plan is refused
/// for the same reason.
pub proof fn plan_follows_state(f: TestFnView)
    ensures
        spec_state_type(f) is Ok ==> spec_plan(f) == Ok::<RegistrationView, SignatureError>(
            RegistrationView {
                test_name: f.name,
                state_type: spec_state_type(f)->Ok_0,
                registry: seq!['T', 'E', 'S', 'T', 'S', '_', 'O', 'N', '_'] + unicode_uppercase(spec_state_type(f)->Ok_0),
            },
        ),
        spec_state_type(f) is Err ==> spec_plan(f) == Err::<RegistrationView, SignatureError>(
            spec_state_type(f)->Err_0,
        ),
{
}

} // verus!
