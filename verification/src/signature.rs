//! The shape of a test function's signature, as far as `#[ethtest]` reads it,
//! and the rule that picks the test state the function runs on.
use vstd::prelude::*;

verus! {

/// The type written for a parameter of a test function.
pub enum ParamType {
    /// A path type such as `State0` or `states::State0`. Holds the text of the
    /// identifier of each of the path's segments, in order.
    Path(Vec<String>),
    /// Any type that is not a path (a reference, a tuple, an array, ...).
    Other,
}

/// A parameter of a test function.
pub enum Param {
    /// A receiver (`self`, `&self`, ...).
    Receiver,
    /// An ordinary typed parameter.
    Typed(ParamType),
}

/// What `#[ethtest]` reads of the function it is attached to.
pub struct TestFn {
    /// Whether the function is declared `async`.
    pub is_async: bool,
    /// The function's name.
    pub name: String,
    /// The function's parameters, in order.
    pub params: Vec<Param>,
}

/// The mathematical content of a [`ParamType`].
pub enum ParamTypeView {
    Path(Seq<Seq<char>>),
    Other,
}

/// The mathematical content of a [`Param`].
pub enum ParamView {
    Receiver,
    Typed(ParamTypeView),
}

/// The mathematical content of a [`TestFn`].
pub struct TestFnView {
    pub is_async: bool,
    pub name: Seq<char>,
    pub params: Seq<ParamView>,
}

impl View for ParamType {
    type V = ParamTypeView;

    open spec fn view(&self) -> ParamTypeView {
        match self {
            ParamType::Path(segments) => ParamTypeView::Path(
                segments@.map_values(|segment: String| segment@),
            ),
            ParamType::Other => ParamTypeView::Other,
        }
    }
}

impl View for Param {
    type V = ParamView;

    open spec fn view(&self) -> ParamView {
        match self {
            Param::Receiver => ParamView::Receiver,
            Param::Typed(ty) => ParamView::Typed(ty@),
        }
    }
}

impl View for TestFn {
    type V = TestFnView;

    open spec fn view(&self) -> TestFnView {
        TestFnView {
            is_async: self.is_async,
            name: self.name@,
            params: self.params@.map_values(|param: Param| param@),
        }
    }
}

/// Why a function cannot be registered as a test.
#[derive(Debug, Clone, Copy, PartialEq, Eq, Structural)]
pub enum SignatureError {
    /// The function is not `async`.
    NotAsync,
    /// The function takes no parameters, so no test state can be named.
    NoParameters,
    /// The first parameter is a receiver.
    ReceiverParameter,
    /// The first parameter's type is not a path type.
    UnsupportedParameterType,
    /// The first parameter's type is a path without segments.
    EmptyTypePath,
}

/// The message with which `#[ethtest]` refuses a function: the one given for
/// a function that is not `async`, the message of an unwrapped `None` where
/// there is nothing to take the state from, and an empty one otherwise.
pub open spec fn spec_message(e: SignatureError) -> Seq<char> {
    match e {
        SignatureError::NotAsync => "Non async test fn."@,
        SignatureError::NoParameters => "called `Option::unwrap()` on a `None` value"@,
        SignatureError::EmptyTypePath => "called `Option::unwrap()` on a `None` value"@,
        SignatureError::ReceiverParameter => ""@,
        SignatureError::UnsupportedParameterType => ""@,
    }
}

impl SignatureError {
    /// The message with which `#[ethtest]` refuses the function.
    pub fn message(&self) -> (m: &'static str)
        ensures
            m@ == spec_message(*self),
    {
        match self {
            SignatureError::NotAsync => "Non async test fn.",
            SignatureError::NoParameters => "called `Option::unwrap()` on a `None` value",
            SignatureError::EmptyTypePath => "called `Option::unwrap()` on a `None` value",
            SignatureError::ReceiverParameter => "",
            SignatureError::UnsupportedParameterType => "",
        }
    }
}

/// The test state a function runs on: the identifier of the first segment of
/// the path type of its first parameter. The checks come in this order: `async`,
/// presence of a parameter, receiver, path type, non-empty path. Further
/// parameters and further segments are not read.
pub open spec fn spec_state_type(f: TestFnView) -> Result<Seq<char>, SignatureError> {
    if !f.is_async {
        Err(SignatureError::NotAsync)
    } else if f.params.len() == 0 {
        Err(SignatureError::NoParameters)
    } else {
        match f.params[0] {
            ParamView::Receiver => Err(SignatureError::ReceiverParameter),
            ParamView::Typed(ParamTypeView::Other) => Err(SignatureError::UnsupportedParameterType),
            ParamView::Typed(ParamTypeView::Path(segments)) => if segments.len() == 0 {
                Err(SignatureError::EmptyTypePath)
            } else {
                Ok(segments[0])
            },
        }
    }
}

/// Returns the name of the test state that `f` runs on, or why `f` cannot be a test.
pub fn state_type_of(f: &TestFn) -> (r: Result<String, SignatureError>)
    ensures
        match r {
            Ok(s) => spec_state_type(f@) == Ok::<Seq<char>, SignatureError>(s@),
            Err(e) => spec_state_type(f@) == Err::<Seq<char>, SignatureError>(e),
        },
{
    if !f.is_async {
        return Err(SignatureError::NotAsync);
    }
    if f.params.len() == 0 {
        return Err(SignatureError::NoParameters);
    }
    assert(f@.params[0] == f.params@[0]@);
    match &f.params[0] {
        Param::Receiver => Err(SignatureError::ReceiverParameter),
        Param::Typed(ParamType::Other) => Err(SignatureError::UnsupportedParameterType),
        Param::Typed(ParamType::Path(segments)) => {
            if segments.len() == 0 {
                Err(SignatureError::EmptyTypePath)
            } else {
                let ghost segs = segments@.map_values(|segment: String| segment@);
                assert(segs[0] == segments@[0]@);
                Ok(segments[0].clone())
            }
        },
    }
}

} // verus!
