//! Reading the item that `#[ethtest]` is attached to, and planning its registration.
use vstd::prelude::*;

use crate::registration::{plan_registration, spec_plan, Registration, RegistrationView};
use crate::signature::{Param, ParamType, SignatureError, TestFn, TestFnView};

verus! {

/// The token stream of the item that the attribute is attached to.
#[verifier::external_type_specification]
#[verifier::external_body]
pub struct ExTokenStream(proc_macro2::TokenStream);

/// A function item, as syn parses it.
#[verifier::external_type_specification]
#[verifier::external_body]
pub struct ExItemFn(syn::ItemFn);

/// The error syn reports for tokens that are no function item.
#[verifier::external_type_specification]
#[verifier::external_body]
pub struct ExSynError(syn::Error);

/// What parsing the tokens as a function item gives: `None` where
/// `syn::parse2::<syn::ItemFn>` fails, else the parsed function together with
/// what is read of it (whether it is `async`, its name, and for each parameter
/// whether it is a receiver, a path type with the text of each segment's
/// identifier, or another type).
pub uninterp spec fn read_item(item: proc_macro2::TokenStream) -> Option<(syn::ItemFn, TestFnView)>;

/// Calls `syn::parse2::<syn::ItemFn>` on the item's tokens and, on success,
/// converts the parsed function into a `TestFn`. The contract claims that
/// parsing succeeds exactly where [`read_item`] is `Some`, and that the parsed
/// function and what is read of it are the ones [`read_item`] names, which
/// depend on the tokens alone. Which tokens parse, and syn's error on the
/// others, are left unsaid.
#[verifier::external_body]
fn parse_test_fn(item: proc_macro2::TokenStream) -> (r: Result<(syn::ItemFn, TestFn), syn::Error>)
    ensures
        r is Ok <==> read_item(item) is Some,
        r matches Ok(p) ==> read_item(item) == Some((p.0, p.1@)),
{
    let f: syn::ItemFn = syn::parse2(item)?;
    let param = |arg: &syn::FnArg| match arg {
        syn::FnArg::Receiver(_) => Param::Receiver,
        syn::FnArg::Typed(typed) => match &*typed.ty {
            syn::Type::Path(ty) => Param::Typed(
                ParamType::Path(ty.path.segments.iter().map(|s| s.ident.to_string()).collect()),
            ),
            _ => Param::Typed(ParamType::Other),
        },
    };
    let params = f.sig.inputs.iter().map(param).collect();
    let test_fn = TestFn { is_async: f.sig.asyncness.is_some(), name: f.sig.ident.to_string(), params };
    Ok((f, test_fn))
}

/// Parses the item that `#[ethtest]` is attached to and plans its
/// registration. Returns syn's error where the tokens are no function item;
/// otherwise the parsed function, what was read of it (both as [`read_item`]
/// names them), and the plan for it, which is exactly [`spec_plan`] of what
/// was read.
pub fn plan_item(item: proc_macro2::TokenStream) -> (r: Result<
    (syn::ItemFn, TestFn, Result<Registration, SignatureError>),
    syn::Error,
>)
    ensures
        r is Ok <==> read_item(item) is Some,
        match r {
            Ok(parsed) => read_item(item) == Some((parsed.0, parsed.1@)) && match parsed.2 {
                Ok(reg) => spec_plan(parsed.1@) == Ok::<RegistrationView, SignatureError>(reg@),
                Err(e) => spec_plan(parsed.1@) == Err::<RegistrationView, SignatureError>(e),
            },
            Err(_) => true,
        },
{
    match parse_test_fn(item) {
        Ok((input, test_fn)) => {
            let plan = plan_registration(&test_fn);
            Ok((input, test_fn, plan))
        },
        Err(err) => Err(err),
    }
}

} // verus!
