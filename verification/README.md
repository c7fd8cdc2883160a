# ethtest

The planning behind the `#[ethtest]` attribute, verified with Verus. A test
function is registered in the distributed slice `TESTS_ON_<STATE>` of the test
state named by its first parameter, and listed under its own name.

- `src/signature.rs`: what is read of a test function, and the rule that picks
  its test state (or the reason it cannot be a test).
- `src/naming.rs`: the registry name, `TESTS_ON_` and the uppercase state name.
- `src/registration.rs`: the planned registration and the laws relating plans.
- `src/item.rs`: parsing the attached item with syn and planning it.
- `app/lib.rs`: the attribute's token plumbing: rendering with `quote!`.
- `tests/`: tests on concrete values.
