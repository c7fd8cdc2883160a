//! The name of the registry that collects the tests of one test state.
use vstd::prelude::*;

verus! {

/// The uppercase mapping of a string, as `str::to_uppercase` computes it
/// (the Unicode uppercase mapping of each character, which may expand a
/// character into several).
pub uninterp spec fn unicode_uppercase(s: Seq<char>) -> Seq<char>;

/// Whether every character of `s` is ASCII.
pub open spec fn all_ascii(s: Seq<char>) -> bool {
    forall|i: int| 0 <= i < s.len() ==> (#[trigger] s[i] as int) < 128
}

/// The ASCII uppercase of one character: `a`..`z` become `A`..`Z`, every other
/// character stays as it is.
pub open spec fn ascii_upper_char(c: char) -> char {
    if 97 <= (c as int) && (c as int) <= 122 {
        ((c as int) - 32) as char
    } else {
        c
    }
}

/// The ASCII uppercase of a string, character by character.
pub open spec fn ascii_uppercase(s: Seq<char>) -> Seq<char> {
    Seq::new(s.len(), |i: int| ascii_upper_char(s[i]))
}

/// Calls `str::to_uppercase`. The contract claims that the result depends on
/// the string alone, and that on an ASCII string it maps `a`..`z` to `A`..`Z`
/// and keeps every other character (the Unicode uppercase mapping of ASCII
/// characters). What it does to other characters is left unsaid.
#[verifier::external_body]
fn to_uppercase(s: &str) -> (res: String)
    ensures
        res@ == unicode_uppercase(s@),
        all_ascii(s@) ==> res@ == ascii_uppercase(s@),
{
    s.to_uppercase()
}

/// The text that every registry name starts with: `TESTS_ON_`.
pub open spec fn registry_prefix() -> Seq<char> {
    seq!['T', 'E', 'S', 'T', 'S', '_', 'O', 'N', '_']
}

/// The name of the registry that collects the tests on the state `state_type`:
/// `TESTS_ON_` followed by the uppercase of the state's name.
pub open spec fn registry_name_of(state_type: Seq<char>) -> Seq<char> {
    registry_prefix() + unicode_uppercase(state_type)
}

/// Whether `c` may stand in an ASCII identifier: a letter, a digit or `_`.
pub open spec fn is_ident_char(c: char) -> bool {
    let n = c as int;
    (48 <= n && n <= 57) || (65 <= n && n <= 90) || (97 <= n && n <= 122) || n == 95
}

/// Whether `s` is an ASCII identifier that starts with an uppercase letter
/// (so it is no lone `_`). For a string that starts with `TESTS_ON_`, as every
/// registry name does, this is exactly being a non-raw ASCII identifier that is
/// no keyword.
pub open spec fn is_upper_ascii_identifier(s: Seq<char>) -> bool {
    &&& s.len() > 0
    &&& 65 <= (s[0] as int) && (s[0] as int) <= 90
    &&& forall|i: int| 0 <= i < s.len() ==> is_ident_char(#[trigger] s[i])
}

/// The ASCII uppercase maps identifier characters to identifier characters.
proof fn lemma_ascii_uppercase_ident(s: Seq<char>)
    requires
        forall|i: int| 0 <= i < s.len() ==> is_ident_char(#[trigger] s[i]),
    ensures
        forall|i: int| 0 <= i < s.len() ==> is_ident_char(#[trigger] ascii_uppercase(s)[i]),
{
    assert forall|i: int| 0 <= i < s.len() implies is_ident_char(#[trigger] ascii_uppercase(s)[i]) by {
        assert(is_ident_char(s[i]));
        let n = s[i] as int;
        if 97 <= n && n <= 122 {
            assert(ascii_uppercase(s)[i] as int == n - 32);
        }
    }
}

/// Returns the name of the registry that collects the tests on the state
/// `state_type`. Where the state's name is made of ASCII letters, digits and
/// `_`, the registry name is an identifier; where the state's name is ASCII
/// and holds any other character (as a raw `r#State` does), it is none.
pub fn registry_name(state_type: &str) -> (r: String)
    ensures
        r@ == registry_name_of(state_type@),
        all_ascii(state_type@) ==> r@ == registry_prefix() + ascii_uppercase(state_type@),
        (forall|i: int| 0 <= i < state_type@.len() ==> is_ident_char(#[trigger] state_type@[i]))
            ==> is_upper_ascii_identifier(r@),
        all_ascii(state_type@) ==> (is_upper_ascii_identifier(r@) <==> (forall|i: int|
            0 <= i < state_type@.len() ==> is_ident_char(#[trigger] state_type@[i]))),
{
    let upper = to_uppercase(state_type);
    let mut r = String::from_str("TESTS_ON_");
    proof {
        reveal_strlit("TESTS_ON_");
    }
    r.append(upper.as_str());
    proof {
        let u = state_type@;
        if forall|i: int| 0 <= i < u.len() ==> is_ident_char(#[trigger] u[i]) {
            assert forall|i: int| 0 <= i < u.len() implies (#[trigger] u[i] as int) < 128 by {
                assert(is_ident_char(u[i]));
            }
            lemma_ascii_uppercase_ident(u);
            assert forall|i: int| 0 <= i < r@.len() implies is_ident_char(#[trigger] r@[i]) by {
                if i >= 9 {
                    assert(r@[i] == ascii_uppercase(u)[i - 9]);
                }
            }
        }
        if all_ascii(u) && is_upper_ascii_identifier(r@) {
            assert forall|j: int| 0 <= j < u.len() implies is_ident_char(#[trigger] u[j]) by {
                assert(r@[j + 9] == ascii_uppercase(u)[j]);
                assert(is_ident_char(r@[j + 9]));
            }
        }
    }
    r
}

} // verus!
