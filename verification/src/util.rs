//! Shared validation plumbing: the "warn, don't fail" rule evaluator, the
//! conformance-check trait, and small string helpers used by every revision.

use vstd::prelude::*;
use vstd::string::StrSliceExecFns;

verus! {

/// Declares `serde_json::Value` to the verifier. Revision documents carry an
/// opaque, version-specific `metadata` value of this type; the library
/// stores it and hands it back, but never inspects it.
#[verifier::external_type_specification]
#[verifier::external_body]
pub struct ExValue(serde_json::Value);

/// A value that can check its own structural conformance rules.
///
/// `valid_spec` is the mathematical statement of the rules; `is_valid` is the
/// executable aggregate check. A failed check never prevents further queries
/// on the value: validity and access are deliberately independent.
pub trait IsValid {
    spec fn valid_spec(&self) -> bool;

    fn is_valid(&self) -> (r: bool)
        ensures
            r == self.valid_spec(),
    ;
}

/// Character-wise string equality: two string slices are equal exactly when
/// their character sequences are.
pub fn str_eq(a: &str, b: &str) -> (r: bool)
    ensures
        r == (a@ == b@),
{
    let a_len = a.unicode_len();
    let b_len = b.unicode_len();
    if a_len != b_len {
        proof {
            assert(a@ != b@);
        }
        return false;
    }
    let mut i: usize = 0;
    while i < a_len
        invariant
            i <= a_len,
            a_len == a@.len(),
            a_len == b@.len(),
            forall|k: int| 0 <= k < i ==> a@[k] == b@[k],
        decreases a_len - i,
    {
        if a.get_char(i) != b.get_char(i) {
            proof {
                assert(a@[i as int] != b@[i as int]);
            }
            return false;
        }
        i = i + 1;
    }
    proof {
        assert(a@ =~= b@);
    }
    true
}

/// Whether any string in `codes` has the characters of `code`.
pub fn contains_code(codes: &Vec<String>, code: &str) -> (r: bool)
    ensures
        r == codes.deep_view().contains(code@),
{
    let mut i: usize = 0;
    while i < codes.len()
        invariant
            i <= codes@.len(),
            forall|k: int| 0 <= k < i ==> codes.deep_view()[k] != code@,
        decreases codes@.len() - i,
    {
        if str_eq(codes[i].as_str(), code) {
            proof {
                assert(codes.deep_view()[i as int] == code@);
            }
            return true;
        }
        i = i + 1;
    }
    false
}

/// One step of the "warn, don't fail" conformance policy: when `condition`
/// is false the rule's message is recorded as a diagnostic, but evaluation
/// always continues — the caller only folds the returned boolean into its
/// aggregate result.
pub fn warn_unless(condition: bool, message: &str, warnings: &mut Vec<String>) -> (r: bool)
    ensures
        r == condition,
        condition ==> final(warnings).deep_view() == old(warnings).deep_view(),
        !condition ==> final(warnings).deep_view() == old(warnings).deep_view().push(message@),
{
    if !condition {
        warnings.push(message.to_owned());
        proof {
            assert(warnings.deep_view() =~= old(warnings).deep_view().push(message@));
        }
    }
    condition
}

} // verus!
