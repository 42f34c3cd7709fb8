//! Revision `0.2`: the document shape carries no axis field at all, so
//! every axis query reports empty/absent by design, and the revision has no
//! axis conformance rules to violate.

use vstd::prelude::*;
use crate::multiscale::Axes;
use crate::util::IsValid;

verus! {

/// One resolution level of the pyramid, naming its storage path relative to
/// the document.
pub struct Dataset {
    pub path: String,
}

/// The raw shape of a revision-`0.2` multiscale document.
pub struct Multiscale {
    pub name: Option<String>,
    pub datasets: Vec<Dataset>,
    /// Downscaling method identifier; serialized under the key `type`.
    pub downscaling_type: Option<String>,
    /// Opaque method parameters whose shape depends on `downscaling_type`.
    pub metadata: Option<serde_json::Value>,
}

impl Multiscale {
    /// The aggregate conformance verdict together with every diagnostic the
    /// rule checks emitted; this revision has no axis rules, so the verdict
    /// is always positive and no diagnostic is ever emitted.
    pub fn validate(&self) -> (r: (bool, Vec<String>))
        ensures
            r.0,
            r.1.deep_view() == Seq::<Seq<char>>::empty(),
    {
        let warnings: Vec<String> = Vec::new();
        proof {
            assert(warnings.deep_view() =~= Seq::<Seq<char>>::empty());
        }
        (true, warnings)
    }
}

/// Axis information cannot be represented by this revision, so every query
/// keeps its default empty/absent behaviour.
impl Axes for Multiscale {

}

impl IsValid for Multiscale {
    open spec fn valid_spec(&self) -> bool {
        true
    }

    fn is_valid(&self) -> (r: bool)
        ensures
            r == self.valid_spec(),
    {
        true
    }
}

} // verus!
