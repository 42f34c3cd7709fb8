//! Revision `0.3`: axes are encoded implicitly, as a short list of
//! single-letter codes drawn from the fixed vocabulary `t`, `c`, `z`, `y`,
//! `x`, with positionally implied semantics.
//!
//! Conformance rules of this revision: the codes must be pairwise distinct,
//! and every code must belong to the fixed vocabulary. Both rules are
//! checked independently under the "warn, don't fail" policy, and a
//! non-conforming document remains fully usable for axis extraction.

use vstd::prelude::*;
use itertools::Itertools;
use crate::axis::{ChannelAxis, CustomAxis, SpaceAxis, TimeAxis};
use crate::multiscale::Axes;
use crate::util::{IsValid, contains_code, str_eq, warn_unless};

verus! {

/// Diagnostic recorded when the axis-code list holds a repeated code.
pub const UNIQUENESS_MESSAGE: &'static str = "The spec states: The values MUST be unique.";

/// Diagnostic recorded when an axis code lies outside this revision's fixed
/// vocabulary.
pub const VOCABULARY_MESSAGE: &'static str =
    "The spec states: The values MUST be [...] one of {\"t\", \"c\", \"z\", \"y\", \"x\"}.";

/// Whether a code belongs to this revision's fixed vocabulary.
pub open spec fn known_code(code: Seq<char>) -> bool {
    code == "t"@ || code == "c"@ || code == "z"@ || code == "y"@ || code == "x"@
}

/// The spatial axes named by a code list, in document order: one entry per
/// code that parses as a spatial code, all other codes skipped.
pub open spec fn space_axes_of(codes: Seq<Seq<char>>) -> Seq<SpaceAxis>
    decreases codes.len(),
{
    if codes.len() == 0 {
        Seq::empty()
    } else {
        let init = space_axes_of(codes.drop_last());
        if SpaceAxis::spec_parse(codes.last()) is Ok {
            init.push(SpaceAxis::spec_parse(codes.last())->Ok_0)
        } else {
            init
        }
    }
}

/// One resolution level of the pyramid, naming its storage path relative to
/// the document.
pub struct Dataset {
    pub path: String,
}

/// The raw shape of a revision-`0.3` multiscale document.
pub struct Multiscale {
    pub name: Option<String>,
    pub axes: Vec<String>,
    pub datasets: Vec<Dataset>,
    /// Downscaling method identifier; serialized under the key `type`.
    pub downscaling_type: Option<String>,
    /// Opaque method parameters whose shape depends on `downscaling_type`.
    pub metadata: Option<serde_json::Value>,
}

impl Multiscale {
    /// The document's axis codes as character sequences, in document order.
    pub open spec fn codes(&self) -> Seq<Seq<char>> {
        self.axes.deep_view()
    }

    /// Rule 1 of this revision: the axis codes are pairwise distinct.
    pub open spec fn axis_names_unique_spec(&self) -> bool {
        self.codes().no_duplicates()
    }

    /// Rule 2 of this revision: every axis code belongs to the fixed
    /// vocabulary.
    pub open spec fn axis_names_known_spec(&self) -> bool {
        forall|i: int| 0 <= i < self.codes().len() ==> known_code(self.codes()[i])
    }

    /// A document conforms exactly when both rules hold.
    pub open spec fn conforms(&self) -> bool {
        self.axis_names_unique_spec() && self.axis_names_known_spec()
    }

    /// The diagnostics conformance checking emits, in rule order: one
    /// message per violated rule, none for a rule that holds.
    pub open spec fn conformance_messages(&self) -> Seq<Seq<char>> {
        let uniqueness = if self.axis_names_unique_spec() {
            Seq::<Seq<char>>::empty()
        } else {
            seq![UNIQUENESS_MESSAGE@]
        };
        let vocabulary = if self.axis_names_known_spec() {
            Seq::<Seq<char>>::empty()
        } else {
            seq![VOCABULARY_MESSAGE@]
        };
        uniqueness + vocabulary
    }

    pub open spec fn spec_space_axes(&self) -> Seq<SpaceAxis> {
        space_axes_of(self.codes())
    }

    pub open spec fn spec_time_axes(&self) -> Seq<TimeAxis> {
        if self.codes().contains("t"@) {
            seq![TimeAxis]
        } else {
            Seq::empty()
        }
    }

    pub open spec fn spec_channel_axes(&self) -> Seq<ChannelAxis> {
        if self.codes().contains("c"@) {
            seq![ChannelAxis]
        } else {
            Seq::empty()
        }
    }

    pub open spec fn spec_time_axis(&self) -> Option<TimeAxis> {
        if self.codes().contains("t"@) {
            Some(TimeAxis)
        } else {
            None
        }
    }

    pub open spec fn spec_channel_axis(&self) -> Option<ChannelAxis> {
        if self.codes().contains("c"@) {
            Some(ChannelAxis)
        } else {
            None
        }
    }
}

/// Uniqueness law: a document whose axis-code list repeats a code never
/// conforms, whether or not the repeated code is itself recognized.
pub proof fn lemma_duplicate_code_invalidates(m: Multiscale, i: int, j: int)
    requires
        0 <= i < j < m.codes().len(),
        m.codes()[i] == m.codes()[j],
    ensures
        !m.conforms(),
{
}

/// Known-vocabulary law: a document holding any code outside this
/// revision's fixed vocabulary never conforms.
pub proof fn lemma_unknown_code_invalidates(m: Multiscale, i: int)
    requires
        0 <= i < m.codes().len(),
        !known_code(m.codes()[i]),
    ensures
        !m.conforms(),
{
}

/// A code list holding a spatial code at any position yields at least that
/// one spatial axis.
proof fn lemma_space_axes_nonempty(codes: Seq<Seq<char>>, i: int)
    requires
        0 <= i < codes.len(),
        SpaceAxis::spec_parse(codes[i]) is Ok,
    ensures
        space_axes_of(codes).len() > 0,
    decreases codes.len(),
{
    if i < codes.len() - 1 {
        lemma_space_axes_nonempty(codes.drop_last(), i);
    }
}

/// Extraction drops nothing: when every code of the list is a spatial
/// code, the extracted sequence has one axis per occurrence — a repeated
/// code contributes one entry each time it occurs, conforming or not.
pub proof fn lemma_space_extraction_keeps_multiplicity(codes: Seq<Seq<char>>)
    requires
        forall|i: int| 0 <= i < codes.len() ==> SpaceAxis::spec_parse(codes[i]) is Ok,
    ensures
        space_axes_of(codes).len() == codes.len(),
    decreases codes.len(),
{
    if codes.len() > 0 {
        lemma_space_extraction_keeps_multiplicity(codes.drop_last());
    }
}

/// Non-blocking invalidity law: axis extraction never depends on the
/// conformance verdict. Whatever rules the document violates, a spatial
/// code at any position yields a spatial axis, a `t` code yields the time
/// axis, and a `c` code yields the channel axis.
pub proof fn lemma_extraction_ignores_validity(m: Multiscale, i: int)
    requires
        0 <= i < m.codes().len(),
    ensures
        SpaceAxis::spec_parse(m.codes()[i]) is Ok ==> m.spec_space_axes().len() > 0,
        m.codes()[i] == "t"@ ==> m.spec_time_axis() == Some(TimeAxis),
        m.codes()[i] == "c"@ ==> m.spec_channel_axis() == Some(ChannelAxis),
{
    if SpaceAxis::spec_parse(m.codes()[i]) is Ok {
        lemma_space_axes_nonempty(m.codes(), i);
    }
    if m.codes()[i] == "t"@ {
        assert(m.codes().contains("t"@)) by {
            assert(m.codes()[i] == "t"@);
        }
    }
    if m.codes()[i] == "c"@ {
        assert(m.codes().contains("c"@)) by {
            assert(m.codes()[i] == "c"@);
        }
    }
}

/// Relies on `itertools::Itertools::unique` (with `Iterator::count`): it
/// yields each distinct element of the iterator exactly once, comparing by
/// equality, so the count is the number of distinct code strings.
#[verifier::external_body]
fn distinct_code_count(codes: &Vec<String>) -> (n: usize)
    ensures
        n == codes.deep_view().to_set().len(),
{
    codes.iter().unique().count()
}

impl Multiscale {
    fn are_axis_names_unique(&self, warnings: &mut Vec<String>) -> (r: bool)
        ensures
            r == self.axis_names_unique_spec(),
            r ==> final(warnings).deep_view() == old(warnings).deep_view(),
            !r ==> final(warnings).deep_view() == old(warnings).deep_view().push(
                UNIQUENESS_MESSAGE@,
            ),
    {
        let distinct = distinct_code_count(&self.axes);
        let unique = distinct == self.axes.len();
        proof {
            if unique {
                self.codes().lemma_no_dup_set_cardinality();
            } else if self.codes().no_duplicates() {
                self.codes().unique_seq_to_set();
            }
        }
        warn_unless(unique, UNIQUENESS_MESSAGE, warnings)
    }

    fn are_axis_names_known(&self, warnings: &mut Vec<String>) -> (r: bool)
        ensures
            r == self.axis_names_known_spec(),
            r ==> final(warnings).deep_view() == old(warnings).deep_view(),
            !r ==> final(warnings).deep_view() == old(warnings).deep_view().push(
                VOCABULARY_MESSAGE@,
            ),
    {
        let mut all_known = true;
        let mut i: usize = 0;
        while i < self.axes.len()
            invariant
                i <= self.codes().len(),
                all_known == (forall|k: int| 0 <= k < i ==> known_code(self.codes()[k])),
            decreases self.codes().len() - i,
        {
            let code = self.axes[i].as_str();
            let known = str_eq(code, "t") || str_eq(code, "c") || str_eq(code, "z") || str_eq(
                code,
                "y",
            ) || str_eq(code, "x");
            proof {
                assert(self.codes()[i as int] == self.axes@[i as int]@);
                assert(known == known_code(self.codes()[i as int]));
            }
            all_known = all_known && known;
            i = i + 1;
        }
        warn_unless(all_known, VOCABULARY_MESSAGE, warnings)
    }

    /// Evaluates both of this revision's rules, in rule order, appending one
    /// diagnostic per violated rule; a failed rule never stops evaluation.
    fn are_axis_names_valid(&self, warnings: &mut Vec<String>) -> (r: bool)
        ensures
            r == self.conforms(),
            final(warnings).deep_view() == old(warnings).deep_view()
                + self.conformance_messages(),
    {
        let unique = self.are_axis_names_unique(warnings);
        let known = self.are_axis_names_known(warnings);
        proof {
            assert(warnings.deep_view() =~= old(warnings).deep_view()
                + self.conformance_messages());
        }
        unique && known
    }

    /// The aggregate conformance verdict together with every diagnostic the
    /// rule checks emitted.
    pub fn validate(&self) -> (r: (bool, Vec<String>))
        ensures
            r.0 == self.conforms(),
            r.1.deep_view() == self.conformance_messages(),
    {
        let mut warnings: Vec<String> = Vec::new();
        let ok = self.are_axis_names_valid(&mut warnings);
        proof {
            assert(warnings.deep_view() =~= self.conformance_messages());
        }
        (ok, warnings)
    }
}

impl IsValid for Multiscale {
    open spec fn valid_spec(&self) -> bool {
        self.conforms()
    }

    fn is_valid(&self) -> (r: bool)
        ensures
            r == self.valid_spec(),
    {
        let mut warnings: Vec<String> = Vec::new();
        self.are_axis_names_valid(&mut warnings)
    }
}

impl Axes for Multiscale {
    fn get_space_axes(&self) -> (r: Vec<SpaceAxis>)
        ensures
            r@ == self.spec_space_axes(),
    {
        let mut out: Vec<SpaceAxis> = Vec::new();
        let mut i: usize = 0;
        while i < self.axes.len()
            invariant
                i <= self.codes().len(),
                out@ == space_axes_of(self.codes().take(i as int)),
            decreases self.codes().len() - i,
        {
            match SpaceAxis::from_str(self.axes[i].as_str()) {
                Ok(axis) => {
                    out.push(axis);
                },
                Err(_) => {
                },
            }
            proof {
                assert(self.codes().take(i + 1).drop_last() =~= self.codes().take(i as int));
            }
            i = i + 1;
        }
        proof {
            assert(self.codes().take(self.codes().len() as int) =~= self.codes());
        }
        out
    }

    fn get_time_axes(&self) -> (r: Vec<TimeAxis>)
        ensures
            r@ == self.spec_time_axes(),
    {
        if contains_code(&self.axes, "t") {
            let mut out: Vec<TimeAxis> = Vec::new();
            out.push(TimeAxis);
            proof {
                assert(out@ =~= seq![TimeAxis]);
            }
            out
        } else {
            Vec::new()
        }
    }

    fn get_channel_axes(&self) -> (r: Vec<ChannelAxis>)
        ensures
            r@ == self.spec_channel_axes(),
    {
        if contains_code(&self.axes, "c") {
            let mut out: Vec<ChannelAxis> = Vec::new();
            out.push(ChannelAxis);
            proof {
                assert(out@ =~= seq![ChannelAxis]);
            }
            out
        } else {
            Vec::new()
        }
    }

    /// This revision's vocabulary has no custom codes, so no custom axis can
    /// ever be present.
    fn get_custom_axes(&self) -> (r: Vec<CustomAxis>)
        ensures
            r@ == Seq::<CustomAxis>::empty(),
    {
        Vec::new()
    }

    fn get_time_axis(&self) -> (r: Option<TimeAxis>)
        ensures
            r == self.spec_time_axis(),
    {
        if contains_code(&self.axes, "t") {
            Some(TimeAxis)
        } else {
            None
        }
    }

    fn get_channel_axis(&self) -> (r: Option<ChannelAxis>)
        ensures
            r == self.spec_channel_axis(),
    {
        if contains_code(&self.axes, "c") {
            Some(ChannelAxis)
        } else {
            None
        }
    }

    fn get_custom_axis(&self) -> (r: Option<CustomAxis>)
        ensures
            r is None,
    {
        None
    }
}

} // verus!
