//! Revision `0.4`: axes are encoded explicitly, as an ordered list of
//! typed, named axis objects. The type field selects the semantic kind
//! (`space`, `time`, `channel`; any other type is a custom kind), and the
//! name carries the axis code.
//!
//! Conformance rules of this revision: axis names must be pairwise
//! distinct; at most one time axis; at most one channel axis; and the space
//! axes must stand contiguously at the end of the list. All rules are
//! checked independently under the "warn, don't fail" policy, and a
//! non-conforming document remains fully usable for axis extraction.

use vstd::prelude::*;
use crate::axis::{ChannelAxis, CustomAxis, SpaceAxis, TimeAxis};
use crate::multiscale::Axes;
use crate::util::{IsValid, str_eq, warn_unless};

verus! {

/// Diagnostic recorded when two axes share one name.
pub const NAME_UNIQUENESS_MESSAGE: &'static str =
    "The spec states: The values of the \"name\" fields MUST be unique.";

/// Diagnostic recorded when more than one axis has type `time`.
pub const TIME_COUNT_MESSAGE: &'static str =
    "The spec states: There MUST be at most one axis of type \"time\".";

/// Diagnostic recorded when more than one axis has type `channel`.
pub const CHANNEL_COUNT_MESSAGE: &'static str =
    "The spec states: There MUST be at most one axis of type \"channel\".";

/// Diagnostic recorded when a non-space axis follows a space axis.
pub const SPACE_ORDER_MESSAGE: &'static str =
    "The spec states: The axes of type \"space\" MUST be last.";

pub open spec fn is_space_type(axis_type: Seq<char>) -> bool {
    axis_type == "space"@
}

pub open spec fn is_time_type(axis_type: Seq<char>) -> bool {
    axis_type == "time"@
}

pub open spec fn is_channel_type(axis_type: Seq<char>) -> bool {
    axis_type == "channel"@
}

/// Any type not claimed by the three built-in kinds is a custom kind.
pub open spec fn is_custom_type(axis_type: Seq<char>) -> bool {
    !is_space_type(axis_type) && !is_time_type(axis_type) && !is_channel_type(axis_type)
}

/// One explicitly typed, named axis of a revision-`0.4` document.
pub struct Axis {
    pub name: String,
    /// The semantic kind of the axis; serialized under the key `type`.
    pub axis_type: String,
}

/// One resolution level of the pyramid, naming its storage path relative to
/// the document.
pub struct Dataset {
    pub path: String,
}

/// The raw shape of a revision-`0.4` multiscale document.
pub struct Multiscale {
    pub name: Option<String>,
    pub axes: Vec<Axis>,
    pub datasets: Vec<Dataset>,
    /// Downscaling method identifier; serialized under the key `type`.
    pub downscaling_type: Option<String>,
    /// Opaque method parameters whose shape depends on `downscaling_type`.
    pub metadata: Option<serde_json::Value>,
}

/// The spatial axes named by an axis list, in document order: one entry per
/// space-typed axis whose name parses as a spatial code.
pub open spec fn space_axes_of(axes: Seq<Axis>) -> Seq<SpaceAxis>
    decreases axes.len(),
{
    if axes.len() == 0 {
        Seq::empty()
    } else {
        let init = space_axes_of(axes.drop_last());
        if is_space_type(axes.last().axis_type@) && SpaceAxis::spec_parse(axes.last().name@)
            is Ok {
            init.push(SpaceAxis::spec_parse(axes.last().name@)->Ok_0)
        } else {
            init
        }
    }
}

/// The time axes of an axis list: one entry per time-typed axis.
pub open spec fn time_axes_of(axes: Seq<Axis>) -> Seq<TimeAxis>
    decreases axes.len(),
{
    if axes.len() == 0 {
        Seq::empty()
    } else {
        let init = time_axes_of(axes.drop_last());
        if is_time_type(axes.last().axis_type@) {
            init.push(TimeAxis)
        } else {
            init
        }
    }
}

/// The channel axes of an axis list: one entry per channel-typed axis.
pub open spec fn channel_axes_of(axes: Seq<Axis>) -> Seq<ChannelAxis>
    decreases axes.len(),
{
    if axes.len() == 0 {
        Seq::empty()
    } else {
        let init = channel_axes_of(axes.drop_last());
        if is_channel_type(axes.last().axis_type@) {
            init.push(ChannelAxis)
        } else {
            init
        }
    }
}

/// The custom axes of an axis list, in document order: one entry per axis
/// of a custom type, carrying that axis's name.
pub open spec fn custom_axes_of(axes: Seq<Axis>) -> Seq<CustomAxis>
    decreases axes.len(),
{
    if axes.len() == 0 {
        Seq::empty()
    } else {
        let init = custom_axes_of(axes.drop_last());
        if is_custom_type(axes.last().axis_type@) {
            init.push(CustomAxis { name: axes.last().name })
        } else {
            init
        }
    }
}

/// The first custom-typed axis of the list, if any.
pub open spec fn first_custom_of(axes: Seq<Axis>) -> Option<CustomAxis>
    decreases axes.len(),
{
    if axes.len() == 0 {
        None
    } else if is_custom_type(axes.first().axis_type@) {
        Some(CustomAxis { name: axes.first().name })
    } else {
        first_custom_of(axes.drop_first())
    }
}

/// How many axes of the list are time-typed.
pub open spec fn time_count(axes: Seq<Axis>) -> nat
    decreases axes.len(),
{
    if axes.len() == 0 {
        0
    } else {
        time_count(axes.drop_last()) + (if is_time_type(axes.last().axis_type@) {
            1nat
        } else {
            0nat
        })
    }
}

/// How many axes of the list are channel-typed.
pub open spec fn channel_count(axes: Seq<Axis>) -> nat
    decreases axes.len(),
{
    if axes.len() == 0 {
        0
    } else {
        channel_count(axes.drop_last()) + (if is_channel_type(axes.last().axis_type@) {
            1nat
        } else {
            0nat
        })
    }
}

impl Multiscale {
    /// Rule 1 of this revision: axis names are pairwise distinct.
    pub open spec fn axis_names_unique_spec(&self) -> bool {
        forall|i: int, j: int|
            0 <= i < j < self.axes@.len() ==> self.axes@[i].name@ != self.axes@[j].name@
    }

    /// Rule 2 of this revision: at most one time axis.
    pub open spec fn at_most_one_time_spec(&self) -> bool {
        time_count(self.axes@) <= 1
    }

    /// Rule 3 of this revision: at most one channel axis.
    pub open spec fn at_most_one_channel_spec(&self) -> bool {
        channel_count(self.axes@) <= 1
    }

    /// Rule 4 of this revision: every axis after a space-typed axis is
    /// itself space-typed, so the space axes stand contiguously at the end.
    pub open spec fn space_axes_last_spec(&self) -> bool {
        forall|i: int, j: int|
            0 <= i < j < self.axes@.len() && is_space_type(self.axes@[i].axis_type@)
                ==> is_space_type(self.axes@[j].axis_type@)
    }

    /// A document conforms exactly when all four rules hold.
    pub open spec fn conforms(&self) -> bool {
        self.axis_names_unique_spec() && self.at_most_one_time_spec()
            && self.at_most_one_channel_spec() && self.space_axes_last_spec()
    }

    /// The diagnostics conformance checking emits, in rule order: one
    /// message per violated rule, none for a rule that holds.
    pub open spec fn conformance_messages(&self) -> Seq<Seq<char>> {
        let names = if self.axis_names_unique_spec() {
            Seq::<Seq<char>>::empty()
        } else {
            seq![NAME_UNIQUENESS_MESSAGE@]
        };
        let time = if self.at_most_one_time_spec() {
            Seq::<Seq<char>>::empty()
        } else {
            seq![TIME_COUNT_MESSAGE@]
        };
        let channel = if self.at_most_one_channel_spec() {
            Seq::<Seq<char>>::empty()
        } else {
            seq![CHANNEL_COUNT_MESSAGE@]
        };
        let order = if self.space_axes_last_spec() {
            Seq::<Seq<char>>::empty()
        } else {
            seq![SPACE_ORDER_MESSAGE@]
        };
        names + time + channel + order
    }

    pub open spec fn spec_space_axes(&self) -> Seq<SpaceAxis> {
        space_axes_of(self.axes@)
    }

    pub open spec fn spec_time_axes(&self) -> Seq<TimeAxis> {
        time_axes_of(self.axes@)
    }

    pub open spec fn spec_channel_axes(&self) -> Seq<ChannelAxis> {
        channel_axes_of(self.axes@)
    }

    pub open spec fn spec_custom_axes(&self) -> Seq<CustomAxis> {
        custom_axes_of(self.axes@)
    }

    pub open spec fn spec_time_axis(&self) -> Option<TimeAxis> {
        if time_count(self.axes@) > 0 {
            Some(TimeAxis)
        } else {
            None
        }
    }

    pub open spec fn spec_channel_axis(&self) -> Option<ChannelAxis> {
        if channel_count(self.axes@) > 0 {
            Some(ChannelAxis)
        } else {
            None
        }
    }

    pub open spec fn spec_custom_axis(&self) -> Option<CustomAxis> {
        first_custom_of(self.axes@)
    }
}

/// Uniqueness law: a document in which two axes share one name never
/// conforms, whatever their types.
pub proof fn lemma_duplicate_name_invalidates(m: Multiscale, i: int, j: int)
    requires
        0 <= i < j < m.axes@.len(),
        m.axes@[i].name@ == m.axes@[j].name@,
    ensures
        !m.conforms(),
{
}

/// Whether the axis's type field has the given characters.
fn axis_type_is(axis: &Axis, axis_type: &str) -> (r: bool)
    ensures
        r == (axis.axis_type@ == axis_type@),
{
    str_eq(axis.axis_type.as_str(), axis_type)
}

impl Multiscale {
    fn are_axis_names_unique(&self, warnings: &mut Vec<String>) -> (r: bool)
        ensures
            r == self.axis_names_unique_spec(),
            r ==> final(warnings).deep_view() == old(warnings).deep_view(),
            !r ==> final(warnings).deep_view() == old(warnings).deep_view().push(
                NAME_UNIQUENESS_MESSAGE@,
            ),
    {
        let mut unique = true;
        let mut i: usize = 0;
        while i < self.axes.len()
            invariant
                i <= self.axes@.len(),
                unique == (forall|p: int, q: int|
                    0 <= p < q < i ==> self.axes@[p].name@ != self.axes@[q].name@),
            decreases self.axes@.len() - i,
        {
            let mut fresh = true;
            let mut j: usize = 0;
            while j < i
                invariant
                    j <= i < self.axes@.len(),
                    fresh == (forall|p: int|
                        0 <= p < j ==> self.axes@[p].name@ != self.axes@[i as int].name@),
                decreases i - j,
            {
                let clash = str_eq(self.axes[j].name.as_str(), self.axes[i].name.as_str());
                fresh = fresh && !clash;
                j = j + 1;
            }
            proof {
                if unique && fresh {
                    assert forall|p: int, q: int| 0 <= p < q < i + 1 implies self.axes@[p].name@
                        != self.axes@[q].name@ by {
                        if q < i {
                        } else {
                            assert(self.axes@[p].name@ != self.axes@[i as int].name@);
                        }
                    }
                }
            }
            unique = unique && fresh;
            i = i + 1;
        }
        warn_unless(unique, NAME_UNIQUENESS_MESSAGE, warnings)
    }

    fn has_at_most_one_time(&self, warnings: &mut Vec<String>) -> (r: bool)
        ensures
            r == self.at_most_one_time_spec(),
            r ==> final(warnings).deep_view() == old(warnings).deep_view(),
            !r ==> final(warnings).deep_view() == old(warnings).deep_view().push(
                TIME_COUNT_MESSAGE@,
            ),
    {
        let mut count: usize = 0;
        let mut i: usize = 0;
        while i < self.axes.len()
            invariant
                i <= self.axes@.len(),
                count == time_count(self.axes@.take(i as int)),
                count <= i,
            decreases self.axes@.len() - i,
        {
            proof {
                assert(self.axes@.take(i + 1).drop_last() =~= self.axes@.take(i as int));
            }
            if axis_type_is(&self.axes[i], "time") {
                count = count + 1;
            }
            i = i + 1;
        }
        proof {
            assert(self.axes@.take(self.axes@.len() as int) =~= self.axes@);
        }
        warn_unless(count <= 1, TIME_COUNT_MESSAGE, warnings)
    }

    fn has_at_most_one_channel(&self, warnings: &mut Vec<String>) -> (r: bool)
        ensures
            r == self.at_most_one_channel_spec(),
            r ==> final(warnings).deep_view() == old(warnings).deep_view(),
            !r ==> final(warnings).deep_view() == old(warnings).deep_view().push(
                CHANNEL_COUNT_MESSAGE@,
            ),
    {
        let mut count: usize = 0;
        let mut i: usize = 0;
        while i < self.axes.len()
            invariant
                i <= self.axes@.len(),
                count == channel_count(self.axes@.take(i as int)),
                count <= i,
            decreases self.axes@.len() - i,
        {
            proof {
                assert(self.axes@.take(i + 1).drop_last() =~= self.axes@.take(i as int));
            }
            if axis_type_is(&self.axes[i], "channel") {
                count = count + 1;
            }
            i = i + 1;
        }
        proof {
            assert(self.axes@.take(self.axes@.len() as int) =~= self.axes@);
        }
        warn_unless(count <= 1, CHANNEL_COUNT_MESSAGE, warnings)
    }

    fn are_space_axes_last(&self, warnings: &mut Vec<String>) -> (r: bool)
        ensures
            r == self.space_axes_last_spec(),
            r ==> final(warnings).deep_view() == old(warnings).deep_view(),
            !r ==> final(warnings).deep_view() == old(warnings).deep_view().push(
                SPACE_ORDER_MESSAGE@,
            ),
    {
        let mut seen_space = false;
        let mut ordered = true;
        let mut i: usize = 0;
        while i < self.axes.len()
            invariant
                i <= self.axes@.len(),
                seen_space == (exists|k: int|
                    0 <= k < i && is_space_type(self.axes@[k].axis_type@)),
                ordered == (forall|p: int, q: int|
                    0 <= p < q < i && is_space_type(self.axes@[p].axis_type@)
                        ==> is_space_type(self.axes@[q].axis_type@)),
            decreases self.axes@.len() - i,
        {
            let space = axis_type_is(&self.axes[i], "space");
            proof {
                if ordered && (!seen_space || space) {
                    assert forall|p: int, q: int|
                        0 <= p < q < i + 1 && is_space_type(self.axes@[p].axis_type@)
                            implies is_space_type(self.axes@[q].axis_type@) by {
                        if q < i {
                        } else {
                            assert(is_space_type(self.axes@[q].axis_type@));
                        }
                    }
                }
                if space {
                    assert(exists|k: int|
                        0 <= k < i + 1 && is_space_type(self.axes@[k].axis_type@)) by {
                        assert(is_space_type(self.axes@[i as int].axis_type@));
                    }
                }
            }
            if seen_space && !space {
                ordered = false;
            }
            seen_space = seen_space || space;
            i = i + 1;
        }
        warn_unless(ordered, SPACE_ORDER_MESSAGE, warnings)
    }

    /// Evaluates all four of this revision's rules, in rule order, appending
    /// one diagnostic per violated rule; a failed rule never stops
    /// evaluation.
    fn are_axes_valid(&self, warnings: &mut Vec<String>) -> (r: bool)
        ensures
            r == self.conforms(),
            final(warnings).deep_view() == old(warnings).deep_view()
                + self.conformance_messages(),
    {
        let unique = self.are_axis_names_unique(warnings);
        let time = self.has_at_most_one_time(warnings);
        let channel = self.has_at_most_one_channel(warnings);
        let ordered = self.are_space_axes_last(warnings);
        proof {
            assert(warnings.deep_view() =~= old(warnings).deep_view()
                + self.conformance_messages());
        }
        unique && time && channel && ordered
    }

    /// The aggregate conformance verdict together with every diagnostic the
    /// rule checks emitted.
    pub fn validate(&self) -> (r: (bool, Vec<String>))
        ensures
            r.0 == self.conforms(),
            r.1.deep_view() == self.conformance_messages(),
    {
        let mut warnings: Vec<String> = Vec::new();
        let ok = self.are_axes_valid(&mut warnings);
        proof {
            assert(warnings.deep_view() =~= self.conformance_messages());
        }
        (ok, warnings)
    }
}

impl IsValid for Multiscale {
    open spec fn valid_spec(&self) -> bool {
        self.conforms()
    }

    fn is_valid(&self) -> (r: bool)
        ensures
            r == self.valid_spec(),
    {
        let mut warnings: Vec<String> = Vec::new();
        self.are_axes_valid(&mut warnings)
    }
}

impl Axes for Multiscale {
    fn get_space_axes(&self) -> (r: Vec<SpaceAxis>)
        ensures
            r@ == self.spec_space_axes(),
    {
        let mut out: Vec<SpaceAxis> = Vec::new();
        let mut i: usize = 0;
        while i < self.axes.len()
            invariant
                i <= self.axes@.len(),
                out@ == space_axes_of(self.axes@.take(i as int)),
            decreases self.axes@.len() - i,
        {
            if axis_type_is(&self.axes[i], "space") {
                match SpaceAxis::from_str(self.axes[i].name.as_str()) {
                    Ok(axis) => {
                        out.push(axis);
                    },
                    Err(_) => {
                    },
                }
            }
            proof {
                assert(self.axes@.take(i + 1).drop_last() =~= self.axes@.take(i as int));
            }
            i = i + 1;
        }
        proof {
            assert(self.axes@.take(self.axes@.len() as int) =~= self.axes@);
        }
        out
    }

    fn get_time_axes(&self) -> (r: Vec<TimeAxis>)
        ensures
            r@ == self.spec_time_axes(),
    {
        let mut out: Vec<TimeAxis> = Vec::new();
        let mut i: usize = 0;
        while i < self.axes.len()
            invariant
                i <= self.axes@.len(),
                out@ == time_axes_of(self.axes@.take(i as int)),
            decreases self.axes@.len() - i,
        {
            if axis_type_is(&self.axes[i], "time") {
                out.push(TimeAxis);
            }
            proof {
                assert(self.axes@.take(i + 1).drop_last() =~= self.axes@.take(i as int));
            }
            i = i + 1;
        }
        proof {
            assert(self.axes@.take(self.axes@.len() as int) =~= self.axes@);
        }
        out
    }

    fn get_channel_axes(&self) -> (r: Vec<ChannelAxis>)
        ensures
            r@ == self.spec_channel_axes(),
    {
        let mut out: Vec<ChannelAxis> = Vec::new();
        let mut i: usize = 0;
        while i < self.axes.len()
            invariant
                i <= self.axes@.len(),
                out@ == channel_axes_of(self.axes@.take(i as int)),
            decreases self.axes@.len() - i,
        {
            if axis_type_is(&self.axes[i], "channel") {
                out.push(ChannelAxis);
            }
            proof {
                assert(self.axes@.take(i + 1).drop_last() =~= self.axes@.take(i as int));
            }
            i = i + 1;
        }
        proof {
            assert(self.axes@.take(self.axes@.len() as int) =~= self.axes@);
        }
        out
    }

    fn get_custom_axes(&self) -> (r: Vec<CustomAxis>)
        ensures
            r@ == self.spec_custom_axes(),
    {
        let mut out: Vec<CustomAxis> = Vec::new();
        let mut i: usize = 0;
        while i < self.axes.len()
            invariant
                i <= self.axes@.len(),
                out@ == custom_axes_of(self.axes@.take(i as int)),
            decreases self.axes@.len() - i,
        {
            let space = axis_type_is(&self.axes[i], "space");
            let time = axis_type_is(&self.axes[i], "time");
            let channel = axis_type_is(&self.axes[i], "channel");
            if !space && !time && !channel {
                out.push(CustomAxis { name: self.axes[i].name.clone() });
            }
            proof {
                assert(self.axes@.take(i + 1).drop_last() =~= self.axes@.take(i as int));
            }
            i = i + 1;
        }
        proof {
            assert(self.axes@.take(self.axes@.len() as int) =~= self.axes@);
        }
        out
    }

    fn get_time_axis(&self) -> (r: Option<TimeAxis>)
        ensures
            r == self.spec_time_axis(),
    {
        let mut i: usize = 0;
        while i < self.axes.len()
            invariant
                i <= self.axes@.len(),
                time_count(self.axes@.take(i as int)) == 0,
            decreases self.axes@.len() - i,
        {
            proof {
                assert(self.axes@.take(i + 1).drop_last() =~= self.axes@.take(i as int));
            }
            if axis_type_is(&self.axes[i], "time") {
                proof {
                    lemma_count_le_full_time(self.axes@, i + 1);
                }
                return Some(TimeAxis);
            }
            i = i + 1;
        }
        proof {
            assert(self.axes@.take(self.axes@.len() as int) =~= self.axes@);
        }
        None
    }

    fn get_channel_axis(&self) -> (r: Option<ChannelAxis>)
        ensures
            r == self.spec_channel_axis(),
    {
        let mut i: usize = 0;
        while i < self.axes.len()
            invariant
                i <= self.axes@.len(),
                channel_count(self.axes@.take(i as int)) == 0,
            decreases self.axes@.len() - i,
        {
            proof {
                assert(self.axes@.take(i + 1).drop_last() =~= self.axes@.take(i as int));
            }
            if axis_type_is(&self.axes[i], "channel") {
                proof {
                    lemma_count_le_full_channel(self.axes@, i + 1);
                }
                return Some(ChannelAxis);
            }
            i = i + 1;
        }
        proof {
            assert(self.axes@.take(self.axes@.len() as int) =~= self.axes@);
        }
        None
    }

    fn get_custom_axis(&self) -> (r: Option<CustomAxis>)
        ensures
            r == self.spec_custom_axis(),
    {
        let mut i: usize = 0;
        proof {
            assert(self.axes@.skip(0) =~= self.axes@);
        }
        while i < self.axes.len()
            invariant
                i <= self.axes@.len(),
                first_custom_of(self.axes@) == first_custom_of(self.axes@.skip(i as int)),
            decreases self.axes@.len() - i,
        {
            let space = axis_type_is(&self.axes[i], "space");
            let time = axis_type_is(&self.axes[i], "time");
            let channel = axis_type_is(&self.axes[i], "channel");
            proof {
                assert(self.axes@.skip(i as int).first() == self.axes@[i as int]);
                assert(self.axes@.skip(i as int).drop_first() =~= self.axes@.skip(i + 1));
            }
            if !space && !time && !channel {
                return Some(CustomAxis { name: self.axes[i].name.clone() });
            }
            i = i + 1;
        }
        proof {
            assert(self.axes@.skip(self.axes@.len() as int) =~= Seq::<Axis>::empty());
        }
        None
    }
}

/// A prefix of the axis list holding a time axis puts the whole list's time
/// count above zero.
proof fn lemma_count_le_full_time(axes: Seq<Axis>, i: int)
    requires
        0 <= i <= axes.len(),
        time_count(axes.take(i)) > 0,
    ensures
        time_count(axes) > 0,
    decreases axes.len() - i,
{
    if i == axes.len() {
        assert(axes.take(i) =~= axes);
    } else {
        assert(axes.take(i + 1).drop_last() =~= axes.take(i));
        lemma_count_le_full_time(axes, i + 1);
    }
}

/// A prefix of the axis list holding a channel axis puts the whole list's
/// channel count above zero.
proof fn lemma_count_le_full_channel(axes: Seq<Axis>, i: int)
    requires
        0 <= i <= axes.len(),
        channel_count(axes.take(i)) > 0,
    ensures
        channel_count(axes) > 0,
    decreases axes.len() - i,
{
    if i == axes.len() {
        assert(axes.take(i) =~= axes);
    } else {
        assert(axes.take(i + 1).drop_last() =~= axes.take(i));
        lemma_count_le_full_channel(axes, i + 1);
    }
}

} // verus!
