//! The axes capability interface and the versioned multiscale dispatcher.
//!
//! [`Axes`] is the uniform query contract every revision schema implements;
//! each method defaults to "empty/absent", so a revision only overrides the
//! queries its own representation can answer. [`Multiscale`] wraps exactly
//! one revision's document and forwards every query to it.

use vstd::prelude::*;
use crate::axis::{ChannelAxis, CustomAxis, SpaceAxis, TimeAxis};
use crate::util::IsValid;
use crate::v0_2;
use crate::v0_3;
use crate::v0_4;

verus! {

/// Uniform axis queries over any revision's document.
///
/// Every method has a default body returning the empty sequence or the
/// absent value: a revision that structurally cannot represent an axis kind
/// reports "none present" by design, never an error.
pub trait Axes {
    fn get_space_axes(&self) -> (r: Vec<SpaceAxis>)
        default_ensures
            r@ == Seq::<SpaceAxis>::empty(),
    {
        Vec::new()
    }

    fn get_time_axes(&self) -> (r: Vec<TimeAxis>)
        default_ensures
            r@ == Seq::<TimeAxis>::empty(),
    {
        Vec::new()
    }

    fn get_channel_axes(&self) -> (r: Vec<ChannelAxis>)
        default_ensures
            r@ == Seq::<ChannelAxis>::empty(),
    {
        Vec::new()
    }

    fn get_custom_axes(&self) -> (r: Vec<CustomAxis>)
        default_ensures
            r@ == Seq::<CustomAxis>::empty(),
    {
        Vec::new()
    }

    fn get_time_axis(&self) -> (r: Option<TimeAxis>)
        default_ensures
            r is None,
    {
        None
    }

    fn get_channel_axis(&self) -> (r: Option<ChannelAxis>)
        default_ensures
            r is None,
    {
        None
    }

    fn get_custom_axis(&self) -> (r: Option<CustomAxis>)
        default_ensures
            r is None,
    {
        None
    }
}

/// A multiscale document of exactly one supported schema revision, tagged
/// by its version string. Version selection happens at the document's parse
/// boundary, before a value of this type exists: no "unknown version" state
/// is representable.
pub enum Multiscale {
    V0_4(v0_4::Multiscale),
    V0_3(v0_3::Multiscale),
    V0_2(v0_2::Multiscale),
}

impl Multiscale {
    /// The version tag of the wrapped revision schema.
    pub open spec fn version_spec(&self) -> Seq<char> {
        match self {
            Multiscale::V0_4(_) => "0.4"@,
            Multiscale::V0_3(_) => "0.3"@,
            Multiscale::V0_2(_) => "0.2"@,
        }
    }

    pub fn version(&self) -> (r: &'static str)
        ensures
            r@ == self.version_spec(),
    {
        match self {
            Multiscale::V0_4(_) => "0.4",
            Multiscale::V0_3(_) => "0.3",
            Multiscale::V0_2(_) => "0.2",
        }
    }

    pub open spec fn spec_space_axes(&self) -> Seq<SpaceAxis> {
        match self {
            Multiscale::V0_4(m) => m.spec_space_axes(),
            Multiscale::V0_3(m) => m.spec_space_axes(),
            Multiscale::V0_2(_) => Seq::empty(),
        }
    }

    pub open spec fn spec_time_axes(&self) -> Seq<TimeAxis> {
        match self {
            Multiscale::V0_4(m) => m.spec_time_axes(),
            Multiscale::V0_3(m) => m.spec_time_axes(),
            Multiscale::V0_2(_) => Seq::empty(),
        }
    }

    pub open spec fn spec_channel_axes(&self) -> Seq<ChannelAxis> {
        match self {
            Multiscale::V0_4(m) => m.spec_channel_axes(),
            Multiscale::V0_3(m) => m.spec_channel_axes(),
            Multiscale::V0_2(_) => Seq::empty(),
        }
    }

    pub open spec fn spec_custom_axes(&self) -> Seq<CustomAxis> {
        match self {
            Multiscale::V0_4(m) => m.spec_custom_axes(),
            Multiscale::V0_3(_) => Seq::empty(),
            Multiscale::V0_2(_) => Seq::empty(),
        }
    }

    pub open spec fn spec_time_axis(&self) -> Option<TimeAxis> {
        match self {
            Multiscale::V0_4(m) => m.spec_time_axis(),
            Multiscale::V0_3(m) => m.spec_time_axis(),
            Multiscale::V0_2(_) => None,
        }
    }

    pub open spec fn spec_channel_axis(&self) -> Option<ChannelAxis> {
        match self {
            Multiscale::V0_4(m) => m.spec_channel_axis(),
            Multiscale::V0_3(m) => m.spec_channel_axis(),
            Multiscale::V0_2(_) => None,
        }
    }

    pub open spec fn spec_custom_axis(&self) -> Option<CustomAxis> {
        match self {
            Multiscale::V0_4(m) => m.spec_custom_axis(),
            Multiscale::V0_3(_) => None,
            Multiscale::V0_2(_) => None,
        }
    }

    /// Whether the wrapped document conforms to its own revision's rules.
    pub open spec fn conforms(&self) -> bool {
        match self {
            Multiscale::V0_4(m) => m.conforms(),
            Multiscale::V0_3(m) => m.conforms(),
            Multiscale::V0_2(_) => true,
        }
    }

    /// The diagnostics the wrapped revision's conformance check emits.
    pub open spec fn conformance_messages(&self) -> Seq<Seq<char>> {
        match self {
            Multiscale::V0_4(m) => m.conformance_messages(),
            Multiscale::V0_3(m) => m.conformance_messages(),
            Multiscale::V0_2(_) => Seq::empty(),
        }
    }

    /// The aggregate conformance verdict together with every diagnostic the
    /// wrapped revision's rule checks emitted.
    pub fn validate(&self) -> (r: (bool, Vec<String>))
        ensures
            r.0 == self.conforms(),
            r.1.deep_view() == self.conformance_messages(),
    {
        match self {
            Multiscale::V0_4(m) => m.validate(),
            Multiscale::V0_3(m) => m.validate(),
            Multiscale::V0_2(m) => m.validate(),
        }
    }
}

impl IsValid for Multiscale {
    open spec fn valid_spec(&self) -> bool {
        self.conforms()
    }

    fn is_valid(&self) -> (r: bool)
        ensures
            r == self.valid_spec(),
    {
        match self {
            Multiscale::V0_4(m) => m.is_valid(),
            Multiscale::V0_3(m) => m.is_valid(),
            Multiscale::V0_2(m) => m.is_valid(),
        }
    }
}

impl Axes for Multiscale {
    fn get_space_axes(&self) -> (r: Vec<SpaceAxis>)
        ensures
            r@ == self.spec_space_axes(),
    {
        match self {
            Multiscale::V0_4(m) => m.get_space_axes(),
            Multiscale::V0_3(m) => m.get_space_axes(),
            Multiscale::V0_2(m) => m.get_space_axes(),
        }
    }

    fn get_time_axes(&self) -> (r: Vec<TimeAxis>)
        ensures
            r@ == self.spec_time_axes(),
    {
        match self {
            Multiscale::V0_4(m) => m.get_time_axes(),
            Multiscale::V0_3(m) => m.get_time_axes(),
            Multiscale::V0_2(m) => m.get_time_axes(),
        }
    }

    fn get_channel_axes(&self) -> (r: Vec<ChannelAxis>)
        ensures
            r@ == self.spec_channel_axes(),
    {
        match self {
            Multiscale::V0_4(m) => m.get_channel_axes(),
            Multiscale::V0_3(m) => m.get_channel_axes(),
            Multiscale::V0_2(m) => m.get_channel_axes(),
        }
    }

    fn get_custom_axes(&self) -> (r: Vec<CustomAxis>)
        ensures
            r@ == self.spec_custom_axes(),
    {
        match self {
            Multiscale::V0_4(m) => m.get_custom_axes(),
            Multiscale::V0_3(m) => m.get_custom_axes(),
            Multiscale::V0_2(m) => m.get_custom_axes(),
        }
    }

    fn get_time_axis(&self) -> (r: Option<TimeAxis>)
        ensures
            r == self.spec_time_axis(),
    {
        match self {
            Multiscale::V0_4(m) => m.get_time_axis(),
            Multiscale::V0_3(m) => m.get_time_axis(),
            Multiscale::V0_2(m) => m.get_time_axis(),
        }
    }

    fn get_channel_axis(&self) -> (r: Option<ChannelAxis>)
        ensures
            r == self.spec_channel_axis(),
    {
        match self {
            Multiscale::V0_4(m) => m.get_channel_axis(),
            Multiscale::V0_3(m) => m.get_channel_axis(),
            Multiscale::V0_2(m) => m.get_channel_axis(),
        }
    }

    fn get_custom_axis(&self) -> (r: Option<CustomAxis>)
        ensures
            r == self.spec_custom_axis(),
    {
        match self {
            Multiscale::V0_4(m) => m.get_custom_axis(),
            Multiscale::V0_3(m) => m.get_custom_axis(),
            Multiscale::V0_2(m) => m.get_custom_axis(),
        }
    }
}

/// Dispatch-totality law for revision `0.2`: wrapping a document changes no
/// query's meaning — every axis query and the conformance verdict of the
/// wrapped value are exactly those of the unwrapped schema, which reports
/// every axis kind absent and no rule violations.
pub proof fn lemma_dispatch_total_v0_2(m: v0_2::Multiscale)
    ensures
        Multiscale::V0_2(m).spec_space_axes() == Seq::<SpaceAxis>::empty(),
        Multiscale::V0_2(m).spec_time_axes() == Seq::<TimeAxis>::empty(),
        Multiscale::V0_2(m).spec_channel_axes() == Seq::<ChannelAxis>::empty(),
        Multiscale::V0_2(m).spec_custom_axes() == Seq::<CustomAxis>::empty(),
        Multiscale::V0_2(m).spec_time_axis() is None,
        Multiscale::V0_2(m).spec_channel_axis() is None,
        Multiscale::V0_2(m).spec_custom_axis() is None,
        Multiscale::V0_2(m).conforms() == m.valid_spec(),
        Multiscale::V0_2(m).conformance_messages() == Seq::<Seq<char>>::empty(),
        Multiscale::V0_2(m).version_spec() == "0.2"@,
{
}

/// Dispatch-totality law for revision `0.3`: wrapping a document changes no
/// query's meaning — every axis query and the conformance verdict of the
/// wrapped value are exactly those of the unwrapped schema.
pub proof fn lemma_dispatch_total_v0_3(m: v0_3::Multiscale)
    ensures
        Multiscale::V0_3(m).spec_space_axes() == m.spec_space_axes(),
        Multiscale::V0_3(m).spec_time_axes() == m.spec_time_axes(),
        Multiscale::V0_3(m).spec_channel_axes() == m.spec_channel_axes(),
        Multiscale::V0_3(m).spec_custom_axes() == Seq::<CustomAxis>::empty(),
        Multiscale::V0_3(m).spec_time_axis() == m.spec_time_axis(),
        Multiscale::V0_3(m).spec_channel_axis() == m.spec_channel_axis(),
        Multiscale::V0_3(m).spec_custom_axis() is None,
        Multiscale::V0_3(m).conforms() == m.conforms(),
        Multiscale::V0_3(m).conformance_messages() == m.conformance_messages(),
        Multiscale::V0_3(m).version_spec() == "0.3"@,
{
}

/// Dispatch-totality law for revision `0.4`: wrapping a document changes no
/// query's meaning — every axis query and the conformance verdict of the
/// wrapped value are exactly those of the unwrapped schema.
pub proof fn lemma_dispatch_total_v0_4(m: v0_4::Multiscale)
    ensures
        Multiscale::V0_4(m).spec_space_axes() == m.spec_space_axes(),
        Multiscale::V0_4(m).spec_time_axes() == m.spec_time_axes(),
        Multiscale::V0_4(m).spec_channel_axes() == m.spec_channel_axes(),
        Multiscale::V0_4(m).spec_custom_axes() == m.spec_custom_axes(),
        Multiscale::V0_4(m).spec_time_axis() == m.spec_time_axis(),
        Multiscale::V0_4(m).spec_channel_axis() == m.spec_channel_axis(),
        Multiscale::V0_4(m).spec_custom_axis() == m.spec_custom_axis(),
        Multiscale::V0_4(m).conforms() == m.conforms(),
        Multiscale::V0_4(m).conformance_messages() == m.conformance_messages(),
        Multiscale::V0_4(m).version_spec() == "0.4"@,
{
}

} // verus!
