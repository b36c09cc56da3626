//! Values exchanged over the sidecar interface.
use vstd::prelude::*;

verus! {

/// Whether dynamic instrumentation is on for a service, as the tracer
/// reports it.
#[derive(Debug, Clone, Copy, PartialEq, Eq, Structural)]
pub enum DynamicInstrumentationConfigState {
    Enabled,
    Disabled,
    NotSet,
}

/// Tracer header tags in their serialized form, as they travel to the
/// sidecar with each trace payload.
#[derive(Debug)]
pub struct SerializedTracerHeaderTags {
    data: Vec<u8>,
}

impl View for SerializedTracerHeaderTags {
    type V = Seq<u8>;

    closed spec fn view(&self) -> Seq<u8> {
        self.data@
    }
}

impl SerializedTracerHeaderTags {
    /// Wraps already serialized header tags.
    pub fn from_bytes(data: Vec<u8>) -> (res: Self)
        ensures
            res@ == data@,
    {
        SerializedTracerHeaderTags { data }
    }

    /// The serialized header tags.
    pub fn bytes(&self) -> (res: &Vec<u8>)
        ensures
            res@ == self@,
    {
        &self.data
    }
}

} // verus!
