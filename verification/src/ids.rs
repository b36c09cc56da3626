//! Session, runtime and queue identifiers.
use vstd::prelude::*;
use vstd::string::*;
use crate::text::str_eq;

verus! {

/// The session and runtime a message concerns.
#[derive(Debug, Default, Clone, Hash, PartialEq, Eq)]
pub struct InstanceId {
    pub session_id: String,
    pub runtime_id: String,
}

impl View for InstanceId {
    type V = (Seq<char>, Seq<char>);

    open spec fn view(&self) -> (Seq<char>, Seq<char>) {
        (self.session_id@, self.runtime_id@)
    }
}

impl InstanceId {
    /// An identifier for the given session and runtime.
    pub fn new(session_id: &str, runtime_id: &str) -> (res: Self)
        ensures
            res@ == (session_id@, runtime_id@),
    {
        InstanceId { session_id: session_id.to_owned(), runtime_id: runtime_id.to_owned() }
    }

    /// Whether both identifiers name the same session and runtime.
    pub fn same_as(&self, other: &Self) -> (res: bool)
        ensures
            res == (self@ == other@),
    {
        str_eq(self.session_id.as_str(), other.session_id.as_str()) && str_eq(
            self.runtime_id.as_str(),
            other.runtime_id.as_str(),
        )
    }
}

/// Identifies one queue of a runtime.
#[derive(Debug, Default, Copy, Clone, Hash, PartialEq, Eq, Structural)]
pub struct QueueId {
    pub inner: u64,
}

/// A random integer in `1..u64::MAX` (`rand::thread_rng().gen_range(1u64..u64::MAX)`).
#[verifier::external_body]
fn random_queue_number() -> (res: u64)
    ensures
        1 <= res < u64::MAX,
{
    rand::Rng::gen_range(&mut rand::thread_rng(), 1u64..u64::MAX)
}

impl QueueId {
    /// A fresh random queue identifier, between 1 and `u64::MAX` exclusive.
    pub fn new_unique() -> (res: Self)
        ensures
            1 <= res.inner < u64::MAX,
    {
        QueueId { inner: random_queue_number() }
    }
}

impl From<u64> for QueueId {
    fn from(value: u64) -> (res: QueueId) {
        QueueId { inner: value }
    }
}

impl vstd::std_specs::convert::FromSpecImpl<u64> for QueueId {
    open spec fn obeys_from_spec() -> bool {
        true
    }

    open spec fn from_spec(v: u64) -> QueueId {
        QueueId { inner: v }
    }
}

} // verus!
