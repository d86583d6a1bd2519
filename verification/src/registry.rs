//! The Port Registry: the single shared value holding the backend port once
//! it has been discovered. It starts empty, is written by the event-consuming
//! side whenever a port announcement is parsed (the last write wins), and is
//! read any number of times by the host's query interface.

use vstd::prelude::*;

verus! {

/// The optional backend port. Absent means "not yet known".
#[derive(Clone, Copy, Debug, PartialEq, Eq)]
pub struct PortRegistry {
    /// The port the backend reported listening on, if any line announced one.
    pub value: Option<u16>,
}

impl PortRegistry {
    /// An empty registry: no port is known yet.
    pub fn new() -> (r: PortRegistry)
        ensures
            r.value is None,
    {
        PortRegistry { value: None }
    }

    /// Records an announced port. A later announcement overwrites an earlier
    /// one; nothing prevents the backend from reporting twice.
    pub fn publish(&mut self, port: u16)
        ensures
            final(self).value == Some(port),
    {
        self.value = Some(port);
    }

    /// The current port, absent while none has been announced. A plain read
    /// with no side effect; polling it is the caller's business.
    pub fn current(&self) -> (r: Option<u16>)
        ensures
            r == self.value,
    {
        self.value
    }
}

} // verus!
