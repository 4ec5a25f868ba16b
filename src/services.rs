//! Services installed inside a container. Isolated service registration is
//! not available yet: a registration is accepted and recorded by the host's
//! log only.

use vstd::prelude::*;

verus! {

pub struct ServiceSandbox;

impl ServiceSandbox {
    pub fn new() -> Self {
        ServiceSandbox
    }

    /// Accepts the placeholder registration of service `name`; it never
    /// fails.
    pub fn register_placeholder(&self, name: &str) -> (r: Result<(), String>)
        ensures
            r is Ok,
    {
        Ok(())
    }
}

} // verus!
