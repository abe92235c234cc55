//! The sticky external context: the last base address that a hosted
//! application navigated to through the external-proxy entry.
//!
//! One context serves every hosted application. Two applications that browse
//! different external sites at the same time overwrite each other's context:
//! the last navigation wins.

use vstd::prelude::*;

verus! {

/// Single-slot holder of the last externally proxied base address.
///
/// The slot is empty until the first external navigation. A later navigation
/// overwrites it; nothing else clears it.
#[derive(Clone, Debug, PartialEq, Eq)]
pub struct SessionContext {
    pub last_external: Option<String>,
}

impl DeepView for SessionContext {
    type V = Option<Seq<char>>;

    open spec fn deep_view(&self) -> Option<Seq<char>> {
        self.last_external.deep_view()
    }
}

impl View for SessionContext {
    type V = Option<Seq<char>>;

    open spec fn view(&self) -> Option<Seq<char>> {
        self.deep_view()
    }
}

impl SessionContext {
    /// A context that remembers nothing.
    pub fn new() -> (r: SessionContext)
        ensures
            r@ is None,
    {
        SessionContext { last_external: None }
    }

    /// Remembers `target` in place of whatever was remembered before.
    pub fn record(&mut self, target: &str)
        ensures
            final(self)@ == Some(target@),
    {
        self.last_external = Some(target.to_owned());
    }

    /// The remembered address, if any.
    pub fn current(&self) -> (r: Option<&str>)
        ensures
            r.deep_view() == self@,
    {
        match &self.last_external {
            Some(target) => Some(target.as_str()),
            None => None,
        }
    }
}

} // verus!
