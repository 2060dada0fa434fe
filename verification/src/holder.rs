//! The global state holder's lifecycle: a cell that starts uninitialized,
//! is filled exactly once, and afterwards hands the same stored
//! configuration to every reader. The process-wide placement of one such
//! cell behind a lazy one-time-initialization guard is the embedding
//! program's work; the lifecycle itself is stated and checked here.

use vstd::prelude::*;
use crate::models::GlobalConfig;

verus! {

/// A write-once configuration cell. `install` is allowed only while the
/// cell is uninitialized, so the stored value can never be replaced, and
/// `get` returns exactly the stored value on every read.
pub struct ConfigHolder {
    value: Option<GlobalConfig>,
}

impl ConfigHolder {
    /// Whether the one-time initialization has happened.
    pub closed spec fn initialized(self) -> bool {
        self.value is Some
    }

    /// The configuration stored at initialization.
    pub closed spec fn stored(self) -> GlobalConfig
        recommends
            self.initialized(),
    {
        self.value->0
    }

    /// A fresh, uninitialized holder.
    pub fn new() -> (r: Self)
        ensures
            !r.initialized(),
    {
        ConfigHolder { value: None }
    }

    /// The one-time initialization: stores `c`. Allowed only while the
    /// holder is uninitialized, so it can happen at most once.
    pub fn install(&mut self, c: GlobalConfig)
        requires
            !old(self).initialized(),
        ensures
            final(self).initialized(),
            final(self).stored() == c,
    {
        self.value = Some(c);
    }

    /// Whether a configuration is already stored.
    pub fn is_initialized(&self) -> (r: bool)
        ensures
            r == self.initialized(),
    {
        self.value.is_some()
    }

    /// Reads the stored configuration. Every read of an initialized holder
    /// returns the stored value, so repeated reads agree and need no
    /// further work.
    pub fn get(&self) -> (r: &GlobalConfig)
        requires
            self.initialized(),
        ensures
            *r == self.stored(),
    {
        self.value.as_ref().unwrap()
    }
}

/// One-time-initialization law: an initialized holder hands out a single
/// value. `get` returns `stored` on every call, so whatever two sequential
/// reads of the same holder observe, the two observations are the same
/// configuration.
pub proof fn lemma_reads_agree(h: ConfigHolder, first: GlobalConfig, second: GlobalConfig)
    requires
        h.initialized(),
        first == h.stored(),
        second == h.stored(),
    ensures
        first == second,
{
}

} // verus!
