//! The single process-wide hook slot, modelled as an explicit resource
//! with replace and take operations.  The runtime owns one such slot;
//! installing a handler replaces its content (the older entry is
//! dropped, never stacked), and capturing the current hook takes the
//! entry out so that exactly one owner ends up with it.

use vstd::prelude::*;

use crate::failure::FailureInfo;
use crate::handler::PanicNotifyFn;

verus! {

/// A slot holding at most one installed hook entry.
pub struct HookSlot<E> {
    current: Option<E>,
}

impl<E> HookSlot<E> {
    /// The entry currently installed, if any.
    pub closed spec fn spec_current(&self) -> Option<E> {
        self.current
    }

    /// An empty slot: nothing installed.
    pub fn empty() -> (r: HookSlot<E>)
        ensures
            r.spec_current() == None::<E>,
    {
        HookSlot { current: None }
    }

    /// Install `entry`, replacing whatever was installed before.  The
    /// older entry is dropped: installation never stacks handlers.
    pub fn install(&mut self, entry: E)
        ensures
            final(self).spec_current() == Some(entry),
    {
        self.current = Some(entry);
    }

    /// Take the installed entry out, leaving the slot empty, so that
    /// exactly one owner holds the previous hook afterwards.
    pub fn take(&mut self) -> (r: Option<E>)
        ensures
            r == old(self).spec_current(),
            final(self).spec_current() == None::<E>,
    {
        self.current.take()
    }

    /// Whether any entry is installed.
    pub fn is_installed(&self) -> (r: bool)
        ensures
            r == (self.spec_current() is Some),
    {
        self.current.is_some()
    }
}

impl<E: PanicNotifyFn> HookSlot<E> {
    /// The slot content after one failure event has been delivered.
    pub open spec fn spec_fired(cur: Option<E>, info: FailureInfo) -> Option<E> {
        match cur {
            Some(e) => Some(e.spec_notify(info)),
            None => None,
        }
    }

    /// Deliver one failure event to the installed entry, if any: the
    /// runtime's act of invoking the current hook.
    pub fn fire(&mut self, info: &FailureInfo)
        ensures
            final(self).spec_current() == Self::spec_fired(old(self).spec_current(), *info),
    {
        match &mut self.current {
            Some(e) => e.notify(info),
            None => {},
        }
    }
}

} // verus!
