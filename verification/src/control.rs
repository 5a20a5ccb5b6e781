//! The control path: the director's whole-value write, and the read-through
//! that hydrates a client that polls instead of listening.

use vstd::prelude::*;

use crate::section::SectionState;
use crate::signal::{spec_replace, Hub};

verus! {

/// Why a control call could fail. The only failure this design admits is a
/// store that cannot be reached, and the store lives and dies with the
/// process, so the variant marks a process-fatal condition: the in-process
/// path below never produces it.
#[derive(Clone, Copy, PartialEq, Eq, Debug)]
pub enum ControlError {
    /// The store could not be reached at all.
    StoreUnreachable,
}

/// Applies the director's whole-value write to the store and signals the
/// change. The caller submits a fully formed pair — clearing the kind also
/// clears the ordinal — and in return the write always succeeds: there is
/// no partial write, and no value-equality check that could swallow the
/// wake.
pub fn set_section(hub: &mut Hub, section: SectionState) -> (r: Result<(), ControlError>)
    requires
        section.wf(),
        old(hub).can_signal(),
    ensures
        r is Ok,
        *final(hub) == spec_replace(*old(hub), section),
{
    hub.replace(section);
    Ok(())
}

/// The read-only pass-through: the current value, as a snapshot, with no
/// blocking and no effect on the signal.
pub fn get_section(hub: &Hub) -> (r: SectionState)
    ensures
        r == hub.cell.value,
{
    hub.read()
}

} // verus!
