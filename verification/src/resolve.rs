//! What a call needs of the instance that makes it: the capability context
//! and the guest's linear memory.
//!
//! Both are looked up afresh on every call. Neither lookup can fail in any
//! way but one: the instance does not have what is asked for, and the call
//! ends with the "invalid argument" signal.
use vstd::prelude::*;

verus! {

/// An error signal as the guest receives it.
pub type Errno = u16;

/// The signal of a call that succeeded.
pub const ERRNO_SUCCESS: u16 = 0;

/// The signal "invalid argument".
pub const ERRNO_INVAL: u16 = 28;

/// The signal "operation not supported".
pub const ERRNO_NOSYS: u16 = 52;

/// The greatest signal that has a name.
pub const ERRNO_LAST: u16 = 76;

/// The host state that an instance carries.
#[derive(Clone, Copy, Debug, PartialEq, Eq, Structural)]
pub enum HostState {
    /// The instance carries a capability context.
    Capability,
    /// The instance carries some other state, or its context is gone.
    Foreign,
}

/// The place of the guest's linear memory at one moment: the address of its
/// first byte and its length in bytes. The memory may move and grow between
/// two calls, so a region is good for the call that resolved it and no
/// longer.
#[derive(Clone, Copy, Debug, PartialEq, Eq, Structural)]
pub struct MemoryRegion {
    /// Address of the first byte.
    pub base: usize,
    /// Length in bytes.
    pub length: usize,
}

/// What an instance exports under a name.
#[derive(Clone, Copy, Debug, PartialEq, Eq, Structural)]
pub enum ExportKind {
    /// A function.
    Function,
    /// A table.
    Table,
    /// A linear memory, with its place at the moment of the lookup.
    Memory(MemoryRegion),
    /// A global.
    Global,
}

/// What one call sees of its instance.
#[derive(Clone, Copy, Debug, PartialEq, Eq, Structural)]
pub struct InstanceView {
    /// The host state of the instance.
    pub host_state: HostState,
    /// What the instance exports under the name `memory`, if anything.
    pub memory_export: Option<ExportKind>,
}

impl InstanceView {
    /// Whether the instance carries a capability context.
    pub open spec fn has_context(self) -> bool {
        self.host_state == HostState::Capability
    }

    /// The guest's memory, if the instance exports one under the name
    /// `memory`.
    pub open spec fn memory(self) -> Option<MemoryRegion> {
        match self.memory_export {
            Some(ExportKind::Memory(region)) => Some(region),
            _ => None,
        }
    }
}

/// Looks up the capability context of the instance. Succeeds exactly when
/// the instance carries one, and fails with "invalid argument" otherwise.
pub fn resolve_context(view: &InstanceView) -> (r: Result<(), Errno>)
    ensures
        r == (if view.has_context() {
            Ok::<(), Errno>(())
        } else {
            Err::<(), Errno>(ERRNO_INVAL)
        }),
{
    match view.host_state {
        HostState::Capability => Ok(()),
        HostState::Foreign => Err(ERRNO_INVAL),
    }
}

/// Looks up the guest's linear memory. Succeeds exactly when the instance
/// exports a memory under the name `memory`, with the region that the export
/// shows at this moment; fails with "invalid argument" when there is no such
/// export or the export is of another kind.
pub fn resolve_memory(view: &InstanceView) -> (r: Result<MemoryRegion, Errno>)
    ensures
        r == match view.memory() {
            Some(region) => Ok::<MemoryRegion, Errno>(region),
            None => Err::<MemoryRegion, Errno>(ERRNO_INVAL),
        },
{
    match view.memory_export {
        Some(ExportKind::Memory(region)) => Ok(region),
        _ => Err(ERRNO_INVAL),
    }
}

} // verus!
