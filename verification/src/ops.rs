//! The operations that the bridge offers to a guest.
//!
//! Each operation has a name, an ordered list of native parameter types and a
//! native result type. The table is fixed: an operation is described once and
//! never changes. An operation is either wired to a host implementation or
//! not; one that is wired needs the instance's capability context, the
//! guest's memory, both or neither.
use crate::abi::{NativeType, ReturnType, WordType};
use vstd::prelude::*;

verus! {

/// Number of operations in the table.
pub const OPERATION_COUNT: usize = 45;

/// One operation of the guest's system-call table.
#[derive(Clone, Copy, Debug, PartialEq, Eq, Structural)]
pub enum Operation {
    ArgsGet,
    ArgsSizesGet,
    EnvironGet,
    EnvironSizesGet,
    FdAllocate,
    ClockResGet,
    ClockTimeGet,
    FdClose,
    FdRead,
    FdRenumber,
    FdSync,
    FdWrite,
    PollOneoff,
    ProcExit,
    RandomGet,
    SchedYield,
    SockRecv,
    SockSend,
    SockShutdown,
    FdPrestatGet,
    FdPrestatDirName,
    FdDatasync,
    FdPread,
    FdPwrite,
    FdSeek,
    FdTell,
    FdFdstatGet,
    FdFdstatSetFlags,
    FdFdstatSetRights,
    FdAdvise,
    PathCreateDirectory,
    PathLink,
    PathOpen,
    FdReaddir,
    PathReadlink,
    PathRename,
    FdFilestatGet,
    FdFilestatSetTimes,
    FdFilestatSetSize,
    PathFilestatGet,
    PathFilestatSetTimes,
    PathSymlink,
    PathUnlinkFile,
    PathRemoveDirectory,
    ProcRaise,
}

impl Operation {
    /// The name under which the guest knows the operation.
    pub open spec fn spec_name(self) -> Seq<char> {
        match self {
            Operation::ArgsGet => "args_get"@,
            Operation::ArgsSizesGet => "args_sizes_get"@,
            Operation::EnvironGet => "environ_get"@,
            Operation::EnvironSizesGet => "environ_sizes_get"@,
            Operation::FdAllocate => "fd_allocate"@,
            Operation::ClockResGet => "clock_res_get"@,
            Operation::ClockTimeGet => "clock_time_get"@,
            Operation::FdClose => "fd_close"@,
            Operation::FdRead => "fd_read"@,
            Operation::FdRenumber => "fd_renumber"@,
            Operation::FdSync => "fd_sync"@,
            Operation::FdWrite => "fd_write"@,
            Operation::PollOneoff => "poll_oneoff"@,
            Operation::ProcExit => "proc_exit"@,
            Operation::RandomGet => "random_get"@,
            Operation::SchedYield => "sched_yield"@,
            Operation::SockRecv => "sock_recv"@,
            Operation::SockSend => "sock_send"@,
            Operation::SockShutdown => "sock_shutdown"@,
            Operation::FdPrestatGet => "fd_prestat_get"@,
            Operation::FdPrestatDirName => "fd_prestat_dir_name"@,
            Operation::FdDatasync => "fd_datasync"@,
            Operation::FdPread => "fd_pread"@,
            Operation::FdPwrite => "fd_pwrite"@,
            Operation::FdSeek => "fd_seek"@,
            Operation::FdTell => "fd_tell"@,
            Operation::FdFdstatGet => "fd_fdstat_get"@,
            Operation::FdFdstatSetFlags => "fd_fdstat_set_flags"@,
            Operation::FdFdstatSetRights => "fd_fdstat_set_rights"@,
            Operation::FdAdvise => "fd_advise"@,
            Operation::PathCreateDirectory => "path_create_directory"@,
            Operation::PathLink => "path_link"@,
            Operation::PathOpen => "path_open"@,
            Operation::FdReaddir => "fd_readdir"@,
            Operation::PathReadlink => "path_readlink"@,
            Operation::PathRename => "path_rename"@,
            Operation::FdFilestatGet => "fd_filestat_get"@,
            Operation::FdFilestatSetTimes => "fd_filestat_set_times"@,
            Operation::FdFilestatSetSize => "fd_filestat_set_size"@,
            Operation::PathFilestatGet => "path_filestat_get"@,
            Operation::PathFilestatSetTimes => "path_filestat_set_times"@,
            Operation::PathSymlink => "path_symlink"@,
            Operation::PathUnlinkFile => "path_unlink_file"@,
            Operation::PathRemoveDirectory => "path_remove_directory"@,
            Operation::ProcRaise => "proc_raise"@,
        }
    }

    /// The name under which the guest knows the operation.
    pub fn name(self) -> (s: &'static str)
        ensures
            s@ == self.spec_name(),
    {
        match self {
            Operation::ArgsGet => "args_get",
            Operation::ArgsSizesGet => "args_sizes_get",
            Operation::EnvironGet => "environ_get",
            Operation::EnvironSizesGet => "environ_sizes_get",
            Operation::FdAllocate => "fd_allocate",
            Operation::ClockResGet => "clock_res_get",
            Operation::ClockTimeGet => "clock_time_get",
            Operation::FdClose => "fd_close",
            Operation::FdRead => "fd_read",
            Operation::FdRenumber => "fd_renumber",
            Operation::FdSync => "fd_sync",
            Operation::FdWrite => "fd_write",
            Operation::PollOneoff => "poll_oneoff",
            Operation::ProcExit => "proc_exit",
            Operation::RandomGet => "random_get",
            Operation::SchedYield => "sched_yield",
            Operation::SockRecv => "sock_recv",
            Operation::SockSend => "sock_send",
            Operation::SockShutdown => "sock_shutdown",
            Operation::FdPrestatGet => "fd_prestat_get",
            Operation::FdPrestatDirName => "fd_prestat_dir_name",
            Operation::FdDatasync => "fd_datasync",
            Operation::FdPread => "fd_pread",
            Operation::FdPwrite => "fd_pwrite",
            Operation::FdSeek => "fd_seek",
            Operation::FdTell => "fd_tell",
            Operation::FdFdstatGet => "fd_fdstat_get",
            Operation::FdFdstatSetFlags => "fd_fdstat_set_flags",
            Operation::FdFdstatSetRights => "fd_fdstat_set_rights",
            Operation::FdAdvise => "fd_advise",
            Operation::PathCreateDirectory => "path_create_directory",
            Operation::PathLink => "path_link",
            Operation::PathOpen => "path_open",
            Operation::FdReaddir => "fd_readdir",
            Operation::PathReadlink => "path_readlink",
            Operation::PathRename => "path_rename",
            Operation::FdFilestatGet => "fd_filestat_get",
            Operation::FdFilestatSetTimes => "fd_filestat_set_times",
            Operation::FdFilestatSetSize => "fd_filestat_set_size",
            Operation::PathFilestatGet => "path_filestat_get",
            Operation::PathFilestatSetTimes => "path_filestat_set_times",
            Operation::PathSymlink => "path_symlink",
            Operation::PathUnlinkFile => "path_unlink_file",
            Operation::PathRemoveDirectory => "path_remove_directory",
            Operation::ProcRaise => "proc_raise",
        }
    }

    /// The native types of the operation's parameters, in the order in which
    /// the guest passes them.
    pub open spec fn spec_params(self) -> Seq<NativeType> {
        match self {
            Operation::ArgsGet => seq![NativeType::U32, NativeType::U32],
            Operation::ArgsSizesGet => seq![NativeType::U32, NativeType::U32],
            Operation::EnvironGet => seq![NativeType::U32, NativeType::U32],
            Operation::EnvironSizesGet => seq![NativeType::U32, NativeType::U32],
            Operation::FdAllocate => seq![NativeType::U32, NativeType::U64, NativeType::U64],
            Operation::ClockResGet => seq![NativeType::U32, NativeType::U32],
            Operation::ClockTimeGet => seq![NativeType::U32, NativeType::U64, NativeType::U32],
            Operation::FdClose => seq![NativeType::U32],
            Operation::FdRead => seq![NativeType::U32, NativeType::U32, NativeType::U32, NativeType::U32],
            Operation::FdRenumber => seq![NativeType::U32, NativeType::U32],
            Operation::FdSync => seq![NativeType::U32],
            Operation::FdWrite => seq![NativeType::U32, NativeType::U32, NativeType::U32, NativeType::U32],
            Operation::PollOneoff => seq![NativeType::U32, NativeType::U32, NativeType::U32, NativeType::U32],
            Operation::ProcExit => seq![NativeType::U32],
            Operation::RandomGet => seq![NativeType::U32, NativeType::U32],
            Operation::SchedYield => Seq::<NativeType>::empty(),
            Operation::SockRecv => seq![NativeType::U32, NativeType::U32, NativeType::U32, NativeType::U16, NativeType::U32, NativeType::U32],
            Operation::SockSend => seq![NativeType::U32, NativeType::U32, NativeType::U32, NativeType::U16, NativeType::U32],
            Operation::SockShutdown => seq![NativeType::U32, NativeType::U8],
            Operation::FdPrestatGet => seq![NativeType::U32, NativeType::U32],
            Operation::FdPrestatDirName => seq![NativeType::U32, NativeType::U32, NativeType::U32],
            Operation::FdDatasync => seq![NativeType::U32],
            Operation::FdPread => seq![NativeType::U32, NativeType::U32, NativeType::U32, NativeType::U64, NativeType::U32],
            Operation::FdPwrite => seq![NativeType::U32, NativeType::U32, NativeType::U32, NativeType::U64, NativeType::U32],
            Operation::FdSeek => seq![NativeType::U32, NativeType::I64, NativeType::U8, NativeType::U32],
            Operation::FdTell => seq![NativeType::U32, NativeType::U32],
            Operation::FdFdstatGet => seq![NativeType::U32, NativeType::U32],
            Operation::FdFdstatSetFlags => seq![NativeType::U32, NativeType::U16],
            Operation::FdFdstatSetRights => seq![NativeType::U32, NativeType::U64, NativeType::U64],
            Operation::FdAdvise => seq![NativeType::U32, NativeType::U64, NativeType::U64, NativeType::U8],
            Operation::PathCreateDirectory => seq![NativeType::U32, NativeType::U32, NativeType::U32],
            Operation::PathLink => seq![NativeType::U32, NativeType::U32, NativeType::U32, NativeType::U32, NativeType::U32, NativeType::U32, NativeType::U32],
            Operation::PathOpen => seq![NativeType::U32, NativeType::U32, NativeType::U32, NativeType::U32, NativeType::U16, NativeType::U64, NativeType::U64, NativeType::U16, NativeType::U32],
            Operation::FdReaddir => seq![NativeType::U32, NativeType::U32, NativeType::U32, NativeType::U64, NativeType::U32],
            Operation::PathReadlink => seq![NativeType::U32, NativeType::U32, NativeType::U32, NativeType::U32, NativeType::U32, NativeType::U32],
            Operation::PathRename => seq![NativeType::U32, NativeType::U32, NativeType::U32, NativeType::U32, NativeType::U32, NativeType::U32],
            Operation::FdFilestatGet => seq![NativeType::U32, NativeType::U32],
            Operation::FdFilestatSetTimes => seq![NativeType::U32, NativeType::U64, NativeType::U64, NativeType::U16],
            Operation::FdFilestatSetSize => seq![NativeType::U32, NativeType::U64],
            Operation::PathFilestatGet => seq![NativeType::U32, NativeType::U32, NativeType::U32, NativeType::U32, NativeType::U32],
            Operation::PathFilestatSetTimes => seq![NativeType::U32, NativeType::U32, NativeType::U32, NativeType::U32, NativeType::U64, NativeType::U64, NativeType::U16],
            Operation::PathSymlink => seq![NativeType::U32, NativeType::U32, NativeType::U32, NativeType::U32, NativeType::U32],
            Operation::PathUnlinkFile => seq![NativeType::U32, NativeType::U32, NativeType::U32],
            Operation::PathRemoveDirectory => seq![NativeType::U32, NativeType::U32, NativeType::U32],
            Operation::ProcRaise => seq![NativeType::U8],
        }
    }

    /// The native types of the operation's parameters, in the order in which
    /// the guest passes them.
    pub fn params(self) -> (v: Vec<NativeType>)
        ensures
            v@ == self.spec_params(),
    {
        let v: Vec<NativeType> = match self {
            Operation::ArgsGet => vec![NativeType::U32, NativeType::U32],
            Operation::ArgsSizesGet => vec![NativeType::U32, NativeType::U32],
            Operation::EnvironGet => vec![NativeType::U32, NativeType::U32],
            Operation::EnvironSizesGet => vec![NativeType::U32, NativeType::U32],
            Operation::FdAllocate => vec![NativeType::U32, NativeType::U64, NativeType::U64],
            Operation::ClockResGet => vec![NativeType::U32, NativeType::U32],
            Operation::ClockTimeGet => vec![NativeType::U32, NativeType::U64, NativeType::U32],
            Operation::FdClose => vec![NativeType::U32],
            Operation::FdRead => vec![NativeType::U32, NativeType::U32, NativeType::U32, NativeType::U32],
            Operation::FdRenumber => vec![NativeType::U32, NativeType::U32],
            Operation::FdSync => vec![NativeType::U32],
            Operation::FdWrite => vec![NativeType::U32, NativeType::U32, NativeType::U32, NativeType::U32],
            Operation::PollOneoff => vec![NativeType::U32, NativeType::U32, NativeType::U32, NativeType::U32],
            Operation::ProcExit => vec![NativeType::U32],
            Operation::RandomGet => vec![NativeType::U32, NativeType::U32],
            Operation::SchedYield => Vec::new(),
            Operation::SockRecv => vec![NativeType::U32, NativeType::U32, NativeType::U32, NativeType::U16, NativeType::U32, NativeType::U32],
            Operation::SockSend => vec![NativeType::U32, NativeType::U32, NativeType::U32, NativeType::U16, NativeType::U32],
            Operation::SockShutdown => vec![NativeType::U32, NativeType::U8],
            Operation::FdPrestatGet => vec![NativeType::U32, NativeType::U32],
            Operation::FdPrestatDirName => vec![NativeType::U32, NativeType::U32, NativeType::U32],
            Operation::FdDatasync => vec![NativeType::U32],
            Operation::FdPread => vec![NativeType::U32, NativeType::U32, NativeType::U32, NativeType::U64, NativeType::U32],
            Operation::FdPwrite => vec![NativeType::U32, NativeType::U32, NativeType::U32, NativeType::U64, NativeType::U32],
            Operation::FdSeek => vec![NativeType::U32, NativeType::I64, NativeType::U8, NativeType::U32],
            Operation::FdTell => vec![NativeType::U32, NativeType::U32],
            Operation::FdFdstatGet => vec![NativeType::U32, NativeType::U32],
            Operation::FdFdstatSetFlags => vec![NativeType::U32, NativeType::U16],
            Operation::FdFdstatSetRights => vec![NativeType::U32, NativeType::U64, NativeType::U64],
            Operation::FdAdvise => vec![NativeType::U32, NativeType::U64, NativeType::U64, NativeType::U8],
            Operation::PathCreateDirectory => vec![NativeType::U32, NativeType::U32, NativeType::U32],
            Operation::PathLink => vec![NativeType::U32, NativeType::U32, NativeType::U32, NativeType::U32, NativeType::U32, NativeType::U32, NativeType::U32],
            Operation::PathOpen => vec![NativeType::U32, NativeType::U32, NativeType::U32, NativeType::U32, NativeType::U16, NativeType::U64, NativeType::U64, NativeType::U16, NativeType::U32],
            Operation::FdReaddir => vec![NativeType::U32, NativeType::U32, NativeType::U32, NativeType::U64, NativeType::U32],
            Operation::PathReadlink => vec![NativeType::U32, NativeType::U32, NativeType::U32, NativeType::U32, NativeType::U32, NativeType::U32],
            Operation::PathRename => vec![NativeType::U32, NativeType::U32, NativeType::U32, NativeType::U32, NativeType::U32, NativeType::U32],
            Operation::FdFilestatGet => vec![NativeType::U32, NativeType::U32],
            Operation::FdFilestatSetTimes => vec![NativeType::U32, NativeType::U64, NativeType::U64, NativeType::U16],
            Operation::FdFilestatSetSize => vec![NativeType::U32, NativeType::U64],
            Operation::PathFilestatGet => vec![NativeType::U32, NativeType::U32, NativeType::U32, NativeType::U32, NativeType::U32],
            Operation::PathFilestatSetTimes => vec![NativeType::U32, NativeType::U32, NativeType::U32, NativeType::U32, NativeType::U64, NativeType::U64, NativeType::U16],
            Operation::PathSymlink => vec![NativeType::U32, NativeType::U32, NativeType::U32, NativeType::U32, NativeType::U32],
            Operation::PathUnlinkFile => vec![NativeType::U32, NativeType::U32, NativeType::U32],
            Operation::PathRemoveDirectory => vec![NativeType::U32, NativeType::U32, NativeType::U32],
            Operation::ProcRaise => vec![NativeType::U8],
        };
        assert(v@ =~= self.spec_params());
        v
    }

    /// The native type of the operation's result: nothing for the operation
    /// that ends the guest, an error signal for every other one.
    pub open spec fn spec_result(self) -> ReturnType {
        match self {
            Operation::ProcExit => ReturnType::Unit,
            _ => ReturnType::Value(NativeType::U16),
        }
    }

    /// The native type of the operation's result.
    pub fn result(self) -> (r: ReturnType)
        ensures
            r == self.spec_result(),
    {
        match self {
            Operation::ProcExit => ReturnType::Unit,
            _ => ReturnType::Value(NativeType::U16),
        }
    }

    /// Whether a host implementation is wired to the operation.
    pub open spec fn spec_is_wired(self) -> bool {
        match self {
            Operation::ArgsGet
            | Operation::ArgsSizesGet
            | Operation::EnvironGet
            | Operation::EnvironSizesGet
            | Operation::FdAllocate
            | Operation::ClockResGet
            | Operation::ClockTimeGet
            | Operation::FdClose
            | Operation::FdRead
            | Operation::FdRenumber
            | Operation::FdSync
            | Operation::FdWrite
            | Operation::PollOneoff
            | Operation::ProcExit
            | Operation::RandomGet
            | Operation::SchedYield
            | Operation::SockRecv
            | Operation::SockSend
            | Operation::SockShutdown => true,
            _ => false,
        }
    }

    /// Whether a host implementation is wired to the operation.
    pub fn is_wired(self) -> (b: bool)
        ensures
            b == self.spec_is_wired(),
    {
        match self {
            Operation::ArgsGet
            | Operation::ArgsSizesGet
            | Operation::EnvironGet
            | Operation::EnvironSizesGet
            | Operation::FdAllocate
            | Operation::ClockResGet
            | Operation::ClockTimeGet
            | Operation::FdClose
            | Operation::FdRead
            | Operation::FdRenumber
            | Operation::FdSync
            | Operation::FdWrite
            | Operation::PollOneoff
            | Operation::ProcExit
            | Operation::RandomGet
            | Operation::SchedYield
            | Operation::SockRecv
            | Operation::SockSend
            | Operation::SockShutdown => true,
            _ => false,
        }
    }

    /// Whether the host implementation reads or changes the instance's
    /// capability context. An operation that is not wired needs nothing.
    pub open spec fn spec_needs_context(self) -> bool {
        match self {
            Operation::ArgsGet
            | Operation::ArgsSizesGet
            | Operation::EnvironGet
            | Operation::EnvironSizesGet
            | Operation::FdAllocate
            | Operation::FdClose
            | Operation::FdRead
            | Operation::FdRenumber
            | Operation::FdSync
            | Operation::FdWrite
            | Operation::SockRecv
            | Operation::SockSend
            | Operation::SockShutdown => true,
            _ => false,
        }
    }

    /// Whether the host implementation reads or changes the instance's
    /// capability context.
    pub fn needs_context(self) -> (b: bool)
        ensures
            b == self.spec_needs_context(),
    {
        match self {
            Operation::ArgsGet
            | Operation::ArgsSizesGet
            | Operation::EnvironGet
            | Operation::EnvironSizesGet
            | Operation::FdAllocate
            | Operation::FdClose
            | Operation::FdRead
            | Operation::FdRenumber
            | Operation::FdSync
            | Operation::FdWrite
            | Operation::SockRecv
            | Operation::SockSend
            | Operation::SockShutdown => true,
            _ => false,
        }
    }

    /// Whether the host implementation reads or writes the guest's memory.
    /// An operation that is not wired needs nothing.
    pub open spec fn spec_needs_memory(self) -> bool {
        match self {
            Operation::ArgsGet
            | Operation::ArgsSizesGet
            | Operation::EnvironGet
            | Operation::EnvironSizesGet
            | Operation::ClockResGet
            | Operation::ClockTimeGet
            | Operation::FdRead
            | Operation::FdWrite
            | Operation::PollOneoff
            | Operation::RandomGet
            | Operation::SockRecv
            | Operation::SockSend
            | Operation::SockShutdown => true,
            _ => false,
        }
    }

    /// Whether the host implementation reads or writes the guest's memory.
    pub fn needs_memory(self) -> (b: bool)
        ensures
            b == self.spec_needs_memory(),
    {
        match self {
            Operation::ArgsGet
            | Operation::ArgsSizesGet
            | Operation::EnvironGet
            | Operation::EnvironSizesGet
            | Operation::ClockResGet
            | Operation::ClockTimeGet
            | Operation::FdRead
            | Operation::FdWrite
            | Operation::PollOneoff
            | Operation::RandomGet
            | Operation::SockRecv
            | Operation::SockSend
            | Operation::SockShutdown => true,
            _ => false,
        }
    }

    /// The position of the operation in the order of registration.
    pub open spec fn spec_index(self) -> int {
        match self {
            Operation::ArgsGet => 0,
            Operation::ArgsSizesGet => 1,
            Operation::EnvironGet => 2,
            Operation::EnvironSizesGet => 3,
            Operation::FdAllocate => 4,
            Operation::ClockResGet => 5,
            Operation::ClockTimeGet => 6,
            Operation::FdClose => 7,
            Operation::FdRead => 8,
            Operation::FdRenumber => 9,
            Operation::FdSync => 10,
            Operation::FdWrite => 11,
            Operation::PollOneoff => 12,
            Operation::ProcExit => 13,
            Operation::RandomGet => 14,
            Operation::SchedYield => 15,
            Operation::SockRecv => 16,
            Operation::SockSend => 17,
            Operation::SockShutdown => 18,
            Operation::FdPrestatGet => 19,
            Operation::FdPrestatDirName => 20,
            Operation::FdDatasync => 21,
            Operation::FdPread => 22,
            Operation::FdPwrite => 23,
            Operation::FdSeek => 24,
            Operation::FdTell => 25,
            Operation::FdFdstatGet => 26,
            Operation::FdFdstatSetFlags => 27,
            Operation::FdFdstatSetRights => 28,
            Operation::FdAdvise => 29,
            Operation::PathCreateDirectory => 30,
            Operation::PathLink => 31,
            Operation::PathOpen => 32,
            Operation::FdReaddir => 33,
            Operation::PathReadlink => 34,
            Operation::PathRename => 35,
            Operation::FdFilestatGet => 36,
            Operation::FdFilestatSetTimes => 37,
            Operation::FdFilestatSetSize => 38,
            Operation::PathFilestatGet => 39,
            Operation::PathFilestatSetTimes => 40,
            Operation::PathSymlink => 41,
            Operation::PathUnlinkFile => 42,
            Operation::PathRemoveDirectory => 43,
            Operation::ProcRaise => 44,
        }
    }

    /// The position of the operation in the order of registration.
    pub fn index(self) -> (i: usize)
        ensures
            i == self.spec_index(),
            i < OPERATION_COUNT,
    {
        match self {
            Operation::ArgsGet => 0,
            Operation::ArgsSizesGet => 1,
            Operation::EnvironGet => 2,
            Operation::EnvironSizesGet => 3,
            Operation::FdAllocate => 4,
            Operation::ClockResGet => 5,
            Operation::ClockTimeGet => 6,
            Operation::FdClose => 7,
            Operation::FdRead => 8,
            Operation::FdRenumber => 9,
            Operation::FdSync => 10,
            Operation::FdWrite => 11,
            Operation::PollOneoff => 12,
            Operation::ProcExit => 13,
            Operation::RandomGet => 14,
            Operation::SchedYield => 15,
            Operation::SockRecv => 16,
            Operation::SockSend => 17,
            Operation::SockShutdown => 18,
            Operation::FdPrestatGet => 19,
            Operation::FdPrestatDirName => 20,
            Operation::FdDatasync => 21,
            Operation::FdPread => 22,
            Operation::FdPwrite => 23,
            Operation::FdSeek => 24,
            Operation::FdTell => 25,
            Operation::FdFdstatGet => 26,
            Operation::FdFdstatSetFlags => 27,
            Operation::FdFdstatSetRights => 28,
            Operation::FdAdvise => 29,
            Operation::PathCreateDirectory => 30,
            Operation::PathLink => 31,
            Operation::PathOpen => 32,
            Operation::FdReaddir => 33,
            Operation::PathReadlink => 34,
            Operation::PathRename => 35,
            Operation::FdFilestatGet => 36,
            Operation::FdFilestatSetTimes => 37,
            Operation::FdFilestatSetSize => 38,
            Operation::PathFilestatGet => 39,
            Operation::PathFilestatSetTimes => 40,
            Operation::PathSymlink => 41,
            Operation::PathUnlinkFile => 42,
            Operation::PathRemoveDirectory => 43,
            Operation::ProcRaise => 44,
        }
    }

    /// The operation at position `i` of the order of registration, if there
    /// is one.
    pub open spec fn spec_from_index(i: int) -> Option<Operation> {
        if i == 0 {
            Some(Operation::ArgsGet)
        } else if i == 1 {
            Some(Operation::ArgsSizesGet)
        } else if i == 2 {
            Some(Operation::EnvironGet)
        } else if i == 3 {
            Some(Operation::EnvironSizesGet)
        } else if i == 4 {
            Some(Operation::FdAllocate)
        } else if i == 5 {
            Some(Operation::ClockResGet)
        } else if i == 6 {
            Some(Operation::ClockTimeGet)
        } else if i == 7 {
            Some(Operation::FdClose)
        } else if i == 8 {
            Some(Operation::FdRead)
        } else if i == 9 {
            Some(Operation::FdRenumber)
        } else if i == 10 {
            Some(Operation::FdSync)
        } else if i == 11 {
            Some(Operation::FdWrite)
        } else if i == 12 {
            Some(Operation::PollOneoff)
        } else if i == 13 {
            Some(Operation::ProcExit)
        } else if i == 14 {
            Some(Operation::RandomGet)
        } else if i == 15 {
            Some(Operation::SchedYield)
        } else if i == 16 {
            Some(Operation::SockRecv)
        } else if i == 17 {
            Some(Operation::SockSend)
        } else if i == 18 {
            Some(Operation::SockShutdown)
        } else if i == 19 {
            Some(Operation::FdPrestatGet)
        } else if i == 20 {
            Some(Operation::FdPrestatDirName)
        } else if i == 21 {
            Some(Operation::FdDatasync)
        } else if i == 22 {
            Some(Operation::FdPread)
        } else if i == 23 {
            Some(Operation::FdPwrite)
        } else if i == 24 {
            Some(Operation::FdSeek)
        } else if i == 25 {
            Some(Operation::FdTell)
        } else if i == 26 {
            Some(Operation::FdFdstatGet)
        } else if i == 27 {
            Some(Operation::FdFdstatSetFlags)
        } else if i == 28 {
            Some(Operation::FdFdstatSetRights)
        } else if i == 29 {
            Some(Operation::FdAdvise)
        } else if i == 30 {
            Some(Operation::PathCreateDirectory)
        } else if i == 31 {
            Some(Operation::PathLink)
        } else if i == 32 {
            Some(Operation::PathOpen)
        } else if i == 33 {
            Some(Operation::FdReaddir)
        } else if i == 34 {
            Some(Operation::PathReadlink)
        } else if i == 35 {
            Some(Operation::PathRename)
        } else if i == 36 {
            Some(Operation::FdFilestatGet)
        } else if i == 37 {
            Some(Operation::FdFilestatSetTimes)
        } else if i == 38 {
            Some(Operation::FdFilestatSetSize)
        } else if i == 39 {
            Some(Operation::PathFilestatGet)
        } else if i == 40 {
            Some(Operation::PathFilestatSetTimes)
        } else if i == 41 {
            Some(Operation::PathSymlink)
        } else if i == 42 {
            Some(Operation::PathUnlinkFile)
        } else if i == 43 {
            Some(Operation::PathRemoveDirectory)
        } else if i == 44 {
            Some(Operation::ProcRaise)
        } else {
            None
        }
    }

    /// The operation at position `i` of the order of registration. There is
    /// one exactly for the positions below `OPERATION_COUNT`.
    pub fn from_index(i: usize) -> (r: Option<Operation>)
        ensures
            r == Self::spec_from_index(i as int),
            r.is_some() <==> i < OPERATION_COUNT,
    {
        match i {
            0 => Some(Operation::ArgsGet),
            1 => Some(Operation::ArgsSizesGet),
            2 => Some(Operation::EnvironGet),
            3 => Some(Operation::EnvironSizesGet),
            4 => Some(Operation::FdAllocate),
            5 => Some(Operation::ClockResGet),
            6 => Some(Operation::ClockTimeGet),
            7 => Some(Operation::FdClose),
            8 => Some(Operation::FdRead),
            9 => Some(Operation::FdRenumber),
            10 => Some(Operation::FdSync),
            11 => Some(Operation::FdWrite),
            12 => Some(Operation::PollOneoff),
            13 => Some(Operation::ProcExit),
            14 => Some(Operation::RandomGet),
            15 => Some(Operation::SchedYield),
            16 => Some(Operation::SockRecv),
            17 => Some(Operation::SockSend),
            18 => Some(Operation::SockShutdown),
            19 => Some(Operation::FdPrestatGet),
            20 => Some(Operation::FdPrestatDirName),
            21 => Some(Operation::FdDatasync),
            22 => Some(Operation::FdPread),
            23 => Some(Operation::FdPwrite),
            24 => Some(Operation::FdSeek),
            25 => Some(Operation::FdTell),
            26 => Some(Operation::FdFdstatGet),
            27 => Some(Operation::FdFdstatSetFlags),
            28 => Some(Operation::FdFdstatSetRights),
            29 => Some(Operation::FdAdvise),
            30 => Some(Operation::PathCreateDirectory),
            31 => Some(Operation::PathLink),
            32 => Some(Operation::PathOpen),
            33 => Some(Operation::FdReaddir),
            34 => Some(Operation::PathReadlink),
            35 => Some(Operation::PathRename),
            36 => Some(Operation::FdFilestatGet),
            37 => Some(Operation::FdFilestatSetTimes),
            38 => Some(Operation::FdFilestatSetSize),
            39 => Some(Operation::PathFilestatGet),
            40 => Some(Operation::PathFilestatSetTimes),
            41 => Some(Operation::PathSymlink),
            42 => Some(Operation::PathUnlinkFile),
            43 => Some(Operation::PathRemoveDirectory),
            44 => Some(Operation::ProcRaise),
            _ => None,
        }
    }
}

/// Every operation, in the order in which the operations are registered with
/// a module.
pub open spec fn registration_order() -> Seq<Operation> {
    Seq::new(OPERATION_COUNT as nat, |i: int| Operation::spec_from_index(i).unwrap())
}

/// Every operation, in the order in which the operations are registered with
/// a module.
pub fn all_operations() -> (v: Vec<Operation>)
    ensures
        v@ == registration_order(),
{
    let mut v: Vec<Operation> = Vec::new();
    let mut i: usize = 0;
    while i < OPERATION_COUNT
        invariant
            i <= OPERATION_COUNT,
            v@.len() == i,
            forall|j: int| 0 <= j < i ==> v@[j] == Operation::spec_from_index(j).unwrap(),
        decreases OPERATION_COUNT - i,
    {
        match Operation::from_index(i) {
            Some(op) => {
                v.push(op);
            },
            None => {},
        }
        i = i + 1;
    }
    assert(v@ =~= registration_order());
    v
}

/// The guest word types of the operation's parameters, in order: the word
/// type of each native parameter type.
pub open spec fn spec_param_words(op: Operation) -> Seq<WordType> {
    op.spec_params().map_values(|t: NativeType| t.spec_word_type())
}

/// The guest word types of the operation's result: none for an operation
/// without a result, else the word type of the native result type.
pub open spec fn spec_return_words(op: Operation) -> Seq<WordType> {
    op.spec_result().spec_word_types()
}

/// An operation stands in the order of registration at its own index.
pub proof fn lemma_index_round_trip(op: Operation)
    ensures
        0 <= op.spec_index() < OPERATION_COUNT,
        Operation::spec_from_index(op.spec_index()) == Some(op),
        registration_order()[op.spec_index()] == op,
{
}

/// The order of registration holds every operation exactly once: it has one
/// place for each index, and two places never hold the same operation.
pub proof fn lemma_registration_order_is_complete()
    ensures
        registration_order().len() == OPERATION_COUNT,
        forall|op: Operation| #[trigger] registration_order().contains(op),
        registration_order().no_duplicates(),
{
    assert forall|op: Operation| #[trigger] registration_order().contains(op) by {
        lemma_index_round_trip(op);
    }
    assert forall|i: int, j: int|
        0 <= i < registration_order().len() && 0 <= j < registration_order().len() && i != j
        implies registration_order()[i] != registration_order()[j] by {
        assert(registration_order()[i].spec_index() == i);
        assert(registration_order()[j].spec_index() == j);
    }
}

/// What tells the names apart: the length of an operation's name, its first
/// character and its sixth.
spec fn name_marks(op: Operation) -> (nat, char, char) {
    match op {
        Operation::ArgsGet => (8, 'a', 'g'),
        Operation::ArgsSizesGet => (14, 'a', 's'),
        Operation::EnvironGet => (11, 'e', 'o'),
        Operation::EnvironSizesGet => (17, 'e', 'o'),
        Operation::FdAllocate => (11, 'f', 'l'),
        Operation::ClockResGet => (13, 'c', '_'),
        Operation::ClockTimeGet => (14, 'c', '_'),
        Operation::FdClose => (8, 'f', 'o'),
        Operation::FdRead => (7, 'f', 'a'),
        Operation::FdRenumber => (11, 'f', 'n'),
        Operation::FdSync => (7, 'f', 'n'),
        Operation::FdWrite => (8, 'f', 'i'),
        Operation::PollOneoff => (11, 'p', 'o'),
        Operation::ProcExit => (9, 'p', 'e'),
        Operation::RandomGet => (10, 'r', 'm'),
        Operation::SchedYield => (11, 's', '_'),
        Operation::SockRecv => (9, 's', 'r'),
        Operation::SockSend => (9, 's', 's'),
        Operation::SockShutdown => (13, 's', 's'),
        Operation::FdPrestatGet => (14, 'f', 'e'),
        Operation::FdPrestatDirName => (19, 'f', 'e'),
        Operation::FdDatasync => (11, 'f', 't'),
        Operation::FdPread => (8, 'f', 'e'),
        Operation::FdPwrite => (9, 'f', 'r'),
        Operation::FdSeek => (7, 'f', 'e'),
        Operation::FdTell => (7, 'f', 'l'),
        Operation::FdFdstatGet => (13, 'f', 's'),
        Operation::FdFdstatSetFlags => (19, 'f', 's'),
        Operation::FdFdstatSetRights => (20, 'f', 's'),
        Operation::FdAdvise => (9, 'f', 'v'),
        Operation::PathCreateDirectory => (21, 'p', 'c'),
        Operation::PathLink => (9, 'p', 'l'),
        Operation::PathOpen => (9, 'p', 'o'),
        Operation::FdReaddir => (10, 'f', 'a'),
        Operation::PathReadlink => (13, 'p', 'r'),
        Operation::PathRename => (11, 'p', 'r'),
        Operation::FdFilestatGet => (15, 'f', 'l'),
        Operation::FdFilestatSetTimes => (21, 'f', 'l'),
        Operation::FdFilestatSetSize => (20, 'f', 'l'),
        Operation::PathFilestatGet => (17, 'p', 'f'),
        Operation::PathFilestatSetTimes => (23, 'p', 'f'),
        Operation::PathSymlink => (12, 'p', 's'),
        Operation::PathUnlinkFile => (16, 'p', 'u'),
        Operation::PathRemoveDirectory => (21, 'p', 'r'),
        Operation::ProcRaise => (10, 'p', 'r'),
    }
}

proof fn lemma_name_marks(op: Operation)
    ensures
        op.spec_name().len() == name_marks(op).0,
        op.spec_name()[0] == name_marks(op).1,
        op.spec_name()[5] == name_marks(op).2,
{
    reveal_strlit("args_get");
    reveal_strlit("args_sizes_get");
    reveal_strlit("environ_get");
    reveal_strlit("environ_sizes_get");
    reveal_strlit("fd_allocate");
    reveal_strlit("clock_res_get");
    reveal_strlit("clock_time_get");
    reveal_strlit("fd_close");
    reveal_strlit("fd_read");
    reveal_strlit("fd_renumber");
    reveal_strlit("fd_sync");
    reveal_strlit("fd_write");
    reveal_strlit("poll_oneoff");
    reveal_strlit("proc_exit");
    reveal_strlit("random_get");
    reveal_strlit("sched_yield");
    reveal_strlit("sock_recv");
    reveal_strlit("sock_send");
    reveal_strlit("sock_shutdown");
    reveal_strlit("fd_prestat_get");
    reveal_strlit("fd_prestat_dir_name");
    reveal_strlit("fd_datasync");
    reveal_strlit("fd_pread");
    reveal_strlit("fd_pwrite");
    reveal_strlit("fd_seek");
    reveal_strlit("fd_tell");
    reveal_strlit("fd_fdstat_get");
    reveal_strlit("fd_fdstat_set_flags");
    reveal_strlit("fd_fdstat_set_rights");
    reveal_strlit("fd_advise");
    reveal_strlit("path_create_directory");
    reveal_strlit("path_link");
    reveal_strlit("path_open");
    reveal_strlit("fd_readdir");
    reveal_strlit("path_readlink");
    reveal_strlit("path_rename");
    reveal_strlit("fd_filestat_get");
    reveal_strlit("fd_filestat_set_times");
    reveal_strlit("fd_filestat_set_size");
    reveal_strlit("path_filestat_get");
    reveal_strlit("path_filestat_set_times");
    reveal_strlit("path_symlink");
    reveal_strlit("path_unlink_file");
    reveal_strlit("path_remove_directory");
    reveal_strlit("proc_raise");
}

/// Two operations never have the same name: each operation is known to the
/// guest under a name of its own.
pub proof fn lemma_names_distinct(a: Operation, b: Operation)
    requires
        a != b,
    ensures
        a.spec_name() != b.spec_name(),
{
    lemma_name_marks(a);
    lemma_name_marks(b);
}

/// An operation that is not wired needs neither the capability context nor
/// the guest's memory.
pub proof fn lemma_unwired_needs_nothing(op: Operation)
    requires
        !op.spec_is_wired(),
    ensures
        !op.spec_needs_context(),
        !op.spec_needs_memory(),
{
}

} // verus!
