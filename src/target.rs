use vstd::prelude::*;

use crate::arch::Arch;
use crate::protocol::{Pid, Tid};

verus! {

/// The optional features that a host target offers. Each flag stands for a
/// capability handle that the host hands out or withholds.
#[derive(Debug, Clone, Copy, PartialEq, Eq, Structural)]
pub struct Capabilities {
    /// Several threads (`MultiThread` base operations) rather than one.
    pub multi_thread: bool,
    pub single_step: bool,
    pub range_step: bool,
    pub reverse_cont: bool,
    pub reverse_step: bool,
    /// Extended mode; the four `configure_*` flags only count under it.
    pub extended_mode: bool,
    pub configure_aslr: bool,
    pub configure_env: bool,
    pub configure_startup_shell: bool,
    pub configure_working_dir: bool,
    pub sw_breakpoint: bool,
    pub hw_breakpoint: bool,
    pub hw_watchpoint: bool,
    pub catch_syscalls: bool,
    pub target_description_xml_override: bool,
    pub memory_map: bool,
    pub exec_file: bool,
    pub auxv: bool,
    pub register_info: bool,
}

/// How a host operation failed.
#[derive(Debug, Clone, Copy, PartialEq, Eq)]
pub enum TargetError<E> {
    /// A recoverable failure without a specific code.
    NonFatal,
    /// A recoverable failure with an errno-style code.
    Errno(u8),
    /// A failure that ends the session.
    Fatal(E),
}

/// The host's debugging substrate. Operations that only exist behind a capability
/// are called only when `capabilities` reports it.
pub trait Target {
    type Arch: Arch;
    type Error;

    /// Which optional features the host offers; fixed for the session.
    fn capabilities(&self) -> Capabilities;

    fn read_registers(
        &mut self,
        regs: &mut <Self::Arch as Arch>::Registers,
        tid: Tid,
    ) -> Result<(), TargetError<Self::Error>>;

    fn write_registers(
        &mut self,
        regs: &<Self::Arch as Arch>::Registers,
        tid: Tid,
    ) -> Result<(), TargetError<Self::Error>>;

    /// Reads `len` bytes of memory starting at `addr`.
    fn read_addrs(&mut self, addr: u64, len: usize, tid: Tid) -> Result<
        Vec<u8>,
        TargetError<Self::Error>,
    >;

    fn write_addrs(&mut self, addr: u64, data: &[u8], tid: Tid) -> Result<
        (),
        TargetError<Self::Error>,
    >;

    /// The active threads, in the host's order (multi-threaded hosts).
    fn list_active_threads(&mut self) -> Result<Vec<Tid>, Self::Error>;

    fn is_thread_alive(&mut self, tid: Tid) -> Result<bool, Self::Error>;

    /// Single-threaded hosts: continue, optionally delivering a signal.
    fn resume(&mut self, signal: Option<u8>) -> Result<(), Self::Error>;

    /// Single-threaded hosts: step one instruction.
    fn step(&mut self, signal: Option<u8>) -> Result<(), Self::Error>;

    /// Single-threaded hosts: step while the program counter is in `[start, end)`.
    fn resume_range_step(&mut self, start: u64, end: u64) -> Result<(), Self::Error>;

    /// Multi-threaded hosts: forget every per-thread resume action.
    fn clear_resume_actions(&mut self) -> Result<(), Self::Error>;

    fn set_resume_action_continue(&mut self, tid: Tid, signal: Option<u8>) -> Result<
        (),
        Self::Error,
    >;

    fn set_resume_action_step(&mut self, tid: Tid, signal: Option<u8>) -> Result<
        (),
        Self::Error,
    >;

    fn set_resume_action_range_step(&mut self, tid: Tid, start: u64, end: u64) -> Result<
        (),
        Self::Error,
    >;

    /// Multi-threaded hosts: resume with the installed actions; threads without
    /// one continue.
    fn resume_threads(&mut self) -> Result<(), Self::Error>;

    /// Extended mode: whether the stub attached to an existing process.
    fn query_if_attached(&mut self, pid: Pid) -> Result<bool, TargetError<Self::Error>>;

    /// Extended mode: kill a process; `true` when the session must end.
    fn kill(&mut self, pid: Option<Pid>) -> Result<bool, TargetError<Self::Error>>;

    /// Target description override: up to `length` bytes from `offset`.
    fn target_description_xml_override(&mut self, offset: u64, length: usize) -> Result<
        Vec<u8>,
        TargetError<Self::Error>,
    >;

    /// Register info extension: the description of register `n`, `None` past the last.
    fn get_register_info(&self, n: usize) -> Option<&'static str>;
}

} // verus!
