use vstd::prelude::*;
use crate::region::{Perms, Region};
use procfs::process::MMPermissions;

verus! {

/// Relies on procfs's Process::new: opening the target's metadata
/// directory succeeds iff the process exists and is introspectable by the
/// caller; on failure the raw OS error code is kept where one exists.
#[verifier::external_body]
pub(crate) fn sys_probe_process(pid: i32) -> (r: Result<(), i32>) {
    match procfs::process::Process::new(pid) {
        Ok(_) => Ok(()),
        Err(procfs::ProcError::Io(e, _)) => Err(e.raw_os_error().unwrap_or(0)),
        Err(_) => Err(0),
    }
}

/// Relies on procfs's Process::maps: reads the target's current memory
/// mapping list, each entry carrying its address range and permission
/// flags, from the host's process introspection interface.
#[verifier::external_body]
pub(crate) fn sys_read_memory_maps(pid: i32) -> (r: Result<Vec<Region>, i32>) {
    match procfs::process::Process::new(pid).and_then(|p| p.maps()) {
        Ok(maps) => Ok(maps.0.iter().map(|m| Region {
            start: m.address.0,
            end: m.address.1,
            perms: Perms {
                readable: m.perms.contains(MMPermissions::READ),
                writable: m.perms.contains(MMPermissions::WRITE),
                executable: m.perms.contains(MMPermissions::EXECUTE),
                private: m.perms.contains(MMPermissions::PRIVATE),
            },
        }).collect()),
        Err(procfs::ProcError::Io(e, _)) => Err(e.raw_os_error().unwrap_or(0)),
        Err(_) => Err(0),
    }
}

/// Relies on nix's ptrace::attach: asks the kernel to make the caller the
/// tracer of the target and stop it; fails with the kernel's errno.
#[verifier::external_body]
pub(crate) fn sys_attach(pid: i32) -> (r: Result<(), i32>) {
    nix::sys::ptrace::attach(nix::unistd::Pid::from_raw(pid)).map_err(|e| e as i32)
}

/// Relies on nix's ptrace::detach with no signal: releases the tracing
/// relationship and lets the target run freely.
#[verifier::external_body]
pub(crate) fn sys_detach(pid: i32) -> (r: Result<(), i32>) {
    nix::sys::ptrace::detach(nix::unistd::Pid::from_raw(pid), None).map_err(|e| e as i32)
}

/// Relies on nix's ptrace::cont with no signal: resumes the stopped
/// target while keeping the tracing relationship.
#[verifier::external_body]
pub(crate) fn sys_cont(pid: i32) -> (r: Result<(), i32>) {
    nix::sys::ptrace::cont(nix::unistd::Pid::from_raw(pid), None).map_err(|e| e as i32)
}

/// Relies on nix's ptrace::getregs: reads the stopped target's
/// general-purpose register set.
#[verifier::external_body]
pub(crate) fn sys_get_registers(pid: i32) -> (r: Result<libc::user_regs_struct, i32>) {
    nix::sys::ptrace::getregs(nix::unistd::Pid::from_raw(pid)).map_err(|e| e as i32)
}

/// Relies on nix's ptrace::setregs: overwrites the stopped target's
/// general-purpose register set with `regs`.
#[verifier::external_body]
pub(crate) fn sys_set_registers(pid: i32, regs: libc::user_regs_struct) -> (r: Result<(), i32>) {
    nix::sys::ptrace::setregs(nix::unistd::Pid::from_raw(pid), regs).map_err(|e| e as i32)
}

/// Relies on nix's ptrace::read: reads the word of eight bytes stored at
/// `addr` in the target's address space.
#[verifier::external_body]
pub(crate) fn sys_peek_word(pid: i32, addr: u64) -> (r: Result<u64, i32>) {
    nix::sys::ptrace::read(nix::unistd::Pid::from_raw(pid), addr as nix::sys::ptrace::AddressType)
        .map(|w| w as u64).map_err(|e| e as i32)
}

/// Relies on nix's ptrace::write: stores `word` over the eight bytes at
/// `addr` in the target's address space, bypassing the mapping's write
/// protection.
#[verifier::external_body]
pub(crate) fn sys_poke_word(pid: i32, addr: u64, word: u64) -> (r: Result<(), i32>) {
    nix::sys::ptrace::write(nix::unistd::Pid::from_raw(pid), addr as nix::sys::ptrace::AddressType,
        word as libc::c_long).map_err(|e| e as i32)
}

} // verus!
