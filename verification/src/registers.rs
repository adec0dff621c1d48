use vstd::prelude::*;

verus! {

/// Makes libc's x86-64 `user_regs_struct` — the general-purpose register
/// snapshot that the tracing facility reads and writes — known to the
/// verifier together with its fields.
#[verifier::external_type_specification]
pub struct ExUserRegsStruct(libc::user_regs_struct);

/// `b` is `a` with only the instruction pointer replaced by `address`:
/// every other register field is bit-identical.
pub open spec fn redirected(
    a: libc::user_regs_struct,
    b: libc::user_regs_struct,
    address: u64,
) -> bool {
    &&& b.rip == address
    &&& b.r15 == a.r15
    &&& b.r14 == a.r14
    &&& b.r13 == a.r13
    &&& b.r12 == a.r12
    &&& b.rbp == a.rbp
    &&& b.rbx == a.rbx
    &&& b.r11 == a.r11
    &&& b.r10 == a.r10
    &&& b.r9 == a.r9
    &&& b.r8 == a.r8
    &&& b.rax == a.rax
    &&& b.rcx == a.rcx
    &&& b.rdx == a.rdx
    &&& b.rsi == a.rsi
    &&& b.rdi == a.rdi
    &&& b.orig_rax == a.orig_rax
    &&& b.cs == a.cs
    &&& b.eflags == a.eflags
    &&& b.rsp == a.rsp
    &&& b.ss == a.ss
    &&& b.fs_base == a.fs_base
    &&& b.gs_base == a.gs_base
    &&& b.ds == a.ds
    &&& b.es == a.es
    &&& b.fs == a.fs
    &&& b.gs == a.gs
}

/// Returns `regs` with only the instruction-pointer field replaced by
/// `address`; the rest of the execution context — stack pointer, general
/// registers, flags, segment fields — keeps the exact value the target
/// left there.
pub fn with_instruction_pointer(regs: libc::user_regs_struct, address: u64) -> (r:
    libc::user_regs_struct)
    ensures
        redirected(regs, r, address),
{
    let mut r = regs;
    r.rip = address;
    r
}

} // verus!
