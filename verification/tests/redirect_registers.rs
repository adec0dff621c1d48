use injector::registers::with_instruction_pointer;

fn sample_regs() -> libc::user_regs_struct {
    libc::user_regs_struct {
        r15: 15,
        r14: 14,
        r13: 13,
        r12: 12,
        rbp: 0xbbbb,
        rbx: 0xb0b0,
        r11: 11,
        r10: 10,
        r9: 9,
        r8: 8,
        rax: 0xaaaa,
        rcx: 0xcccc,
        rdx: 0xdddd,
        rsi: 0x5151,
        rdi: 0xd1d1,
        orig_rax: 0x0a0a,
        rip: 0xdeadbeef,
        cs: 0x33,
        eflags: 0x246,
        rsp: 0x7ffffff0,
        ss: 0x2b,
        fs_base: 0xf5,
        gs_base: 0x65,
        ds: 1,
        es: 2,
        fs: 3,
        gs: 4,
    }
}

#[test]
fn redirect_sets_only_the_instruction_pointer() {
    let before = sample_regs();
    let after = with_instruction_pointer(before, 0x1000);
    assert_eq!(after.rip, 0x1000);
    assert_eq!(after.r15, before.r15);
    assert_eq!(after.r14, before.r14);
    assert_eq!(after.r13, before.r13);
    assert_eq!(after.r12, before.r12);
    assert_eq!(after.rbp, before.rbp);
    assert_eq!(after.rbx, before.rbx);
    assert_eq!(after.r11, before.r11);
    assert_eq!(after.r10, before.r10);
    assert_eq!(after.r9, before.r9);
    assert_eq!(after.r8, before.r8);
    assert_eq!(after.rax, before.rax);
    assert_eq!(after.rcx, before.rcx);
    assert_eq!(after.rdx, before.rdx);
    assert_eq!(after.rsi, before.rsi);
    assert_eq!(after.rdi, before.rdi);
    assert_eq!(after.orig_rax, before.orig_rax);
    assert_eq!(after.cs, before.cs);
    assert_eq!(after.eflags, before.eflags);
    assert_eq!(after.rsp, before.rsp);
    assert_eq!(after.ss, before.ss);
    assert_eq!(after.fs_base, before.fs_base);
    assert_eq!(after.gs_base, before.gs_base);
    assert_eq!(after.ds, before.ds);
    assert_eq!(after.es, before.es);
    assert_eq!(after.fs, before.fs);
    assert_eq!(after.gs, before.gs);
}

#[test]
fn redirect_twice_keeps_the_last_address() {
    let before = sample_regs();
    let mid = with_instruction_pointer(before, 0x1000);
    let after = with_instruction_pointer(mid, 0x2000);
    assert_eq!(after.rip, 0x2000);
    assert_eq!(after.rsp, before.rsp);
}
