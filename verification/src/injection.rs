use vstd::prelude::*;
use crate::errors::InjectorError;
use crate::plan::{payload_write_plan, word_count};
use crate::protocol::{
    next_action, on_attach, on_locate, on_redirect, on_resume, on_write, phase_rank, Action, Phase,
};
use crate::region::{eligible, select_destination, Region};
use crate::registers::with_instruction_pointer;
use crate::sys::{
    sys_attach, sys_cont, sys_detach, sys_get_registers, sys_peek_word, sys_poke_word,
    sys_probe_process, sys_read_memory_maps, sys_set_registers,
};

verus! {

/// Binds one target process and one payload for a single inject cycle,
/// and tracks whether it currently holds the tracing relationship with
/// the target.
pub struct Injector {
    pid: i32,
    code: Vec<u8>,
    attached: bool,
}

impl Injector {
    /// The identity of the target process.
    pub closed spec fn target_pid(&self) -> i32 {
        self.pid
    }

    /// The payload bytes held for injection.
    pub closed spec fn payload(&self) -> Seq<u8> {
        self.code@
    }

    /// Whether this injector currently holds the tracing relationship.
    pub closed spec fn is_attached(&self) -> bool {
        self.attached
    }

    /// Resolves the target against the host's process table and, on
    /// success, binds it together with the payload; the injector starts
    /// detached. Fails when the identifier names no live, introspectable
    /// process.
    pub fn new(target_pid: i32, shellcode: Vec<u8>) -> (r: Result<Injector, InjectorError>)
        ensures
            r matches Ok(inj) ==> inj.target_pid() == target_pid && inj.payload() == shellcode@
                && !inj.is_attached(),
            r matches Err(e) ==> e matches InjectorError::CanNotCreate(_),
    {
        match sys_probe_process(target_pid) {
            Ok(_) => Ok(
                Injector { pid: target_pid, code: shellcode, attached: false },
            ),
            Err(c) => Err(InjectorError::CanNotCreate(c)),
        }
    }

    /// Requests the tracer role over the target, stopping it. A second
    /// attach without an intervening detach is refused at once, without
    /// touching the kernel, and changes nothing.
    pub fn attach(&mut self) -> (r: Result<(), InjectorError>)
        ensures
            final(self).target_pid() == old(self).target_pid(),
            final(self).payload() == old(self).payload(),
            r is Err ==> r matches Err(InjectorError::CanNotAttach(_)),
            old(self).is_attached() ==> r is Err && *final(self) == *old(self),
            r is Ok ==> !old(self).is_attached() && final(self).is_attached(),
            r is Err && !old(self).is_attached() ==> !final(self).is_attached(),
    {
        if self.attached {
            return Err(InjectorError::CanNotAttach(0));
        }
        match sys_attach(self.pid) {
            Ok(_) => {
                self.attached = true;
                Ok(())
            },
            Err(c) => Err(InjectorError::CanNotAttach(c)),
        }
    }

    /// Releases the tracing relationship, resuming the target with the
    /// default continue behaviour. Without a prior successful attach it is
    /// refused at once, without touching the kernel; after a real release
    /// the attachment state is detached whatever the kernel reported.
    pub fn detach(&mut self) -> (r: Result<(), InjectorError>)
        ensures
            final(self).target_pid() == old(self).target_pid(),
            final(self).payload() == old(self).payload(),
            r is Err ==> r matches Err(InjectorError::CanNotDetach(_)),
            !old(self).is_attached() ==> r is Err,
            !final(self).is_attached(),
            r is Ok ==> old(self).is_attached(),
    {
        if !self.attached {
            return Err(InjectorError::CanNotDetach(0));
        }
        self.attached = false;
        match sys_detach(self.pid) {
            Ok(_) => Ok(()),
            Err(c) => Err(InjectorError::CanNotDetach(c)),
        }
    }

    /// Resumes the stopped target with no signal, keeping the tracing
    /// relationship. Without a prior successful attach it is refused at
    /// once, without touching the kernel.
    pub fn cont(&self) -> (r: Result<(), InjectorError>)
        ensures
            r is Err ==> r matches Err(InjectorError::CanNotCont(_)),
            !self.is_attached() ==> r is Err,
    {
        if !self.attached {
            return Err(InjectorError::CanNotCont(0));
        }
        match sys_cont(self.pid) {
            Ok(_) => Ok(()),
            Err(c) => Err(InjectorError::CanNotCont(c)),
        }
    }

    /// Reads the complete general-purpose register set of the stopped
    /// target.
    pub fn read_registers(&self) -> (r: Result<libc::user_regs_struct, InjectorError>)
        requires
            self.is_attached(),
        ensures
            r is Err ==> r matches Err(InjectorError::CanNotGetRegister(_)),
    {
        match sys_get_registers(self.pid) {
            Ok(regs) => Ok(regs),
            Err(c) => Err(InjectorError::CanNotGetRegister(c)),
        }
    }

    /// Overwrites the complete general-purpose register set of the
    /// stopped target with `regs`.
    pub fn write_registers(&self, regs: libc::user_regs_struct) -> (r: Result<(), InjectorError>)
        requires
            self.is_attached(),
        ensures
            r is Err ==> r matches Err(InjectorError::CanNotSetRegister(_)),
    {
        match sys_set_registers(self.pid, regs) {
            Ok(_) => Ok(()),
            Err(c) => Err(InjectorError::CanNotSetRegister(c)),
        }
    }

    /// Reads the current register set, replaces only its
    /// instruction-pointer field with `address`, and writes the set back:
    /// the sole mechanism by which control transfers into injected code.
    /// Every other register keeps the exact value the target left there.
    pub fn redirect_execution(&self, address: u64) -> (r: Result<(), InjectorError>)
        requires
            self.is_attached(),
        ensures
            r is Err ==> (r matches Err(InjectorError::CanNotGetRegister(_)) || r matches Err(
                InjectorError::CanNotSetRegister(_),
            )),
    {
        match self.read_registers() {
            Ok(regs) => self.write_registers(with_instruction_pointer(regs, address)),
            Err(e) => Err(e),
        }
    }

    /// Re-reads the target's current memory mappings and selects the
    /// destination for the payload: the lowest-addressed region that is
    /// readable, executable, not writable and private, and large enough
    /// to hold every payload byte. Ok(None) when no mapping qualifies —
    /// not a fault.
    pub fn find_destination_region(&self) -> (r: Result<Option<Region>, InjectorError>)
        ensures
            r matches Ok(Some(reg)) ==> eligible(reg, self.payload().len()),
            r is Err ==> r matches Err(InjectorError::CanNotGetMemoryMap(_)),
    {
        match sys_read_memory_maps(self.pid) {
            Ok(regions) => Ok(select_destination(&regions, self.code.len())),
            Err(c) => Err(InjectorError::CanNotGetMemoryMap(c)),
        }
    }

    /// Writes every payload byte into the target at [base, base + len),
    /// in increasing address order, one word at a time. When the payload
    /// ends inside a word, that word is first read back, so the bytes
    /// past the payload's end are stored unchanged. A failing write
    /// aborts the pass at once, and a base so high that the pass would
    /// leave the address space is refused before anything is written.
    pub fn write_payload(&self, base: u64) -> (r: Result<(), InjectorError>)
        requires
            self.is_attached(),
        ensures
            r is Err ==> r matches Err(InjectorError::CanNotInjectCode(_)),
            self.payload().len() == 0 ==> r is Ok,
            base + 8 * word_count(self.payload().len()) > u64::MAX + 1 ==> r is Err,
    {
        let len: usize = self.code.len();
        let n_words: usize = len / 8 + if len % 8 == 0 {
            0
        } else {
            1
        };
        if n_words == 0 {
            return Ok(());
        }
        if base > 0 && (n_words as u64) > (u64::MAX - base + 1) / 8 {
            return Err(InjectorError::CanNotInjectCode(0));
        }
        proof {
            assert(n_words == word_count(len as nat));
            if base > 0 {
                let avail: int = u64::MAX - base + 1;
                assert(8 * ((avail / 8) as int) <= avail) by {
                    vstd::arithmetic::div_mod::lemma_fundamental_div_mod(avail, 8);
                }
            } else {
                assert(len as int <= usize::MAX as int);
                assert((len as int) / 8 <= (usize::MAX as int) / 8) by {
                    vstd::arithmetic::div_mod::lemma_div_is_ordered(
                        len as int,
                        usize::MAX as int,
                        8,
                    );
                }
            }
            assert(base + 8 * word_count(len as nat) <= u64::MAX + 1);
        }
        let mut tail_word: u64 = 0;
        if len % 8 != 0 {
            let tail_addr: u64 = base + 8 * ((n_words as u64) - 1);
            match sys_peek_word(self.pid, tail_addr) {
                Ok(w) => {
                    tail_word = w;
                },
                Err(c) => {
                    return Err(InjectorError::CanNotInjectCode(c));
                },
            }
        }
        let plan = payload_write_plan(&self.code, base, tail_word);
        let mut k: usize = 0;
        while k < plan.len()
            invariant
                k <= plan@.len(),
                self.payload().len() > 0,
                base + 8 * word_count(self.payload().len()) <= u64::MAX + 1,
            decreases plan@.len() - k,
        {
            let wr = plan[k];
            match sys_poke_word(self.pid, wr.addr, wr.word) {
                Ok(_) => {},
                Err(c) => {
                    return Err(InjectorError::CanNotInjectCode(c));
                },
            }
            k = k + 1;
        }
        Ok(())
    }

    /// Runs the full protocol in its strict order: attach, locate a
    /// destination region, write the payload at the region's base,
    /// redirect the instruction pointer there, resume the target. When no
    /// mapping is eligible the run stops after the search — nothing is
    /// written, nothing redirected — and reports success. Any failing
    /// step aborts all remaining steps and surfaces its error; no step is
    /// retried and nothing is rolled back.
    pub fn inject(&mut self) -> (r: Result<(), InjectorError>)
        ensures
            final(self).target_pid() == old(self).target_pid(),
            final(self).payload() == old(self).payload(),
            old(self).is_attached() ==> r matches Err(InjectorError::CanNotAttach(_)),
            r is Ok ==> final(self).is_attached(),
            r matches Err(e) && !(e matches InjectorError::CanNotAttach(_))
                ==> final(self).is_attached(),
            r matches Err(e) ==> !(e matches InjectorError::CanNotCreate(_)) && !(
            e matches InjectorError::CanNotDetach(_)),
    {
        let mut phase = Phase::Created;
        loop
            invariant
                self.target_pid() == old(self).target_pid(),
                self.payload() == old(self).payload(),
                old(self).is_attached() ==> self.is_attached(),
                old(self).is_attached() ==> (phase matches Phase::Created || phase
                    matches Phase::Failed { error: InjectorError::CanNotAttach(_) }),
                (phase matches Phase::Attached || phase matches Phase::Located { .. } || phase
                    matches Phase::Written { .. } || phase matches Phase::Redirected { .. } || phase
                    matches Phase::Done || phase matches Phase::Completed) ==> self.is_attached(),
                (phase matches Phase::Failed { error } && !(error
                    matches InjectorError::CanNotAttach(_))) ==> self.is_attached(),
                phase matches Phase::Failed { error } ==> (error
                    matches InjectorError::CanNotAttach(_) || error
                    matches InjectorError::CanNotGetMemoryMap(_) || error
                    matches InjectorError::CanNotInjectCode(_) || error
                    matches InjectorError::CanNotGetRegister(_) || error
                    matches InjectorError::CanNotSetRegister(_) || error
                    matches InjectorError::CanNotCont(_)),
            ensures
                crate::protocol::spec_next_action(phase) == Action::Halt,
            decreases phase_rank(phase),
        {
            match next_action(&phase) {
                Action::DoAttach => {
                    let outcome = self.attach();
                    phase = on_attach(outcome);
                },
                Action::DoLocate => {
                    let outcome = self.find_destination_region();
                    phase = on_locate(outcome);
                },
                Action::DoWrite { base } => {
                    let outcome = self.write_payload(base);
                    phase = on_write(base, outcome);
                },
                Action::DoRedirect { base } => {
                    let outcome = self.redirect_execution(base);
                    phase = on_redirect(base, outcome);
                },
                Action::DoResume => {
                    let outcome = self.cont();
                    phase = on_resume(outcome);
                },
                Action::Halt => {
                    break;
                },
            }
        }
        match phase {
            Phase::Failed { error } => Err(error),
            _ => Ok(()),
        }
    }
}

} // verus!
