//! A scripted, in-memory backend connection.
//!
//! `FakeKvmi` implements [`KVMIntrospectable`](crate::backend::KVMIntrospectable)
//! without a hypervisor: responses are taken from fields set up front, every
//! request is appended to an inspectable log, and reads fill the requested
//! window with a fixed pattern. It shows the connection contract is
//! satisfiable and lets tests drive the KVM driver through exact scenarios.

use vstd::prelude::*;

use crate::backend::BackendCall;
use crate::backend::BackendError;
use crate::backend::BackendOp;
use crate::backend::CrReg;
use crate::backend::EventReply;
use crate::backend::InterceptKind;
use crate::backend::KVMIntrospectable;
use crate::backend::KvmiEvent;
use crate::backend::MsrEntry;
use crate::backend::Regs;
use crate::backend::Sregs;

verus! {

/// A scripted backend connection: responses are configured up front and
/// every request is logged.
pub struct FakeKvmi {
    /// The requests received so far, oldest first, each with its outcome.
    pub log: Vec<BackendOp>,
    /// The VCPU count handed back by every count query.
    pub vcpu_count: u32,
    /// When set, `init` fails with this error.
    pub init_error: Option<BackendError>,
    /// When set, the read request with this ordinal (0-based, counted over
    /// all read requests) fails.
    pub fail_read_at: Option<usize>,
    /// How many read requests have been received so far.
    pub reads_made: usize,
    /// Events handed out by `wait_and_pop_event`, oldest first; an empty
    /// queue means the wait times out.
    pub events: Vec<KvmiEvent>,
    /// The general-purpose register response.
    pub regs: Regs,
    /// The special-register response.
    pub sregs: Sregs,
    /// The model-specific-register response, in backend fill order.
    pub msrs: [MsrEntry; 6],
    /// The highest-physical-address response.
    pub max_paddr: u64,
}

/// An all-zero general-purpose register block.
pub fn zero_regs() -> (r: Regs) {
    Regs {
        rax: 0u64, rbx: 0u64, rcx: 0u64, rdx: 0u64, rsi: 0u64, rdi: 0u64,
        rsp: 0u64, rbp: 0u64, r8: 0u64, r9: 0u64, r10: 0u64, r11: 0u64,
        r12: 0u64, r13: 0u64, r14: 0u64, r15: 0u64, rip: 0u64, rflags: 0u64,
    }
}

/// An all-zero segment register.
pub fn zero_segment() -> (r: crate::backend::Segment) {
    crate::backend::Segment { base: 0u64, limit: 0u32, selector: 0u16 }
}

/// An all-zero descriptor-table register.
pub fn zero_dtable() -> (r: crate::backend::Dtable) {
    crate::backend::Dtable { base: 0u64, limit: 0u16 }
}

/// An all-zero special-register block.
pub fn zero_sregs() -> (r: Sregs) {
    Sregs {
        cs: zero_segment(),
        ds: zero_segment(),
        es: zero_segment(),
        fs: zero_segment(),
        gs: zero_segment(),
        ss: zero_segment(),
        tr: zero_segment(),
        ldt: zero_segment(),
        gdt: zero_dtable(),
        idt: zero_dtable(),
        cr0: 0u64,
        cr2: 0u64,
        cr3: 0u64,
        cr4: 0u64,
        efer: 0u64,
        apic_base: 0u64,
    }
}

impl FakeKvmi {
    /// A fresh scripted connection reporting `vcpu_count` VCPUs: empty
    /// history, no scripted failures, no pending events, all-zero register
    /// responses.
    pub fn new(vcpu_count: u32) -> (r: FakeKvmi)
        ensures
            r.history() == Seq::<BackendOp>::empty(),
            r.vcpu_count == vcpu_count,
    {
        FakeKvmi {
            log: Vec::new(),
            vcpu_count,
            init_error: None,
            fail_read_at: None,
            reads_made: 0,
            events: Vec::new(),
            regs: zero_regs(),
            sregs: zero_sregs(),
            msrs: [
                MsrEntry { index: 0u32, data: 0u64 },
                MsrEntry { index: 0u32, data: 0u64 },
                MsrEntry { index: 0u32, data: 0u64 },
                MsrEntry { index: 0u32, data: 0u64 },
                MsrEntry { index: 0u32, data: 0u64 },
                MsrEntry { index: 0u32, data: 0u64 },
            ],
            max_paddr: 0u64,
        }
    }

    /// The requests received so far, for inspection by tests.
    pub fn calls(&self) -> (r: &Vec<BackendOp>)
        ensures
            r@ == self.history(),
    {
        &self.log
    }
}

impl KVMIntrospectable for FakeKvmi {
    closed spec fn history(&self) -> Seq<BackendOp> {
        self.log@
    }

    fn init(&mut self, socket_path: &str) -> (r: Result<(), BackendError>) {
        let scripted: Option<String> = match &self.init_error {
            None => None,
            Some(e) => Some(e.message.clone()),
        };
        match scripted {
            None => {
                self.log.push(
                    BackendOp {
                        call: BackendCall::Init { path: socket_path.to_owned() },
                        error: None,
                    },
                );
                proof {
                    assert(self.log@.drop_last() =~= old(self).log@);
                }
                Ok(())
            },
            Some(message) => {
                let recorded = BackendError { message: message.clone() };
                self.log.push(
                    BackendOp {
                        call: BackendCall::Init { path: socket_path.to_owned() },
                        error: Some(recorded),
                    },
                );
                proof {
                    assert(self.log@.drop_last() =~= old(self).log@);
                }
                Err(BackendError { message })
            },
        }
    }

    fn control_events(&mut self, vcpu: u16, intercept: InterceptKind, enabled: bool) -> (r: Result<
        (),
        BackendError,
    >) {
        self.log.push(BackendOp { call: BackendCall::ControlEvents { vcpu, intercept, enabled }, error: None });
        Ok(())
    }

    fn control_cr(&mut self, vcpu: u16, reg: CrReg, enabled: bool) -> (r: Result<
        (),
        BackendError,
    >) {
        self.log.push(BackendOp { call: BackendCall::ControlCr { vcpu, reg, enabled }, error: None });
        Ok(())
    }

    fn control_msr(&mut self, vcpu: u16, reg: u32, enabled: bool) -> (r: Result<
        (),
        BackendError,
    >) {
        self.log.push(BackendOp { call: BackendCall::ControlMsr { vcpu, reg, enabled }, error: None });
        Ok(())
    }

    fn read_physical(&mut self, gpa: u64, buf: &mut Vec<u8>, start: usize, len: usize) -> (r:
        Result<(), BackendError>) {
        let fail = match self.fail_read_at {
            Some(k) => self.reads_made == k,
            None => false,
        };
        if self.reads_made < usize::MAX {
            self.reads_made = self.reads_made + 1;
        }
        if fail {
            let message = String::new();
            let recorded = BackendError { message: message.clone() };
            self.log.push(
                BackendOp { call: BackendCall::ReadPhysical { gpa, len }, error: Some(recorded) },
            );
            return Err(BackendError { message });
        }
        self.log.push(BackendOp { call: BackendCall::ReadPhysical { gpa, len }, error: None });
        let buf_len: usize = buf.len();
        let mut j: usize = 0;
        while j < len
            invariant
                j <= len,
                start + len <= buf_len,
                buf@.len() == buf_len,
                buf@.len() == old(buf)@.len(),
                forall|i: int|
                    0 <= i < buf@.len() && !(start <= i < start + j) ==> buf@[i] == old(buf)@[i],
            decreases len - j,
        {
            let value: u8 = #[verifier::truncate] (j as u8);
            buf.set(start + j, value);
            j = j + 1;
        }
        Ok(())
    }

    fn write_physical(&mut self, gpa: u64, buf: &Vec<u8>) -> (r: Result<(), BackendError>) {
        let data = buf.clone();
        self.log.push(BackendOp { call: BackendCall::WritePhysical { gpa, data }, error: None });
        proof {
            assert(self.log@.drop_last() =~= old(self).log@);
        }
        Ok(())
    }

    fn set_page_access(&mut self, gpa: u64, access: crate::backend::PageAccess, view: u16) -> (r:
        Result<(), BackendError>) {
        self.log.push(BackendOp { call: BackendCall::SetPageAccess { gpa, access, view }, error: None });
        Ok(())
    }

    fn pause(&mut self) -> (r: Result<(), BackendError>) {
        self.log.push(BackendOp { call: BackendCall::Pause, error: None });
        Ok(())
    }

    fn resume(&mut self) -> (r: Result<(), BackendError>) {
        self.log.push(BackendOp { call: BackendCall::Resume, error: None });
        Ok(())
    }

    fn get_vcpu_count(&mut self) -> (r: Result<u32, BackendError>) {
        let count = self.vcpu_count;
        self.log.push(BackendOp { call: BackendCall::GetVcpuCount { count }, error: None });
        Ok(count)
    }

    fn get_registers(&mut self, vcpu: u16) -> (r: Result<
        (Regs, Sregs, [MsrEntry; 6]),
        BackendError,
    >) {
        let regs = self.regs;
        let sregs = self.sregs;
        let msrs = self.msrs;
        self.log.push(BackendOp { call: BackendCall::GetRegisters { vcpu, regs, sregs, msrs }, error: None });
        Ok((regs, sregs, msrs))
    }

    fn set_registers(&mut self, vcpu: u16, regs: &Regs) -> (r: Result<(), BackendError>) {
        self.log.push(BackendOp { call: BackendCall::SetRegisters { vcpu, regs: *regs }, error: None });
        Ok(())
    }

    fn wait_and_pop_event(&mut self, ms: i32) -> (r: Result<Option<KvmiEvent>, BackendError>) {
        if self.events.len() == 0 {
            self.log.push(BackendOp { call: BackendCall::WaitAndPopEvent { ms, popped: None }, error: None });
            Ok(None)
        } else {
            let ev = self.events.remove(0);
            self.log.push(BackendOp { call: BackendCall::WaitAndPopEvent { ms, popped: Some(ev) }, error: None });
            Ok(Some(ev))
        }
    }

    fn reply(&mut self, event: &KvmiEvent, reply_type: EventReply) -> (r: Result<
        (),
        BackendError,
    >) {
        self.log.push(BackendOp { call: BackendCall::Reply { event: *event, reply: reply_type }, error: None });
        Ok(())
    }

    fn get_maximum_paddr(&mut self) -> (r: Result<u64, BackendError>) {
        let paddr = self.max_paddr;
        self.log.push(BackendOp { call: BackendCall::GetMaximumPaddr { paddr }, error: None });
        Ok(paddr)
    }
}

} // verus!
