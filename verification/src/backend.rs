//! The backend-native wire model: the plain-data shapes of the KVM
//! introspection protocol, a log of the requests a driver issues, and the
//! connection abstraction the driver is built on.
//!
//! The driver never opens a socket itself: it is constructed with a value
//! implementing [`KVMIntrospectable`], whose contract records every request
//! in a ghost history. The verified driver contracts speak of that history,
//! so the exact request sequence is part of the observable behaviour.

use vstd::prelude::*;

pub mod fake;

verus! {

/// The largest physical-memory transfer the backend accepts in one request.
pub const PAGE_SIZE: usize = 4096;

/// The backend-native page-permission enumeration, `repr(u8)`-style:
/// NIL is 0, R is 1, W is 2, X is 4, and the remaining values are the
/// bitwise combinations of those.
#[derive(Clone, Copy, Debug, PartialEq, Eq, Structural)]
pub enum PageAccess {
    NIL,
    R,
    W,
    RW,
    X,
    RX,
    WX,
    RWX,
}

/// The backend-native control-register selector.
#[derive(Clone, Copy, Debug, PartialEq, Eq, Structural)]
pub enum CrReg {
    Cr0,
    Cr3,
    Cr4,
}

/// One model-specific-register slot of a register response: the register's
/// index and its value.
#[derive(Clone, Copy, Debug, PartialEq, Eq, Structural)]
pub struct MsrEntry {
    pub index: u32,
    pub data: u64,
}

/// The backend-native general-purpose register block.
#[derive(Clone, Copy, Debug, PartialEq, Eq, Structural)]
pub struct Regs {
    pub rax: u64,
    pub rbx: u64,
    pub rcx: u64,
    pub rdx: u64,
    pub rsi: u64,
    pub rdi: u64,
    pub rsp: u64,
    pub rbp: u64,
    pub r8: u64,
    pub r9: u64,
    pub r10: u64,
    pub r11: u64,
    pub r12: u64,
    pub r13: u64,
    pub r14: u64,
    pub r15: u64,
    pub rip: u64,
    pub rflags: u64,
}

/// A backend-native segment register.
#[derive(Clone, Copy, Debug, PartialEq, Eq, Structural)]
pub struct Segment {
    pub base: u64,
    pub limit: u32,
    pub selector: u16,
}

/// A backend-native descriptor-table register.
#[derive(Clone, Copy, Debug, PartialEq, Eq, Structural)]
pub struct Dtable {
    pub base: u64,
    pub limit: u16,
}

/// The backend-native special-register block: control registers, segment
/// registers and descriptor tables.
#[derive(Clone, Copy, Debug, PartialEq, Eq, Structural)]
pub struct Sregs {
    pub cs: Segment,
    pub ds: Segment,
    pub es: Segment,
    pub fs: Segment,
    pub gs: Segment,
    pub ss: Segment,
    pub tr: Segment,
    pub ldt: Segment,
    pub gdt: Dtable,
    pub idt: Dtable,
    pub cr0: u64,
    pub cr2: u64,
    pub cr3: u64,
    pub cr4: u64,
    pub efer: u64,
    pub apic_base: u64,
}

/// The backend-native event kinds, including the VCPU-pause acknowledgement
/// that must never surface as a generic event.
#[derive(Clone, Copy, Debug, PartialEq, Eq, Structural)]
pub enum EventKind {
    PauseVCPU,
    Cr { cr_reg: CrReg, new_value: u64, old_value: u64 },
    Msr { msr_type: u32, new_value: u64, old_value: u64 },
    Breakpoint { gpa: u64, insn_len: u8 },
    Pagefault { gva: u64, gpa: u64, access: PageAccess, view: u16 },
}

/// A backend-native event as popped from the connection.
#[derive(Clone, Copy, Debug, PartialEq, Eq, Structural)]
pub struct KvmiEvent {
    pub vcpu: u16,
    pub ev_type: EventKind,
}

/// The backend-native event reply.
#[derive(Clone, Copy, Debug, PartialEq, Eq, Structural)]
pub enum EventReply {
    Continue,
}

/// A backend-native event class, used to enable or disable delivery of a
/// whole class of events on one VCPU.
#[derive(Clone, Copy, Debug, PartialEq, Eq, Structural)]
pub enum InterceptKind {
    Cr,
    Msr,
    Breakpoint,
    Pagefault,
}

/// The error a backend reports for a failed request, carrying the backend's
/// own message. It is propagated to the caller unchanged.
#[derive(Clone, Debug, PartialEq, Eq)]
pub struct BackendError {
    pub message: String,
}

/// One request issued to the backend. Requests that return data the driver
/// goes on to use also record the response, so that driver contracts can
/// name it.
#[derive(Clone, Debug, PartialEq, Eq)]
pub enum BackendCall {
    /// Connect to the introspection socket at `path`.
    Init { path: String },
    /// Enable or disable an event class on a VCPU.
    ControlEvents { vcpu: u16, intercept: InterceptKind, enabled: bool },
    /// Enable or disable interception of one control register on a VCPU.
    ControlCr { vcpu: u16, reg: CrReg, enabled: bool },
    /// Enable or disable interception of one model-specific register.
    ControlMsr { vcpu: u16, reg: u32, enabled: bool },
    /// One physical-memory read request of `len` bytes at `gpa`.
    ReadPhysical { gpa: u64, len: usize },
    /// One physical-memory write request at `gpa`, carrying the bytes.
    WritePhysical { gpa: u64, data: Vec<u8> },
    /// Set the permission of the page at `gpa` in the given view.
    SetPageAccess { gpa: u64, access: PageAccess, view: u16 },
    /// Request a VM-wide pause.
    Pause,
    /// Request a VM-wide resume.
    Resume,
    /// Query the VCPU count; `count` is the value the backend handed back,
    /// 0 when the request failed.
    GetVcpuCount { count: u32 },
    /// Read a VCPU's registers; the fields record the backend's response
    /// (unconstrained when the request failed).
    GetRegisters { vcpu: u16, regs: Regs, sregs: Sregs, msrs: [MsrEntry; 6] },
    /// Write a VCPU's general-purpose registers.
    SetRegisters { vcpu: u16, regs: Regs },
    /// Wait up to `ms` milliseconds for an event and pop it; `popped` is
    /// what came back (`None` on timeout or failure).
    WaitAndPopEvent { ms: i32, popped: Option<KvmiEvent> },
    /// Acknowledge an event, resuming that VCPU.
    Reply { event: KvmiEvent, reply: EventReply },
    /// Query the highest guest physical address; `paddr` is the response,
    /// unconstrained when the request failed.
    GetMaximumPaddr { paddr: u64 },
}

/// One entry of a connection's history: a request together with its
/// outcome, so that success can never be claimed for a failed request nor
/// a failure invented for a successful one.
#[derive(Clone, Debug, PartialEq, Eq)]
pub struct BackendOp {
    /// The request issued.
    pub call: BackendCall,
    /// `None` when the request succeeded; the backend's error, unchanged,
    /// when it failed.
    pub error: Option<BackendError>,
}

/// A request that succeeded.
pub open spec fn ok_op(call: BackendCall) -> BackendOp {
    BackendOp { call, error: None }
}

/// A request that failed with the backend's error `e`.
pub open spec fn failed_op(call: BackendCall, e: BackendError) -> BackendOp {
    BackendOp { call, error: Some(e) }
}

/// The outcome a history entry records for the result `r`.
pub open spec fn spec_outcome<T>(r: Result<T, BackendError>) -> Option<BackendError> {
    match r {
        Ok(_) => None,
        Err(e) => Some(e),
    }
}

/// `s` with its last entry turned into the same request failed with `e`.
pub open spec fn with_last_failed(s: Seq<BackendOp>, e: BackendError) -> Seq<BackendOp>
    recommends
        s.len() > 0,
{
    s.update(s.len() - 1, BackendOp { call: s.last().call, error: Some(e) })
}

/// Holds when `post` extends `pre` by exactly one entry, whatever it is.
pub open spec fn extended_any(pre: Seq<BackendOp>, post: Seq<BackendOp>) -> bool {
    &&& post.len() == pre.len() + 1
    &&& post.drop_last() == pre
}

/// The connection to the KVM introspection subsystem.
///
/// Every operation records itself in the connection's history, so that a
/// driver built on top can state exactly which requests each of its methods
/// issues. Nothing is assumed about whether a request succeeds or what data
/// comes back: a scripted double and a live hypervisor connection are both
/// valid implementations.
pub trait KVMIntrospectable: Sized {
    /// The requests issued on this connection so far, oldest first, each
    /// with its outcome.
    spec fn history(&self) -> Seq<BackendOp>;

    /// Connect to the introspection socket at `socket_path`.
    fn init(&mut self, socket_path: &str) -> (r: Result<(), BackendError>)
        ensures
            extended_any(old(self).history(), final(self).history()),
            final(self).history().last() matches BackendOp { call: BackendCall::Init { path }, error }
                && path@ == socket_path@ && error == spec_outcome(r),
    ;

    /// Enable or disable delivery of an event class on one VCPU.
    fn control_events(&mut self, vcpu: u16, intercept: InterceptKind, enabled: bool) -> (r: Result<
        (),
        BackendError,
    >)
        ensures
            final(self).history() == old(self).history().push(
                BackendOp {
                    call: BackendCall::ControlEvents { vcpu, intercept, enabled },
                    error: spec_outcome(r),
                },
            ),
    ;

    /// Enable or disable interception of one control register on one VCPU.
    fn control_cr(&mut self, vcpu: u16, reg: CrReg, enabled: bool) -> (r: Result<
        (),
        BackendError,
    >)
        ensures
            final(self).history() == old(self).history().push(
                BackendOp {
                    call: BackendCall::ControlCr { vcpu, reg, enabled },
                    error: spec_outcome(r),
                },
            ),
    ;

    /// Enable or disable interception of one model-specific register.
    fn control_msr(&mut self, vcpu: u16, reg: u32, enabled: bool) -> (r: Result<
        (),
        BackendError,
    >)
        ensures
            final(self).history() == old(self).history().push(
                BackendOp {
                    call: BackendCall::ControlMsr { vcpu, reg, enabled },
                    error: spec_outcome(r),
                },
            ),
    ;

    /// Read `len` bytes of physical memory at `gpa` into
    /// `buf[start..start + len]`. Bytes outside that window are untouched;
    /// what lands inside it is the backend's to decide.
    fn read_physical(&mut self, gpa: u64, buf: &mut Vec<u8>, start: usize, len: usize) -> (r:
        Result<(), BackendError>)
        requires
            start + len <= old(buf)@.len(),
        ensures
            final(self).history() == old(self).history().push(
                BackendOp { call: BackendCall::ReadPhysical { gpa, len }, error: spec_outcome(r) },
            ),
            final(buf)@.len() == old(buf)@.len(),
            forall|i: int|
                0 <= i < old(buf)@.len() && !(start <= i < start + len)
                    ==> final(buf)@[i] == old(buf)@[i],
    ;

    /// Write the bytes of `buf` to physical memory at `gpa`, in one request.
    fn write_physical(&mut self, gpa: u64, buf: &Vec<u8>) -> (r: Result<(), BackendError>)
        ensures
            extended_any(old(self).history(), final(self).history()),
            final(self).history().last() matches BackendOp {
                call: BackendCall::WritePhysical { gpa: g, data },
                error,
            } && g == gpa && data@ == buf@ && error == spec_outcome(r),
    ;

    /// Set the permission of the page at `gpa` in the given view.
    fn set_page_access(&mut self, gpa: u64, access: PageAccess, view: u16) -> (r: Result<
        (),
        BackendError,
    >)
        ensures
            final(self).history() == old(self).history().push(
                BackendOp {
                    call: BackendCall::SetPageAccess { gpa, access, view },
                    error: spec_outcome(r),
                },
            ),
    ;

    /// Request a VM-wide pause; every VCPU will acknowledge with a
    /// VCPU-pause event.
    fn pause(&mut self) -> (r: Result<(), BackendError>)
        ensures
            final(self).history() == old(self).history().push(
                BackendOp { call: BackendCall::Pause, error: spec_outcome(r) },
            ),
    ;

    /// Request a VM-wide resume.
    fn resume(&mut self) -> (r: Result<(), BackendError>)
        ensures
            final(self).history() == old(self).history().push(
                BackendOp { call: BackendCall::Resume, error: spec_outcome(r) },
            ),
    ;

    /// Query the number of VCPUs of the introspected VM.
    fn get_vcpu_count(&mut self) -> (r: Result<u32, BackendError>)
        ensures
            r matches Ok(c) ==> final(self).history() == old(self).history().push(
                ok_op(BackendCall::GetVcpuCount { count: c }),
            ),
            r matches Err(e) ==> extended_any(old(self).history(), final(self).history()) && (
            final(self).history().last() matches BackendOp {
                call: BackendCall::GetVcpuCount { .. },
                error,
            } && error == Some(e)),
    ;

    /// Read one VCPU's registers: the general-purpose block, the special
    /// registers, and exactly six model-specific-register slots, in the
    /// order the backend fills them.
    fn get_registers(&mut self, vcpu: u16) -> (r: Result<
        (Regs, Sregs, [MsrEntry; 6]),
        BackendError,
    >)
        ensures
            r matches Ok(t) ==> final(self).history() == old(self).history().push(
                ok_op(BackendCall::GetRegisters { vcpu, regs: t.0, sregs: t.1, msrs: t.2 }),
            ),
            r matches Err(e) ==> extended_any(old(self).history(), final(self).history()) && (
            final(self).history().last() matches BackendOp {
                call: BackendCall::GetRegisters { vcpu: v, .. },
                error,
            } && v == vcpu && error == Some(e)),
    ;

    /// Write one VCPU's general-purpose registers.
    fn set_registers(&mut self, vcpu: u16, regs: &Regs) -> (r: Result<(), BackendError>)
        ensures
            final(self).history() == old(self).history().push(
                BackendOp {
                    call: BackendCall::SetRegisters { vcpu, regs: *regs },
                    error: spec_outcome(r),
                },
            ),
    ;

    /// Wait up to `ms` milliseconds for the next event and pop it.
    /// `Ok(None)` means the timeout elapsed with nothing pending.
    fn wait_and_pop_event(&mut self, ms: i32) -> (r: Result<Option<KvmiEvent>, BackendError>)
        ensures
            r matches Ok(p) ==> final(self).history() == old(self).history().push(
                ok_op(BackendCall::WaitAndPopEvent { ms, popped: p }),
            ),
            r matches Err(e) ==> extended_any(old(self).history(), final(self).history()) && (
            final(self).history().last() matches BackendOp {
                call: BackendCall::WaitAndPopEvent { ms: m, .. },
                error,
            } && m == ms && error == Some(e)),
    ;

    /// Acknowledge `event`, resuming the VCPU that reported it.
    fn reply(&mut self, event: &KvmiEvent, reply_type: EventReply) -> (r: Result<
        (),
        BackendError,
    >)
        ensures
            final(self).history() == old(self).history().push(
                BackendOp {
                    call: BackendCall::Reply { event: *event, reply: reply_type },
                    error: spec_outcome(r),
                },
            ),
    ;

    /// Query the highest guest physical address.
    fn get_maximum_paddr(&mut self) -> (r: Result<u64, BackendError>)
        ensures
            r matches Ok(p) ==> final(self).history() == old(self).history().push(
                ok_op(BackendCall::GetMaximumPaddr { paddr: p }),
            ),
            r matches Err(e) ==> extended_any(old(self).history(), final(self).history()) && (
            final(self).history().last() matches BackendOp {
                call: BackendCall::GetMaximumPaddr { .. },
                error,
            } && error == Some(e)),
    ;
}

} // verus!
