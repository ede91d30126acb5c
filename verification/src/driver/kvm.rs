//! The KVM VMI driver: the permission and register codecs, the per-VCPU
//! event registry, the pause/resume coordinator, and the chunked
//! physical-memory transfer logic, all built on an injected backend
//! connection.

use vstd::prelude::*;

use crate::api::Access;
use crate::api::CrType;
use crate::api::DriverError;
use crate::api::DriverInitParams;
use crate::api::Event;
use crate::api::Registers;
use crate::api::TeardownFailure;
use crate::api::Violation;
use crate::api::DriverType;
use crate::api::KVMDriverError;
use crate::api::KVMInitParams;
use crate::api::EventReplyType;
use crate::api::EventType;
use crate::api::InterceptType;
use crate::api::SegmentReg;
use crate::api::SystemTableReg;
use crate::api::X86Registers;
use crate::backend::BackendCall;
use crate::backend::BackendError;
use crate::backend::BackendOp;
use crate::backend::CrReg;
use crate::backend::Dtable;
use crate::backend::EventKind;
use crate::backend::EventReply;
use crate::backend::InterceptKind;
use crate::backend::KVMIntrospectable;
use crate::backend::KvmiEvent;
use crate::backend::MsrEntry;
use crate::backend::PageAccess;
use crate::backend::PAGE_SIZE;
use crate::backend::Regs;
use crate::backend::extended_any;
use crate::backend::failed_op;
use crate::backend::ok_op;
use crate::backend::with_last_failed;
use crate::backend::Segment;
use crate::backend::Sregs;

verus! {

// ---------------------------------------------------------------------------
// Permission codec
// ---------------------------------------------------------------------------

/// The generic permission corresponding to each backend-native permission.
pub open spec fn spec_access_from_page_access(p: PageAccess) -> Access {
    match p {
        PageAccess::NIL => Access::NIL,
        PageAccess::R => Access::R,
        PageAccess::W => Access::W,
        PageAccess::RW => Access::RW,
        PageAccess::X => Access::X,
        PageAccess::RX => Access::RX,
        PageAccess::WX => Access::WX,
        PageAccess::RWX => Access::RWX,
    }
}

/// The backend-native permission corresponding to each generic permission.
pub open spec fn spec_page_access_from_access(a: Access) -> PageAccess {
    match a {
        Access::NIL => PageAccess::NIL,
        Access::R => PageAccess::R,
        Access::W => PageAccess::W,
        Access::RW => PageAccess::RW,
        Access::X => PageAccess::X,
        Access::RX => PageAccess::RX,
        Access::WX => PageAccess::WX,
        Access::RWX => PageAccess::RWX,
    }
}

/// The numeric wire encoding of a backend-native permission: a bitmask with
/// read as 1, write as 2 and execute as 4.
pub open spec fn spec_page_access_bits(p: PageAccess) -> u8 {
    match p {
        PageAccess::NIL => 0u8,
        PageAccess::R => 1u8,
        PageAccess::W => 2u8,
        PageAccess::RW => 3u8,
        PageAccess::X => 4u8,
        PageAccess::RX => 5u8,
        PageAccess::WX => 6u8,
        PageAccess::RWX => 7u8,
    }
}

/// Decodes a numeric permission; every value above 7 is invalid.
pub open spec fn spec_page_access_from_bits(v: u8) -> Option<PageAccess> {
    if v == 0 {
        Some(PageAccess::NIL)
    } else if v == 1 {
        Some(PageAccess::R)
    } else if v == 2 {
        Some(PageAccess::W)
    } else if v == 3 {
        Some(PageAccess::RW)
    } else if v == 4 {
        Some(PageAccess::X)
    } else if v == 5 {
        Some(PageAccess::RX)
    } else if v == 6 {
        Some(PageAccess::WX)
    } else if v == 7 {
        Some(PageAccess::RWX)
    } else {
        None
    }
}

/// Translates a backend-native permission into the generic model.
pub fn access_from_page_access(p: PageAccess) -> (r: Access)
    ensures
        r == spec_access_from_page_access(p),
{
    match p {
        PageAccess::NIL => Access::NIL,
        PageAccess::R => Access::R,
        PageAccess::W => Access::W,
        PageAccess::RW => Access::RW,
        PageAccess::X => Access::X,
        PageAccess::RX => Access::RX,
        PageAccess::WX => Access::WX,
        PageAccess::RWX => Access::RWX,
    }
}

/// Translates a generic permission into the backend-native enumeration.
pub fn page_access_from_access(a: Access) -> (r: PageAccess)
    ensures
        r == spec_page_access_from_access(a),
{
    match a {
        Access::NIL => PageAccess::NIL,
        Access::R => PageAccess::R,
        Access::W => PageAccess::W,
        Access::RW => PageAccess::RW,
        Access::X => PageAccess::X,
        Access::RX => PageAccess::RX,
        Access::WX => PageAccess::WX,
        Access::RWX => PageAccess::RWX,
    }
}

/// Encodes a backend-native permission as its numeric wire value.
pub fn page_access_bits(p: PageAccess) -> (r: u8)
    ensures
        r == spec_page_access_bits(p),
{
    match p {
        PageAccess::NIL => 0u8,
        PageAccess::R => 1u8,
        PageAccess::W => 2u8,
        PageAccess::RW => 3u8,
        PageAccess::X => 4u8,
        PageAccess::RX => 5u8,
        PageAccess::WX => 6u8,
        PageAccess::RWX => 7u8,
    }
}

/// Decodes a numeric wire value into a backend-native permission; fails on
/// every value outside the eight valid encodings, never clamps.
pub fn page_access_from_bits(v: u8) -> (r: Option<PageAccess>)
    ensures
        r == spec_page_access_from_bits(v),
{
    if v == 0 {
        Some(PageAccess::NIL)
    } else if v == 1 {
        Some(PageAccess::R)
    } else if v == 2 {
        Some(PageAccess::W)
    } else if v == 3 {
        Some(PageAccess::RW)
    } else if v == 4 {
        Some(PageAccess::X)
    } else if v == 5 {
        Some(PageAccess::RX)
    } else if v == 6 {
        Some(PageAccess::WX)
    } else if v == 7 {
        Some(PageAccess::RWX)
    } else {
        None
    }
}

/// Law: over all eight permissions, translating to the backend-native
/// enumeration and back is the identity, and so is the reverse round trip.
pub proof fn lemma_access_round_trip(a: Access, p: PageAccess)
    ensures
        spec_access_from_page_access(spec_page_access_from_access(a)) == a,
        spec_page_access_from_access(spec_access_from_page_access(p)) == p,
{
}

/// Law: over all eight permissions, encoding to the numeric wire value and
/// decoding again is the identity, and every numeric value above 7 fails to
/// decode.
pub proof fn lemma_page_access_bits_round_trip(p: PageAccess, v: u8)
    ensures
        spec_page_access_from_bits(spec_page_access_bits(p)) == Some(p),
        v > 7 ==> spec_page_access_from_bits(v) is None,
{
}


// ---------------------------------------------------------------------------
// Control-register and event-reply codecs
// ---------------------------------------------------------------------------

/// The generic control-register selector for a backend-native one.
pub open spec fn spec_cr_type_from_cr_reg(c: CrReg) -> CrType {
    match c {
        CrReg::Cr0 => CrType::Cr0,
        CrReg::Cr3 => CrType::Cr3,
        CrReg::Cr4 => CrType::Cr4,
    }
}

/// The backend-native control-register selector for a generic one.
pub open spec fn spec_cr_reg_from_cr_type(c: CrType) -> CrReg {
    match c {
        CrType::Cr0 => CrReg::Cr0,
        CrType::Cr3 => CrReg::Cr3,
        CrType::Cr4 => CrReg::Cr4,
    }
}

/// Translates a backend-native control-register selector.
pub fn cr_type_from_cr_reg(c: CrReg) -> (r: CrType)
    ensures
        r == spec_cr_type_from_cr_reg(c),
{
    match c {
        CrReg::Cr0 => CrType::Cr0,
        CrReg::Cr3 => CrType::Cr3,
        CrReg::Cr4 => CrType::Cr4,
    }
}

/// Translates a generic control-register selector to the backend-native one.
pub fn cr_reg_from_cr_type(c: CrType) -> (r: CrReg)
    ensures
        r == spec_cr_reg_from_cr_type(c),
{
    match c {
        CrType::Cr0 => CrReg::Cr0,
        CrType::Cr3 => CrReg::Cr3,
        CrType::Cr4 => CrReg::Cr4,
    }
}

/// The backend-native reply for a generic event reply.
pub open spec fn spec_event_reply_from_reply_type(rt: EventReplyType) -> EventReply {
    match rt {
        EventReplyType::Continue => EventReply::Continue,
    }
}

/// Translates a generic event reply to the backend-native one.
pub fn event_reply_from_reply_type(rt: EventReplyType) -> (r: EventReply)
    ensures
        r == spec_event_reply_from_reply_type(rt),
{
    match rt {
        EventReplyType::Continue => EventReply::Continue,
    }
}

// ---------------------------------------------------------------------------
// Event codec
// ---------------------------------------------------------------------------

/// The generic event kind for a backend-native one, field by field; the
/// VCPU-pause acknowledgement has no generic counterpart and maps to `None`.
pub open spec fn spec_event_type_from_kind(k: EventKind) -> Option<EventType> {
    match k {
        EventKind::PauseVCPU => None,
        EventKind::Cr { cr_reg, new_value, old_value } => Some(
            EventType::Cr { cr_type: spec_cr_type_from_cr_reg(cr_reg), new_value, old_value },
        ),
        EventKind::Msr { msr_type, new_value, old_value } => Some(
            EventType::Msr { msr_type, value: new_value },
        ),
        EventKind::Breakpoint { gpa, insn_len } => Some(EventType::Breakpoint { gpa, insn_len }),
        EventKind::Pagefault { gva, gpa, access, view } => Some(
            EventType::Pagefault { gva, gpa, access: spec_access_from_page_access(access) },
        ),
    }
}

/// Translates a backend-native event kind into the generic model; the
/// VCPU-pause acknowledgement yields `None`.
pub fn event_type_from_kind(k: &EventKind) -> (r: Option<EventType>)
    ensures
        r == spec_event_type_from_kind(*k),
{
    match k {
        EventKind::PauseVCPU => None,
        EventKind::Cr { cr_reg, new_value, old_value } => Some(
            EventType::Cr {
                cr_type: cr_type_from_cr_reg(*cr_reg),
                new_value: *new_value,
                old_value: *old_value,
            },
        ),
        EventKind::Msr { msr_type, new_value, old_value } => Some(
            EventType::Msr { msr_type: *msr_type, value: *new_value },
        ),
        EventKind::Breakpoint { gpa, insn_len } => Some(
            EventType::Breakpoint { gpa: *gpa, insn_len: *insn_len },
        ),
        EventKind::Pagefault { gva, gpa, access, view } => Some(
            EventType::Pagefault {
                gva: *gva,
                gpa: *gpa,
                access: access_from_page_access(*access),
            },
        ),
    }
}

// ---------------------------------------------------------------------------
// Register codec
// ---------------------------------------------------------------------------

/// The generic segment register for a backend-native one: base, limit and
/// selector, copied losslessly.
pub open spec fn spec_segment_reg(s: Segment) -> SegmentReg {
    SegmentReg { base: s.base, limit: s.limit, selector: s.selector }
}

/// The generic descriptor-table register for a backend-native one: base and
/// limit, copied losslessly.
pub open spec fn spec_system_table_reg(d: Dtable) -> SystemTableReg {
    SystemTableReg { base: d.base, limit: d.limit }
}

/// The generic x86-64 register file assembled from a backend register
/// response. The six model-specific registers are taken positionally from
/// the response list: SYSENTER_CS, SYSENTER_ESP, SYSENTER_EIP, EFER, STAR,
/// LSTAR, in that order.
pub open spec fn spec_x86_registers(regs: Regs, sregs: Sregs, msrs: Seq<MsrEntry>) -> X86Registers
    recommends
        msrs.len() >= 6,
{
    X86Registers {
        rax: regs.rax,
        rbx: regs.rbx,
        rcx: regs.rcx,
        rdx: regs.rdx,
        rsi: regs.rsi,
        rdi: regs.rdi,
        rsp: regs.rsp,
        rbp: regs.rbp,
        r8: regs.r8,
        r9: regs.r9,
        r10: regs.r10,
        r11: regs.r11,
        r12: regs.r12,
        r13: regs.r13,
        r14: regs.r14,
        r15: regs.r15,
        rip: regs.rip,
        rflags: regs.rflags,
        cr0: sregs.cr0,
        cr2: sregs.cr2,
        cr3: sregs.cr3,
        cr4: sregs.cr4,
        sysenter_cs: msrs[0].data,
        sysenter_esp: msrs[1].data,
        sysenter_eip: msrs[2].data,
        msr_efer: msrs[3].data,
        msr_star: msrs[4].data,
        msr_lstar: msrs[5].data,
        efer: sregs.efer,
        apic_base: sregs.apic_base,
        cs: spec_segment_reg(sregs.cs),
        ds: spec_segment_reg(sregs.ds),
        es: spec_segment_reg(sregs.es),
        fs: spec_segment_reg(sregs.fs),
        gs: spec_segment_reg(sregs.gs),
        ss: spec_segment_reg(sregs.ss),
        tr: spec_segment_reg(sregs.tr),
        ldt: spec_segment_reg(sregs.ldt),
        idt: spec_system_table_reg(sregs.idt),
        gdt: spec_system_table_reg(sregs.gdt),
    }
}

/// The backend-native general-purpose block for a generic register file:
/// the sixteen general-purpose registers, the instruction pointer and the
/// flags, copied losslessly.
pub open spec fn spec_regs_from_x86(x: X86Registers) -> Regs {
    Regs {
        rax: x.rax,
        rbx: x.rbx,
        rcx: x.rcx,
        rdx: x.rdx,
        rsi: x.rsi,
        rdi: x.rdi,
        rsp: x.rsp,
        rbp: x.rbp,
        r8: x.r8,
        r9: x.r9,
        r10: x.r10,
        r11: x.r11,
        r12: x.r12,
        r13: x.r13,
        r14: x.r14,
        r15: x.r15,
        rip: x.rip,
        rflags: x.rflags,
    }
}

/// Translates a backend-native segment register.
pub fn segment_reg_from_segment(s: &Segment) -> (r: SegmentReg)
    ensures
        r == spec_segment_reg(*s),
{
    SegmentReg { base: s.base, limit: s.limit, selector: s.selector }
}

/// Translates a backend-native descriptor-table register.
pub fn system_table_reg_from_dtable(d: &Dtable) -> (r: SystemTableReg)
    ensures
        r == spec_system_table_reg(*d),
{
    SystemTableReg { base: d.base, limit: d.limit }
}

/// Assembles the generic x86-64 register file from a backend register
/// response, copying every field losslessly and mapping the six
/// model-specific-register slots positionally.
pub fn x86_registers_from_response(regs: &Regs, sregs: &Sregs, msrs: &[MsrEntry; 6]) -> (r:
    X86Registers)
    ensures
        r == spec_x86_registers(*regs, *sregs, msrs@),
{
    X86Registers {
        rax: regs.rax,
        rbx: regs.rbx,
        rcx: regs.rcx,
        rdx: regs.rdx,
        rsi: regs.rsi,
        rdi: regs.rdi,
        rsp: regs.rsp,
        rbp: regs.rbp,
        r8: regs.r8,
        r9: regs.r9,
        r10: regs.r10,
        r11: regs.r11,
        r12: regs.r12,
        r13: regs.r13,
        r14: regs.r14,
        r15: regs.r15,
        rip: regs.rip,
        rflags: regs.rflags,
        cr0: sregs.cr0,
        cr2: sregs.cr2,
        cr3: sregs.cr3,
        cr4: sregs.cr4,
        sysenter_cs: msrs[0].data,
        sysenter_esp: msrs[1].data,
        sysenter_eip: msrs[2].data,
        msr_efer: msrs[3].data,
        msr_star: msrs[4].data,
        msr_lstar: msrs[5].data,
        efer: sregs.efer,
        apic_base: sregs.apic_base,
        cs: segment_reg_from_segment(&sregs.cs),
        ds: segment_reg_from_segment(&sregs.ds),
        es: segment_reg_from_segment(&sregs.es),
        fs: segment_reg_from_segment(&sregs.fs),
        gs: segment_reg_from_segment(&sregs.gs),
        ss: segment_reg_from_segment(&sregs.ss),
        tr: segment_reg_from_segment(&sregs.tr),
        ldt: segment_reg_from_segment(&sregs.ldt),
        idt: system_table_reg_from_dtable(&sregs.idt),
        gdt: system_table_reg_from_dtable(&sregs.gdt),
    }
}

/// Extracts the backend-native general-purpose block from a generic
/// register file, for a register write.
pub fn regs_from_x86(x: &X86Registers) -> (r: Regs)
    ensures
        r == spec_regs_from_x86(*x),
{
    Regs {
        rax: x.rax,
        rbx: x.rbx,
        rcx: x.rcx,
        rdx: x.rdx,
        rsi: x.rsi,
        rdi: x.rdi,
        rsp: x.rsp,
        rbp: x.rbp,
        r8: x.r8,
        r9: x.r9,
        r10: x.r10,
        r11: x.r11,
        r12: x.r12,
        r13: x.r13,
        r14: x.r14,
        r15: x.r15,
        rip: x.rip,
        rflags: x.rflags,
    }
}


// ---------------------------------------------------------------------------
// The driver
// ---------------------------------------------------------------------------

/// The three requests that enable (or disable) the default event classes
/// on one VCPU: control-register, model-specific-register and page-fault,
/// in that order, each succeeding.
pub open spec fn control_triple(vcpu: u16, enabled: bool) -> Seq<BackendOp> {
    seq![
        ok_op(BackendCall::ControlEvents { vcpu, intercept: InterceptKind::Cr, enabled }),
        ok_op(BackendCall::ControlEvents { vcpu, intercept: InterceptKind::Msr, enabled }),
        ok_op(BackendCall::ControlEvents { vcpu, intercept: InterceptKind::Pagefault, enabled }),
    ]
}

/// The requests that enable (or disable) the three default event classes
/// on VCPUs `0..n`, in order, all succeeding: three requests per VCPU,
/// each issued once.
pub open spec fn control_calls(n: nat, enabled: bool) -> Seq<BackendOp>
    decreases n,
{
    if n == 0 {
        Seq::empty()
    } else {
        control_calls((n - 1) as nat, enabled) + control_triple((n - 1) as u16, enabled)
    }
}

/// The enable (or disable) plan interrupted by a failure: the full triples
/// of VCPUs `0..v`, the first `m` requests of VCPU `v`'s triple, and then
/// request `m` of that triple failed with `e`.
pub open spec fn control_calls_failed_at(v: nat, m: int, enabled: bool, e: BackendError) -> Seq<
    BackendOp,
>
    recommends
        0 <= m < 3,
{
    control_calls(v, enabled) + control_triple(v as u16, enabled).take(m).push(
        BackendOp { call: control_triple(v as u16, enabled)[m].call, error: Some(e) },
    )
}

/// Law: the enable (or disable) plan for `n` VCPUs holds exactly three
/// requests per VCPU.
pub proof fn lemma_control_calls_len(n: nat, enabled: bool)
    ensures
        control_calls(n, enabled).len() == 3 * n,
    decreases n,
{
    if n > 0 {
        lemma_control_calls_len((n - 1) as nat, enabled);
    }
}

/// The backend request a `toggle_intercept` call issues: control-register
/// and model-specific-register intercepts name the register to watch,
/// breakpoint and page-fault intercepts toggle the whole event class.
pub open spec fn spec_intercept_call(vcpu: u16, it: InterceptType, enabled: bool) -> BackendCall {
    match it {
        InterceptType::Cr(c) => BackendCall::ControlCr {
            vcpu,
            reg: spec_cr_reg_from_cr_type(c),
            enabled,
        },
        InterceptType::Msr(m) => BackendCall::ControlMsr { vcpu, reg: m, enabled },
        InterceptType::Breakpoint => BackendCall::ControlEvents {
            vcpu,
            intercept: InterceptKind::Breakpoint,
            enabled,
        },
        InterceptType::Pagefault => BackendCall::ControlEvents {
            vcpu,
            intercept: InterceptKind::Pagefault,
            enabled,
        },
    }
}

/// The history outcome matching a driver result whose only failure mode
/// is a backend failure: `None` on success, the propagated backend error
/// on failure.
pub open spec fn spec_backend_outcome(r: Result<(), DriverError>) -> Option<BackendError>
    recommends
        r is Ok || r->Err_0 is Backend,
{
    match r {
        Ok(u) => None,
        Err(e) => match e {
            DriverError::Backend(be) => Some(be),
            _ => None,
        },
    }
}

/// The KVM driver.
///
/// It owns the backend connection, the per-VCPU registry of unacknowledged
/// events, and the pause counter. The registry has one slot per VCPU; slot
/// `i` is occupied exactly while an event reported by VCPU `i` awaits its
/// reply. The pause counter is zero while the VM is running and holds the
/// number of expected pause acknowledgements while a pause is in flight.
pub struct Kvm<T: KVMIntrospectable> {
    kvmi: T,
    expect_pause_ev: u32,
    vec_events: Vec<Option<KvmiEvent>>,
}

impl<T: KVMIntrospectable> Kvm<T> {
    /// The requests this driver has issued on its connection, oldest
    /// first, each with its outcome.
    pub closed spec fn history(&self) -> Seq<BackendOp> {
        self.kvmi.history()
    }

    /// The per-VCPU event registry: slot `i` holds the unacknowledged
    /// backend-native event of VCPU `i`, if any.
    pub closed spec fn registry(&self) -> Seq<Option<KvmiEvent>> {
        self.vec_events@
    }

    /// The number of VCPU-pause acknowledgements still owed; zero means the
    /// VM is not pausing.
    pub closed spec fn pause_count(&self) -> u32 {
        self.expect_pause_ev
    }

    /// Holds when no registry slot is occupied.
    pub open spec fn registry_empty(&self) -> bool {
        forall|i: int| 0 <= i < self.registry().len() ==> self.registry()[i] is None
    }

    /// The backend connection, for inspection.
    pub fn backend(&self) -> (r: &T)
        ensures
            r.history() == self.history(),
    {
        &self.kvmi
    }

    /// Connects to the backend and builds the driver: checks the required
    /// parameters before any backend contact, opens the socket at the
    /// configured path, queries the VCPU count, sizes the registry with one
    /// empty slot per VCPU, and enables the control-register,
    /// model-specific-register and page-fault event classes on every VCPU,
    /// exactly once each. Any failure aborts construction: no partial
    /// driver is returned, and the connection is handed back together with
    /// the error, its history fixed up to and including the failed request.
    pub fn new(kvmi: T, init_params: DriverInitParams) -> (r: Result<Kvm<T>, (T, DriverError)>)
        ensures
            init_params.common is None ==> (r matches Err(p) && p.1 == DriverError::Kvm(
                KVMDriverError::MissingVMName,
            ) && p.0.history() == kvmi.history()),
            init_params.common is Some && init_params.kvm is None ==> (r matches Err(p) && p.1
                == DriverError::Kvm(KVMDriverError::MissingSocketParameter) && p.0.history()
                == kvmi.history()),
            r matches Ok(d) ==> ({
                let h0 = kvmi.history();
                let h = d.history();
                let n = d.registry().len();
                &&& init_params.common is Some
                &&& init_params.kvm is Some
                &&& d.pause_count() == 0
                &&& n <= u16::MAX
                &&& d.registry_empty()
                &&& h.len() == h0.len() + 2 + 3 * n
                &&& h.take(h0.len() as int) == h0
                &&& (h[h0.len() as int] matches BackendOp {
                    call: BackendCall::Init { path },
                    error: None,
                } && (init_params.kvm matches Some(KVMInitParams::UnixSocket { path: p })
                    && path@ == p@))
                &&& h[h0.len() as int + 1] == ok_op(BackendCall::GetVcpuCount { count: n as u32 })
                &&& h.subrange(h0.len() as int + 2, h.len() as int) == control_calls(n as nat, true)
            }),
            init_params.common is Some && init_params.kvm is Some ==> (r matches Err(p) ==> ({
                let h0 = kvmi.history();
                let h = p.0.history();
                let e = p.1;
                &&& h.len() > h0.len()
                &&& h.take(h0.len() as int) == h0
                &&& (h[h0.len() as int] matches BackendOp {
                    call: BackendCall::Init { path },
                    error: ie,
                } && (init_params.kvm matches Some(KVMInitParams::UnixSocket { path: p2 })
                    && path@ == p2@) && (ie matches Some(be) ==> h.len() == h0.len() + 1 && e
                    == DriverError::Backend(be)) && (ie is None ==> h.len() > h0.len() + 1))
                &&& h.len() > h0.len() + 1 ==> (h[h0.len() as int + 1] matches BackendOp {
                    call: BackendCall::GetVcpuCount { count },
                    error: ge,
                } && ({
                    ||| (ge matches Some(be) && h.len() == h0.len() + 2 && e
                        == DriverError::Backend(be))
                    ||| (ge is None && count > u16::MAX && h.len() == h0.len() + 2 && e
                        == DriverError::VcpuCountOverflow)
                    ||| (ge is None && count <= u16::MAX && (e matches DriverError::Backend(be)
                        && (exists|v: int, m: int|
                        #![trigger control_calls(v as nat, true), control_triple(v as u16, true).take(m)]
                        0 <= v < count && 0 <= m < 3 && h.subrange(
                            h0.len() as int + 2,
                            h.len() as int,
                        ) == control_calls_failed_at(v as nat, m, true, be))))
                }))
            })),
    {
        if init_params.common.is_none() {
            return Err((kvmi, DriverError::Kvm(KVMDriverError::MissingVMName)));
        }
        let path: String = match &init_params.kvm {
            Some(KVMInitParams::UnixSocket { path }) => path.clone(),
            None => {
                return Err((kvmi, DriverError::Kvm(KVMDriverError::MissingSocketParameter)));
            },
        };
        let ghost h0 = kvmi.history();
        let mut kvmi = kvmi;
        match kvmi.init(path.as_str()) {
            Ok(u) => u,
            Err(e) => {
                return Err((kvmi, DriverError::Backend(e)));
            },
        };
        let mut kvm = Kvm { kvmi, expect_pause_ev: 0u32, vec_events: Vec::new() };
        let vcpu_count: u16 = match kvm.get_vcpu_count() {
            Ok(c) => c,
            Err(e) => {
                return Err((kvm.kvmi, e));
            },
        };
        let ghost base = kvm.kvmi.history();

        // size the registry: one empty slot per VCPU
        let mut i: usize = 0;
        while i < vcpu_count as usize
            invariant
                i <= vcpu_count as usize,
                kvm.vec_events@.len() == i,
                forall|k: int| 0 <= k < i ==> kvm.vec_events@[k] is None,
                kvm.expect_pause_ev == 0,
                kvm.kvmi.history() == base,
            decreases vcpu_count as usize - i,
        {
            kvm.vec_events.push(None);
            i = i + 1;
        }

        // enable the default event classes on every VCPU
        // (control-register interception additionally needs the register to
        // be named through `toggle_intercept` before events are delivered)
        let mut failure: Option<BackendError> = None;
        let ghost mut fail_v: int = 0;
        let ghost mut fail_m: int = 0;
        let mut vcpu: u16 = 0;
        while vcpu < vcpu_count && failure.is_none()
            invariant
                vcpu <= vcpu_count,
                kvm.expect_pause_ev == 0,
                kvm.vec_events@.len() == vcpu_count as int,
                forall|k: int| 0 <= k < vcpu_count as int ==> kvm.vec_events@[k] is None,
                failure is None ==> kvm.kvmi.history() == base + control_calls(
                    vcpu as nat,
                    true,
                ),
                failure matches Some(be) ==> 0 <= fail_v < vcpu_count && 0 <= fail_m < 3
                    && kvm.kvmi.history() == base + control_calls_failed_at(
                    fail_v as nat,
                    fail_m,
                    true,
                    be,
                ),
            decreases vcpu_count - vcpu, (if failure is None { 1int } else { 0int }),
        {
            let ghost pre = kvm.kvmi.history();
            let ghost c1 = ok_op(
                BackendCall::ControlEvents { vcpu, intercept: InterceptKind::Cr, enabled: true },
            );
            let ghost c2 = ok_op(
                BackendCall::ControlEvents { vcpu, intercept: InterceptKind::Msr, enabled: true },
            );
            let ghost c3 = ok_op(
                BackendCall::ControlEvents {
                    vcpu,
                    intercept: InterceptKind::Pagefault,
                    enabled: true,
                },
            );
            match kvm.kvmi.control_events(vcpu, InterceptKind::Cr, true) {
                Err(e) => {
                    proof {
                        fail_v = vcpu as int;
                        fail_m = 0;
                        assert(kvm.kvmi.history() =~= base + control_calls_failed_at(
                            vcpu as nat,
                            0,
                            true,
                            e,
                        ));
                    }
                    failure = Some(e);
                },
                Ok(u1) => {
                    match kvm.kvmi.control_events(vcpu, InterceptKind::Msr, true) {
                        Err(e) => {
                            proof {
                                fail_v = vcpu as int;
                                fail_m = 1;
                                assert(kvm.kvmi.history() =~= base + control_calls_failed_at(
                                    vcpu as nat,
                                    1,
                                    true,
                                    e,
                                ));
                            }
                            failure = Some(e);
                        },
                        Ok(u2) => {
                            match kvm.kvmi.control_events(vcpu, InterceptKind::Pagefault, true) {
                                Err(e) => {
                                    proof {
                                        fail_v = vcpu as int;
                                        fail_m = 2;
                                        assert(kvm.kvmi.history() =~= base
                                            + control_calls_failed_at(vcpu as nat, 2, true, e));
                                    }
                                    failure = Some(e);
                                },
                                Ok(u3) => {
                                    proof {
                                        assert(control_calls(vcpu as nat + 1, true)
                                            == control_calls(vcpu as nat, true) + control_triple(
                                            vcpu,
                                            true,
                                        ));
                                        assert(base + control_calls(vcpu as nat + 1, true)
                                            =~= pre.push(c1).push(c2).push(c3));
                                    }
                                    vcpu = vcpu + 1;
                                },
                            }
                        },
                    }
                },
            }
        }
        match failure {
            Some(be) => {
                proof {
                    lemma_control_calls_len(fail_v as nat, true);
                    assert(kvm.kvmi.history().take(h0.len() as int) =~= h0);
                    assert(kvm.kvmi.history().subrange(
                        h0.len() as int + 2,
                        kvm.kvmi.history().len() as int,
                    ) =~= control_calls_failed_at(fail_v as nat, fail_m, true, be));
                }
                Err((kvm.kvmi, DriverError::Backend(be)))
            },
            None => {
                proof {
                    lemma_control_calls_len(vcpu_count as nat, true);
                    assert(kvm.kvmi.history().take(h0.len() as int) =~= h0);
                    assert(kvm.kvmi.history().subrange(
                        h0.len() as int + 2,
                        kvm.kvmi.history().len() as int,
                    ) =~= control_calls(vcpu_count as nat, true));
                }
                Ok(kvm)
            },
        }
    }

    /// Queries the VCPU count of the introspected VM. Fails with
    /// `VcpuCountOverflow` when the backend reports more VCPUs than fit in
    /// the per-VCPU addressing of the register model.
    pub fn get_vcpu_count(&mut self) -> (r: Result<u16, DriverError>)
        ensures
            final(self).registry() == old(self).registry(),
            final(self).pause_count() == old(self).pause_count(),
            r matches Ok(c) ==> final(self).history() == old(self).history().push(
                ok_op(BackendCall::GetVcpuCount { count: c as u32 }),
            ),
            r matches Err(e) ==> (e is Backend || e == DriverError::VcpuCountOverflow),
            r == Err::<u16, DriverError>(DriverError::VcpuCountOverflow) ==> (final(self).history().last() matches BackendOp {
                call: BackendCall::GetVcpuCount { count },
                error: None,
            } && count > u16::MAX && final(self).history() == old(self).history().push(
                ok_op(BackendCall::GetVcpuCount { count }),
            )),
            r matches Err(e) ==> (e matches DriverError::Backend(be) ==> extended_any(
                old(self).history(),
                final(self).history(),
            ) && (final(self).history().last() matches BackendOp {
                call: BackendCall::GetVcpuCount { .. },
                error,
            } && error == Some(be))),
    {
        match self.kvmi.get_vcpu_count() {
            Ok(c) => {
                if c > (u16::MAX as u32) {
                    return Err(DriverError::VcpuCountOverflow);
                }
                Ok(c as u16)
            },
            Err(e) => Err(DriverError::Backend(e)),
        }
    }

    /// Requests a VM-wide pause. Idempotent while a pause is already in
    /// flight: a second call issues no request at all and succeeds. From
    /// the running state it issues exactly one pause request, then expects
    /// one acknowledgement per VCPU.
    pub fn pause(&mut self) -> (r: Result<(), DriverError>)
        ensures
            final(self).registry() == old(self).registry(),
            old(self).pause_count() > 0 ==> r is Ok && final(self).history() == old(self).history()
                && final(self).pause_count() == old(self).pause_count(),
            old(self).pause_count() == 0 && r is Ok ==> final(self).history() == old(self).history().push(ok_op(BackendCall::Pause)).push(
                ok_op(BackendCall::GetVcpuCount { count: final(self).pause_count() }),
            ),
            old(self).pause_count() == 0 ==> (r matches Err(e) ==> (e matches DriverError::Backend(
                be,
            ) && final(self).pause_count() == 0 && ({
                ||| final(self).history() == old(self).history().push(
                    failed_op(BackendCall::Pause, be),
                )
                ||| (final(self).history().len() == old(self).history().len() + 2 && final(self).history().take(old(self).history().len() as int) == old(self).history() && final(self).history()[old(self).history().len() as int] == ok_op(BackendCall::Pause) && (
                final(self).history().last() matches BackendOp {
                    call: BackendCall::GetVcpuCount { .. },
                    error,
                } && error == Some(be)))
            }))),
    {
        // already paused?
        if self.expect_pause_ev > 0 {
            return Ok(());
        }
        match self.kvmi.pause() {
            Ok(u) => u,
            Err(e) => {
                return Err(DriverError::Backend(e));
            },
        };
        match self.kvmi.get_vcpu_count() {
            Ok(c) => {
                self.expect_pause_ev = c;
                Ok(())
            },
            Err(e) => {
                proof {
                    let h2 = self.kvmi.history();
                    let h0p = old(self).history();
                    assert(h2.drop_last()[h0p.len() as int] == ok_op(BackendCall::Pause));
                    assert(h2[h0p.len() as int] == ok_op(BackendCall::Pause));
                    assert(h2.take(h0p.len() as int) =~= h0p);
                }
                Err(DriverError::Backend(e))
            },
        }
    }

    /// Requests a VM-wide resume, unconditionally: the pause counter is
    /// neither inspected nor reset, and the registry is untouched.
    pub fn resume(&mut self) -> (r: Result<(), DriverError>)
        ensures
            final(self).registry() == old(self).registry(),
            final(self).pause_count() == old(self).pause_count(),
            final(self).history() == old(self).history().push(
                (BackendOp { call: BackendCall::Resume, error: spec_backend_outcome(r) }),
            ),
            r matches Err(e) ==> e is Backend,
    {
        match self.kvmi.resume() {
            Ok(u) => Ok(u),
            Err(e) => Err(DriverError::Backend(e)),
        }
    }

    /// Enables or disables one intercept on one VCPU, issuing exactly the
    /// request `spec_intercept_call` describes.
    pub fn toggle_intercept(&mut self, vcpu: u16, intercept_type: InterceptType, enabled: bool)
        -> (r: Result<(), DriverError>)
        ensures
            final(self).registry() == old(self).registry(),
            final(self).pause_count() == old(self).pause_count(),
            final(self).history() == old(self).history().push(
                (BackendOp {
                    call: spec_intercept_call(vcpu, intercept_type, enabled),
                    error: spec_backend_outcome(r),
                }),
            ),
            r matches Err(e) ==> e is Backend,
    {
        let res = match intercept_type {
            InterceptType::Cr(micro_cr_type) => {
                let kvmi_cr = cr_reg_from_cr_type(micro_cr_type);
                self.kvmi.control_cr(vcpu, kvmi_cr, enabled)
            },
            InterceptType::Msr(micro_msr_type) => {
                self.kvmi.control_msr(vcpu, micro_msr_type, enabled)
            },
            InterceptType::Breakpoint => {
                self.kvmi.control_events(vcpu, InterceptKind::Breakpoint, enabled)
            },
            InterceptType::Pagefault => {
                self.kvmi.control_events(vcpu, InterceptKind::Pagefault, enabled)
            },
        };
        match res {
            Ok(u) => Ok(u),
            Err(e) => Err(DriverError::Backend(e)),
        }
    }

    /// Sets the permission of the page at `paddr`, translating the generic
    /// permission through the codec and always using the default view.
    pub fn set_page_access(&mut self, paddr: u64, access: Access) -> (r: Result<(), DriverError>)
        ensures
            final(self).registry() == old(self).registry(),
            final(self).pause_count() == old(self).pause_count(),
            final(self).history() == old(self).history().push(
                (BackendOp {
                    call: BackendCall::SetPageAccess {
                        gpa: paddr,
                        access: spec_page_access_from_access(access),
                        view: 0u16,
                    },
                    error: spec_backend_outcome(r),
                }),
            ),
            r matches Err(e) ==> e is Backend,
    {
        let native = page_access_from_access(access);
        match self.kvmi.set_page_access(paddr, native, 0u16) {
            Ok(u) => Ok(u),
            Err(e) => Err(DriverError::Backend(e)),
        }
    }

    /// Writes the bytes of `buf` to physical memory at `paddr` in a single
    /// unchunked request; a write larger than the backend's limit fails at
    /// the backend, it is never split here.
    pub fn write_physical(&mut self, paddr: u64, buf: &Vec<u8>) -> (r: Result<(), DriverError>)
        ensures
            final(self).registry() == old(self).registry(),
            final(self).pause_count() == old(self).pause_count(),
            extended_any(old(self).history(), final(self).history()),
            final(self).history().last() matches BackendOp {
                call: BackendCall::WritePhysical { gpa: g, data },
                error,
            } && g == paddr && data@ == buf@ && error == spec_backend_outcome(r),
            r matches Err(e) ==> e is Backend,
    {
        match self.kvmi.write_physical(paddr, buf) {
            Ok(u) => Ok(u),
            Err(e) => Err(DriverError::Backend(e)),
        }
    }

    /// Queries the highest guest physical address and passes the backend's
    /// answer through unchanged.
    pub fn get_max_physical_addr(&mut self) -> (r: Result<u64, DriverError>)
        ensures
            final(self).registry() == old(self).registry(),
            final(self).pause_count() == old(self).pause_count(),
            r matches Ok(p) ==> final(self).history() == old(self).history().push(
                ok_op(BackendCall::GetMaximumPaddr { paddr: p }),
            ),
            r matches Err(e) ==> (e matches DriverError::Backend(be) && extended_any(
                old(self).history(),
                final(self).history(),
            ) && (final(self).history().last() matches BackendOp {
                call: BackendCall::GetMaximumPaddr { .. },
                error,
            } && error == Some(be))),
    {
        match self.kvmi.get_maximum_paddr() {
            Ok(p) => Ok(p),
            Err(e) => Err(DriverError::Backend(e)),
        }
    }

    /// The kind of backend this driver talks to.
    pub fn get_driver_type(&self) -> (r: DriverType)
        ensures
            r == DriverType::KVM,
    {
        DriverType::KVM
    }

    /// Reads one VCPU's registers and translates the backend's response
    /// losslessly into the generic register file; the six model-specific
    /// registers are mapped positionally from the response list.
    pub fn read_registers(&mut self, vcpu: u16) -> (r: Result<Registers, DriverError>)
        ensures
            final(self).registry() == old(self).registry(),
            final(self).pause_count() == old(self).pause_count(),
            r matches Ok(regs) ==> (final(self).history().last() matches BackendOp {
                call: BackendCall::GetRegisters { vcpu: v, regs: nregs, sregs: nsregs, msrs: nmsrs },
                error: None,
            } && v == vcpu && final(self).history() == old(self).history().push(
                ok_op(BackendCall::GetRegisters { vcpu, regs: nregs, sregs: nsregs, msrs: nmsrs }),
            ) && regs == Registers::X86(spec_x86_registers(nregs, nsregs, nmsrs@))),
            r matches Err(e) ==> (e matches DriverError::Backend(be) && extended_any(
                old(self).history(),
                final(self).history(),
            ) && (final(self).history().last() matches BackendOp {
                call: BackendCall::GetRegisters { vcpu: v, .. },
                error,
            } && v == vcpu && error == Some(be))),
    {
        match self.kvmi.get_registers(vcpu) {
            Ok((regs, sregs, msrs)) => {
                Ok(Registers::X86(x86_registers_from_response(&regs, &sregs, &msrs)))
            },
            Err(e) => Err(DriverError::Backend(e)),
        }
    }

    /// Writes one VCPU's general-purpose registers; control, segment and
    /// descriptor-table registers have no write path in this model.
    pub fn write_registers(&mut self, vcpu: u16, reg: Registers) -> (r: Result<(), DriverError>)
        ensures
            final(self).registry() == old(self).registry(),
            final(self).pause_count() == old(self).pause_count(),
            final(self).history() == old(self).history().push(
                (BackendOp {
                    call: BackendCall::SetRegisters { vcpu, regs: spec_native_regs_of(reg) },
                    error: spec_backend_outcome(r),
                }),
            ),
            r matches Err(e) ==> e is Backend,
    {
        match reg {
            Registers::X86(x86_registers) => {
                let native = regs_from_x86(&x86_registers);
                match self.kvmi.set_registers(vcpu, &native) {
                    Ok(u) => Ok(u),
                    Err(e) => Err(DriverError::Backend(e)),
                }
            },
        }
    }

    /// Waits up to `timeout` milliseconds for the next event.
    ///
    /// On timeout with nothing pending the result is `Ok(None)`. On an
    /// event, the backend-native event is stored in the reporting VCPU's
    /// registry slot, overwriting any unacknowledged entry, and the
    /// translated generic event is returned. A VCPU-pause acknowledgement
    /// here, or an event for a VCPU outside the registry, is a protocol
    /// violation: the driver state is left untouched and the fatal
    /// `ProtocolViolation` signal is returned.
    pub fn listen(&mut self, timeout: u32) -> (r: Result<Option<Event>, DriverError>)
        ensures
            final(self).pause_count() == old(self).pause_count(),
            timeout > i32::MAX as u32 ==> r == Err::<Option<Event>, DriverError>(
                DriverError::InvalidTimeout,
            ) && final(self).history() == old(self).history() && final(self).registry() == old(self).registry(),
            r is Err ==> final(self).registry() == old(self).registry(),
            timeout <= i32::MAX as u32 && r is Err ==> (r->Err_0 is Backend || r->Err_0
                == DriverError::ProtocolViolation(Violation::UnexpectedPauseEvent) || r->Err_0
                == DriverError::ProtocolViolation(Violation::VcpuOutOfRange)),
            r == Ok::<Option<Event>, DriverError>(None) ==> final(self).registry() == old(self).registry() && final(self).history() == old(self).history().push(
                ok_op(BackendCall::WaitAndPopEvent { ms: timeout as i32, popped: None }),
            ),
            r matches Ok(Some(ev)) ==> (final(self).history().last() matches BackendOp {
                call: BackendCall::WaitAndPopEvent { ms, popped },
                error: None,
            } && ms == timeout as i32 && (popped matches Some(nev) && final(self).history() == old(self).history().push(
                ok_op(BackendCall::WaitAndPopEvent { ms: timeout as i32, popped: Some(nev) }),
            ) && ev.vcpu == nev.vcpu && Some(ev.kind) == spec_event_type_from_kind(nev.ev_type)
                && (nev.vcpu as int) < old(self).registry().len() && final(self).registry() == old(self).registry().update(nev.vcpu as int, Some(nev)))),
            r matches Err(e) ==> (e matches DriverError::Backend(be) ==> extended_any(
                old(self).history(),
                final(self).history(),
            ) && (final(self).history().last() matches BackendOp {
                call: BackendCall::WaitAndPopEvent { ms, .. },
                error,
            } && ms == timeout as i32 && error == Some(be))),
            r == Err::<Option<Event>, DriverError>(
                DriverError::ProtocolViolation(Violation::UnexpectedPauseEvent),
            ) ==> (final(self).history().last() matches BackendOp {
                call: BackendCall::WaitAndPopEvent { popped, .. },
                error: None,
            } && popped matches Some(nev) && nev.ev_type is PauseVCPU && final(self).history() == old(self).history().push(
                ok_op(BackendCall::WaitAndPopEvent { ms: timeout as i32, popped: Some(nev) }),
            )),
            r == Err::<Option<Event>, DriverError>(
                DriverError::ProtocolViolation(Violation::VcpuOutOfRange),
            ) ==> (final(self).history().last() matches BackendOp {
                call: BackendCall::WaitAndPopEvent { popped, .. },
                error: None,
            } && popped matches Some(nev) && !(nev.ev_type is PauseVCPU) && (nev.vcpu as int) >= old(self).registry().len() && final(self).history() == old(self).history().push(
                ok_op(BackendCall::WaitAndPopEvent { ms: timeout as i32, popped: Some(nev) }),
            )),
    {
        if timeout > (i32::MAX as u32) {
            return Err(DriverError::InvalidTimeout);
        }
        let ms: i32 = timeout as i32;
        // wait for the next event and pop it
        let popped = match self.kvmi.wait_and_pop_event(ms) {
            Ok(p) => p,
            Err(e) => {
                return Err(DriverError::Backend(e));
            },
        };
        match popped {
            None => Ok(None),
            Some(kvmi_event) => {
                let kind = match event_type_from_kind(&kvmi_event.ev_type) {
                    Some(kind) => kind,
                    None => {
                        // a pause acknowledgement was not absorbed by the
                        // pause machinery: the VM state is unknown
                        return Err(DriverError::ProtocolViolation(Violation::UnexpectedPauseEvent));
                    },
                };
                let vcpu = kvmi_event.vcpu;
                let vcpu_index = vcpu as usize;
                if vcpu_index >= self.vec_events.len() {
                    return Err(DriverError::ProtocolViolation(Violation::VcpuOutOfRange));
                }
                self.vec_events.set(vcpu_index, Some(kvmi_event));
                Ok(Some(Event { vcpu, kind }))
            },
        }
    }

    /// Acknowledges `event`: takes the outstanding backend-native event out
    /// of the registry slot of `event.vcpu` and replies to it, resuming
    /// exactly that VCPU. A reply without an outstanding event (a double
    /// reply, or a reply without a prior `listen`) is a protocol violation:
    /// nothing is sent and the fatal `ProtocolViolation` signal is returned.
    pub fn reply_event(&mut self, event: Event, reply_type: EventReplyType) -> (r: Result<
        (),
        DriverError,
    >)
        ensures
            final(self).pause_count() == old(self).pause_count(),
            (event.vcpu as int) >= old(self).registry().len() ==> r == Err::<(), DriverError>(
                DriverError::ProtocolViolation(Violation::VcpuOutOfRange),
            ) && final(self).history() == old(self).history() && final(self).registry() == old(self).registry(),
            (event.vcpu as int) < old(self).registry().len() ==> ({
                let slot = old(self).registry()[event.vcpu as int];
                &&& slot is None ==> r == Err::<(), DriverError>(
                    DriverError::ProtocolViolation(Violation::ReplyWithoutEvent),
                ) && final(self).history() == old(self).history() && final(self).registry()
                    == old(self).registry()
                &&& slot matches Some(nev) ==> final(self).registry() == old(self).registry().update(event.vcpu as int, None::<KvmiEvent>) && final(self).history()
                    == old(self).history().push(
                    (BackendOp {
                        call: BackendCall::Reply {
                            event: nev,
                            reply: spec_event_reply_from_reply_type(reply_type),
                        },
                        error: spec_backend_outcome(r),
                    }),
                ) && (r is Ok || r->Err_0 is Backend)
            }),
    {
        let kvm_reply_type = event_reply_from_reply_type(reply_type);
        // get the backend-native event associated with this VCPU
        let vcpu_index = event.vcpu as usize;
        if vcpu_index >= self.vec_events.len() {
            return Err(DriverError::ProtocolViolation(Violation::VcpuOutOfRange));
        }
        let stored = self.vec_events[vcpu_index];
        match stored {
            None => Err(DriverError::ProtocolViolation(Violation::ReplyWithoutEvent)),
            Some(kvmi_event) => {
                self.vec_events.set(vcpu_index, None);
                match self.kvmi.reply(&kvmi_event, kvm_reply_type) {
                    Ok(u) => Ok(u),
                    Err(e) => Err(DriverError::Backend(e)),
                }
            },
        }
    }

    /// Reads `buf.len()` bytes of physical memory at `paddr` into `buf`.
    ///
    /// The backend caps transfers at `PAGE_SIZE` bytes, so the request is
    /// split into consecutive page-sized chunks fetched in address order.
    /// The first chunk to fail aborts the read with the backend's error:
    /// already-transferred chunks stay in the buffer, nothing is rolled
    /// back, and the bytes past the failed chunk are untouched. On success
    /// the reported byte count equals the requested length.
    pub fn read_physical(&mut self, paddr: u64, buf: &mut Vec<u8>, bytes_read: &mut u64) -> (r:
        Result<(), DriverError>)
        requires
            paddr + old(buf)@.len() <= u64::MAX,
        ensures
            final(self).registry() == old(self).registry(),
            final(self).pause_count() == old(self).pause_count(),
            final(buf)@.len() == old(buf)@.len(),
            r is Ok ==> final(self).history() == old(self).history() + chunk_calls(
                paddr,
                old(buf)@.len() as nat,
            ) && *final(bytes_read) == old(buf)@.len() as u64,
            r is Err ==> r->Err_0 is Backend && *final(bytes_read) == *old(bytes_read),
            r matches Err(e) ==> (e matches DriverError::Backend(be) && ({
                let done = final(self).history().len() - old(self).history().len();
                &&& 1 <= done <= chunk_calls(paddr, old(buf)@.len() as nat).len()
                &&& final(self).history() == old(self).history() + with_last_failed(
                    chunk_calls(paddr, old(buf)@.len() as nat).take(done as int),
                    be,
                )
                // bytes beyond the attempted chunks are untouched
                &&& forall|i: int|
                    done * (PAGE_SIZE as int) <= i < old(buf)@.len() ==> final(buf)@[i] == old(
                        buf,
                    )@[i]
            })),
    {
        let ghost reg0 = self.vec_events@;
        let ghost pc0 = self.expect_pause_ev;
        let ghost h0 = self.kvmi.history();
        let ghost buf0 = buf@;
        let total: usize = buf.len();
        let ghost full = chunk_calls(paddr, total as nat);
        let ghost mut done_calls: Seq<BackendOp> = Seq::empty();
        let mut chunk_start: usize = 0;
        // the backend handles at most one page per request: chunk the read
        while chunk_start < total
            invariant
                chunk_start <= total,
                paddr + total <= u64::MAX,
                buf@.len() == total,
                buf0.len() == total,
                buf0 == old(buf)@,
                reg0 == old(self).registry(),
                pc0 == old(self).pause_count(),
                h0 == old(self).history(),
                self.vec_events@ == reg0,
                self.expect_pause_ev == pc0,
                self.kvmi.history() == h0 + done_calls,
                full == chunk_calls(paddr, total as nat),
                full == done_calls + chunk_calls(
                    (paddr + chunk_start) as u64,
                    (total - chunk_start) as nat,
                ),
                done_calls.len() * (PAGE_SIZE as int) >= chunk_start as int,
                forall|i: int| chunk_start <= i < total ==> buf@[i] == buf0[i],
            decreases total - chunk_start,
        {
            let remaining: usize = total - chunk_start;
            let chunk_len: usize = if remaining < PAGE_SIZE {
                remaining
            } else {
                PAGE_SIZE
            };
            let cur_paddr: u64 = paddr + (chunk_start as u64);
            let ghost rec = ok_op(BackendCall::ReadPhysical { gpa: cur_paddr, len: chunk_len });
            proof {
                if remaining <= PAGE_SIZE {
                    assert(chunk_calls((paddr + chunk_start) as u64, (total - chunk_start) as nat)
                        =~= seq![rec] + chunk_calls(
                        (paddr + chunk_start + chunk_len) as u64,
                        (total - chunk_start - chunk_len) as nat,
                    ));
                } else {
                    assert(chunk_calls((paddr + chunk_start) as u64, (total - chunk_start) as nat)
                        == seq![rec] + chunk_calls(
                        (paddr + chunk_start + chunk_len) as u64,
                        (total - chunk_start - chunk_len) as nat,
                    ));
                }
            }
            let res = self.kvmi.read_physical(cur_paddr, buf, chunk_start, chunk_len);
            match res {
                Ok(u) => u,
                Err(e) => {
                    proof {
                        let taken = done_calls.push(rec);
                        assert(full.take(taken.len() as int) =~= taken);
                        assert(with_last_failed(full.take(taken.len() as int), e)
                            =~= done_calls.push(
                            failed_op(
                                BackendCall::ReadPhysical { gpa: cur_paddr, len: chunk_len },
                                e,
                            ),
                        ));
                        assert(self.kvmi.history() =~= h0 + done_calls.push(
                            failed_op(
                                BackendCall::ReadPhysical { gpa: cur_paddr, len: chunk_len },
                                e,
                            ),
                        ));
                    }
                    return Err(DriverError::Backend(e));
                },
            };
            proof {
                done_calls = done_calls.push(rec);
                assert(full == done_calls + chunk_calls(
                    (paddr + chunk_start + chunk_len) as u64,
                    (total - chunk_start - chunk_len) as nat,
                )) by {
                    assert(full =~= done_calls + chunk_calls(
                        (paddr + chunk_start + chunk_len) as u64,
                        (total - chunk_start - chunk_len) as nat,
                    ));
                }
                assert(self.kvmi.history() =~= h0 + done_calls);
            }
            chunk_start = chunk_start + chunk_len;
        }
        proof {
            assert(full =~= done_calls);
        }
        *bytes_read = total as u64;
        Ok(())
    }

    /// Tears the driver down: disables the control-register,
    /// model-specific-register and page-fault event classes on every VCPU,
    /// exactly once each. Any failure here is signalled with the fatal
    /// `Teardown` error, apart from the ordinary error path; no further
    /// requests are issued after the first failed one.
    pub fn close(&mut self) -> (r: Result<(), DriverError>)
        ensures
            final(self).registry() == old(self).registry(),
            final(self).pause_count() == old(self).pause_count(),
            r is Ok ==> ({
                let h0 = old(self).history();
                let h1 = final(self).history();
                &&& h1.len() > h0.len()
                &&& h1.take(h0.len() as int) == h0
                &&& (h1[h0.len() as int] matches BackendOp {
                    call: BackendCall::GetVcpuCount { count },
                    error: None,
                } && count <= u16::MAX && h1 == h0.push(
                    ok_op(BackendCall::GetVcpuCount { count }),
                ) + control_calls(count as nat, false))
            }),
            r matches Err(e) ==> (e matches DriverError::Teardown(t) && ({
                let h0 = old(self).history();
                let h1 = final(self).history();
                &&& h1.len() > h0.len()
                &&& h1.take(h0.len() as int) == h0
                &&& (h1[h0.len() as int] matches BackendOp {
                    call: BackendCall::GetVcpuCount { count },
                    error: ge,
                } && ({
                    ||| (ge matches Some(be) && h1.len() == h0.len() + 1 && t
                        == TeardownFailure::Backend(be))
                    ||| (ge is None && count > u16::MAX && h1.len() == h0.len() + 1 && t
                        == TeardownFailure::VcpuCountOverflow)
                    ||| (ge is None && count <= u16::MAX && (t matches TeardownFailure::Backend(
                        be,
                    ) && (exists|v: int, m: int|
                        #![trigger control_calls(v as nat, false), control_triple(v as u16, false).take(m)]
                        0 <= v < count && 0 <= m < 3 && h1.subrange(
                            h0.len() as int + 1,
                            h1.len() as int,
                        ) == control_calls_failed_at(v as nat, m, false, be))))
                }))
            })),
    {
        let ghost reg0 = self.vec_events@;
        let ghost pc0 = self.expect_pause_ev;
        let ghost h0 = self.kvmi.history();
        let vcpu_count: u16 = match self.get_vcpu_count() {
            Ok(c) => c,
            Err(e) => {
                match e {
                    DriverError::Backend(be) => {
                        return Err(DriverError::Teardown(TeardownFailure::Backend(be)));
                    },
                    _ => {
                        return Err(DriverError::Teardown(TeardownFailure::VcpuCountOverflow));
                    },
                }
            },
        };
        let ghost base = self.kvmi.history();
        // disable the event classes enabled at construction
        let mut failure: Option<BackendError> = None;
        let ghost mut fail_v: int = 0;
        let ghost mut fail_m: int = 0;
        let mut vcpu: u16 = 0;
        while vcpu < vcpu_count && failure.is_none()
            invariant
                vcpu <= vcpu_count,
                reg0 == old(self).registry(),
                pc0 == old(self).pause_count(),
                h0 == old(self).history(),
                self.vec_events@ == reg0,
                self.expect_pause_ev == pc0,
                base == h0.push(ok_op(BackendCall::GetVcpuCount { count: vcpu_count as u32 })),
                failure is None ==> self.kvmi.history() == base + control_calls(
                    vcpu as nat,
                    false,
                ),
                failure matches Some(be) ==> 0 <= fail_v < vcpu_count && 0 <= fail_m < 3
                    && self.kvmi.history() == base + control_calls_failed_at(
                    fail_v as nat,
                    fail_m,
                    false,
                    be,
                ),
            decreases vcpu_count - vcpu, (if failure is None { 1int } else { 0int }),
        {
            let ghost pre = self.kvmi.history();
            let ghost c1 = ok_op(
                BackendCall::ControlEvents { vcpu, intercept: InterceptKind::Cr, enabled: false },
            );
            let ghost c2 = ok_op(
                BackendCall::ControlEvents { vcpu, intercept: InterceptKind::Msr, enabled: false },
            );
            let ghost c3 = ok_op(
                BackendCall::ControlEvents {
                    vcpu,
                    intercept: InterceptKind::Pagefault,
                    enabled: false,
                },
            );
            match self.kvmi.control_events(vcpu, InterceptKind::Cr, false) {
                Err(e) => {
                    proof {
                        fail_v = vcpu as int;
                        fail_m = 0;
                        assert(self.kvmi.history() =~= base + control_calls_failed_at(
                            vcpu as nat,
                            0,
                            false,
                            e,
                        ));
                    }
                    failure = Some(e);
                },
                Ok(u1) => {
                    match self.kvmi.control_events(vcpu, InterceptKind::Msr, false) {
                        Err(e) => {
                            proof {
                                fail_v = vcpu as int;
                                fail_m = 1;
                                assert(self.kvmi.history() =~= base + control_calls_failed_at(
                                    vcpu as nat,
                                    1,
                                    false,
                                    e,
                                ));
                            }
                            failure = Some(e);
                        },
                        Ok(u2) => {
                            match self.kvmi.control_events(vcpu, InterceptKind::Pagefault, false) {
                                Err(e) => {
                                    proof {
                                        fail_v = vcpu as int;
                                        fail_m = 2;
                                        assert(self.kvmi.history() =~= base
                                            + control_calls_failed_at(vcpu as nat, 2, false, e));
                                    }
                                    failure = Some(e);
                                },
                                Ok(u3) => {
                                    proof {
                                        assert(control_calls(vcpu as nat + 1, false)
                                            == control_calls(vcpu as nat, false) + control_triple(
                                            vcpu,
                                            false,
                                        ));
                                        assert(base + control_calls(vcpu as nat + 1, false)
                                            =~= pre.push(c1).push(c2).push(c3));
                                    }
                                    vcpu = vcpu + 1;
                                },
                            }
                        },
                    }
                },
            }
        }
        match failure {
            Some(be) => {
                proof {
                    lemma_control_calls_len(fail_v as nat, false);
                    assert(self.kvmi.history().take(h0.len() as int) =~= h0);
                    assert(self.kvmi.history().subrange(
                        h0.len() as int + 1,
                        self.kvmi.history().len() as int,
                    ) =~= control_calls_failed_at(fail_v as nat, fail_m, false, be));
                }
                Err(DriverError::Teardown(TeardownFailure::Backend(be)))
            },
            None => {
                proof {
                    lemma_control_calls_len(vcpu_count as nat, false);
                    assert(self.kvmi.history().take(h0.len() as int) =~= h0);
                }
                Ok(())
            },
        }
    }
}

/// The backend-native general-purpose block carried by a generic register
/// value.
pub open spec fn spec_native_regs_of(reg: Registers) -> Regs {
    match reg {
        Registers::X86(x) => spec_regs_from_x86(x),
    }
}

/// The chunk requests a physical read of `len` bytes at `paddr` issues:
/// page-sized pieces in address order, the last piece holding the
/// remainder.
pub open spec fn chunk_calls(paddr: u64, len: nat) -> Seq<BackendOp>
    decreases len,
{
    if len == 0 {
        Seq::empty()
    } else if len <= PAGE_SIZE as nat {
        seq![ok_op(BackendCall::ReadPhysical { gpa: paddr, len: len as usize })]
    } else {
        seq![ok_op(BackendCall::ReadPhysical { gpa: paddr, len: PAGE_SIZE })] + chunk_calls(
            (paddr + PAGE_SIZE) as u64,
            (len - PAGE_SIZE) as nat,
        )
    }
}

/// Law: a physical read of `len` bytes issues exactly
/// `len / PAGE_SIZE`, rounded up, chunk requests.
pub proof fn lemma_chunk_calls_count(paddr: u64, len: nat)
    ensures
        chunk_calls(paddr, len).len() == (len as int + PAGE_SIZE as int - 1) / (PAGE_SIZE as int),
    decreases len,
{
    if len == 0 {
    } else if len <= PAGE_SIZE as nat {
        assert((len as int + PAGE_SIZE as int - 1) / (PAGE_SIZE as int) == 1);
    } else {
        lemma_chunk_calls_count((paddr + PAGE_SIZE) as u64, (len - PAGE_SIZE) as nat);
        assert((len as int + PAGE_SIZE as int - 1) / (PAGE_SIZE as int) == 1 + ((len as int
            - PAGE_SIZE as int) + PAGE_SIZE as int - 1) / (PAGE_SIZE as int));
    }
}

/// Law: chunk `i` of a physical read is requested at
/// `paddr + i * PAGE_SIZE`, covers a full page except possibly the last
/// chunk, and the chunk lengths add up to `len`.
pub proof fn lemma_chunk_calls_offsets(paddr: u64, len: nat, i: int)
    requires
        paddr + len <= u64::MAX,
        0 <= i < chunk_calls(paddr, len).len(),
    ensures
        chunk_calls(paddr, len)[i] matches BackendOp {
            call: BackendCall::ReadPhysical { gpa, len: l },
            error: None,
        } && gpa == paddr + i * (PAGE_SIZE as int) && l == if (i + 1) * (PAGE_SIZE as int)
            <= len {
            PAGE_SIZE as int
        } else {
            len - i * (PAGE_SIZE as int)
        },
    decreases len,
{
    if len == 0 {
    } else if len <= PAGE_SIZE as nat {
    } else {
        if i == 0 {
        } else {
            lemma_chunk_calls_offsets((paddr + PAGE_SIZE) as u64, (len - PAGE_SIZE) as nat, i - 1);
        }
    }
}

/// How many times `h` holds the request that enables (`enabled` true) or
/// disables one event class on one VCPU.
pub open spec fn count_control_calls(
    h: Seq<BackendOp>,
    vcpu: u16,
    intercept: InterceptKind,
    enabled: bool,
) -> nat
    decreases h.len(),
{
    if h.len() == 0 {
        0
    } else {
        count_control_calls(h.drop_last(), vcpu, intercept, enabled) + if h.last() == ok_op(
            BackendCall::ControlEvents { vcpu, intercept, enabled },
        ) {
            1nat
        } else {
            0nat
        }
    }
}

/// Counting requests distributes over concatenation of histories.
pub proof fn lemma_count_control_calls_concat(
    a: Seq<BackendOp>,
    b: Seq<BackendOp>,
    vcpu: u16,
    intercept: InterceptKind,
    enabled: bool,
)
    ensures
        count_control_calls(a + b, vcpu, intercept, enabled) == count_control_calls(
            a,
            vcpu,
            intercept,
            enabled,
        ) + count_control_calls(b, vcpu, intercept, enabled),
    decreases b.len(),
{
    if b.len() == 0 {
        assert(a + b =~= a);
    } else {
        lemma_count_control_calls_concat(a, b.drop_last(), vcpu, intercept, enabled);
        assert((a + b).drop_last() =~= a + b.drop_last());
        assert((a + b).last() == b.last());
    }
}

/// Law: the enable (or disable) sequence that construction and teardown
/// issue touches each event class of each VCPU exactly once — once per
/// VCPU below `n` for the three default classes, and never otherwise.
pub proof fn lemma_control_calls_exact(n: nat, vcpu: u16, intercept: InterceptKind, enabled: bool)
    requires
        n <= u16::MAX + 1,
    ensures
        count_control_calls(control_calls(n, enabled), vcpu, intercept, enabled) == if (
        vcpu as nat) < n && intercept != InterceptKind::Breakpoint {
            1nat
        } else {
            0nat
        },
    decreases n,
{
    if n == 0 {
    } else {
        lemma_control_calls_exact((n - 1) as nat, vcpu, intercept, enabled);
        let c1 = ok_op(
            BackendCall::ControlEvents {
                vcpu: (n - 1) as u16,
                intercept: InterceptKind::Cr,
                enabled,
            },
        );
        let c2 = ok_op(
            BackendCall::ControlEvents {
                vcpu: (n - 1) as u16,
                intercept: InterceptKind::Msr,
                enabled,
            },
        );
        let c3 = ok_op(
            BackendCall::ControlEvents {
                vcpu: (n - 1) as u16,
                intercept: InterceptKind::Pagefault,
                enabled,
            },
        );
        let target = ok_op(BackendCall::ControlEvents { vcpu, intercept, enabled });
        let tail = seq![c1, c2, c3];
        assert(control_triple((n - 1) as u16, enabled) == tail);
        lemma_count_control_calls_concat(
            control_calls((n - 1) as nat, enabled),
            tail,
            vcpu,
            intercept,
            enabled,
        );
        assert(tail.drop_last() =~= seq![c1, c2]);
        assert(seq![c1, c2].drop_last() =~= seq![c1]);
        assert(seq![c1].drop_last() =~= Seq::<BackendOp>::empty());
        assert(count_control_calls(Seq::<BackendOp>::empty(), vcpu, intercept, enabled) == 0);
        assert(count_control_calls(seq![c1], vcpu, intercept, enabled) == if c1 == target {
            1nat
        } else {
            0nat
        });
        assert(count_control_calls(seq![c1, c2], vcpu, intercept, enabled)
            == count_control_calls(seq![c1], vcpu, intercept, enabled) + if c2 == target {
            1nat
        } else {
            0nat
        });
        assert(count_control_calls(tail, vcpu, intercept, enabled) == count_control_calls(
            seq![c1, c2],
            vcpu,
            intercept,
            enabled,
        ) + if c3 == target {
            1nat
        } else {
            0nat
        });
    }
}


impl<T: KVMIntrospectable> crate::api::Introspectable for Kvm<T> {
    fn get_vcpu_count(&mut self) -> Result<u16, DriverError> {
        Kvm::get_vcpu_count(self)
    }

    fn read_physical(&mut self, paddr: u64, buf: &mut Vec<u8>, bytes_read: &mut u64) -> Result<
        (),
        DriverError,
    > {
        if !(paddr as u128 + buf.len() as u128 <= u64::MAX as u128) {
            return Err(DriverError::AddressOverflow);
        }
        Kvm::read_physical(self, paddr, buf, bytes_read)
    }

    fn write_physical(&mut self, paddr: u64, buf: &Vec<u8>) -> Result<(), DriverError> {
        Kvm::write_physical(self, paddr, buf)
    }

    fn get_max_physical_addr(&mut self) -> Result<u64, DriverError> {
        Kvm::get_max_physical_addr(self)
    }

    fn read_registers(&mut self, vcpu: u16) -> Result<Registers, DriverError> {
        Kvm::read_registers(self, vcpu)
    }

    fn write_registers(&mut self, vcpu: u16, reg: Registers) -> Result<(), DriverError> {
        Kvm::write_registers(self, vcpu, reg)
    }

    fn set_page_access(&mut self, paddr: u64, access: Access) -> Result<(), DriverError> {
        Kvm::set_page_access(self, paddr, access)
    }

    fn pause(&mut self) -> Result<(), DriverError> {
        Kvm::pause(self)
    }

    fn resume(&mut self) -> Result<(), DriverError> {
        Kvm::resume(self)
    }

    fn toggle_intercept(&mut self, vcpu: u16, intercept_type: InterceptType, enabled: bool)
        -> Result<(), DriverError> {
        Kvm::toggle_intercept(self, vcpu, intercept_type, enabled)
    }

    fn listen(&mut self, timeout: u32) -> Result<Option<Event>, DriverError> {
        Kvm::listen(self, timeout)
    }

    fn reply_event(&mut self, event: Event, reply_type: EventReplyType) -> Result<
        (),
        DriverError,
    > {
        Kvm::reply_event(self, event, reply_type)
    }

    fn get_driver_type(&self) -> DriverType {
        Kvm::get_driver_type(self)
    }
}

} // verus!