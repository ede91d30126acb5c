//! Generic VMI data model: page permissions, registers, events, intercepts,
//! driver initialization parameters and the error taxonomy.

use vstd::prelude::*;

use crate::backend::BackendError;

verus! {

/// The capability contract every backend driver exposes.
///
/// A backend that cannot support an operation fails it with
/// [`DriverError::Unsupported`] instead of attempting a partial emulation —
/// that is the default body of every operation here. Callers either branch
/// on `get_driver_type` or handle the unsupported-operation error. The
/// verified behaviour of each operation is stated on the implementing
/// driver itself.
pub trait Introspectable {
    /// The number of VCPUs of the introspected VM.
    fn get_vcpu_count(&mut self) -> Result<u16, DriverError> {
        Err(DriverError::Unsupported)
    }

    /// Reads `buf.len()` bytes of physical memory at `paddr`; on success
    /// `bytes_read` holds the requested length.
    fn read_physical(&mut self, paddr: u64, buf: &mut Vec<u8>, bytes_read: &mut u64) -> Result<
        (),
        DriverError,
    > {
        Err(DriverError::Unsupported)
    }

    /// Writes the bytes of `buf` to physical memory at `paddr`.
    fn write_physical(&mut self, paddr: u64, buf: &Vec<u8>) -> Result<(), DriverError> {
        Err(DriverError::Unsupported)
    }

    /// The highest guest physical address.
    fn get_max_physical_addr(&mut self) -> Result<u64, DriverError> {
        Err(DriverError::Unsupported)
    }

    /// Reads one VCPU's registers.
    fn read_registers(&mut self, vcpu: u16) -> Result<Registers, DriverError> {
        Err(DriverError::Unsupported)
    }

    /// Writes one VCPU's general-purpose registers.
    fn write_registers(&mut self, vcpu: u16, reg: Registers) -> Result<(), DriverError> {
        Err(DriverError::Unsupported)
    }

    /// Sets the permission of the page at `paddr`.
    fn set_page_access(&mut self, paddr: u64, access: Access) -> Result<(), DriverError> {
        Err(DriverError::Unsupported)
    }

    /// Requests a VM-wide pause.
    fn pause(&mut self) -> Result<(), DriverError> {
        Err(DriverError::Unsupported)
    }

    /// Requests a VM-wide resume.
    fn resume(&mut self) -> Result<(), DriverError> {
        Err(DriverError::Unsupported)
    }

    /// Enables or disables one intercept on one VCPU.
    fn toggle_intercept(&mut self, vcpu: u16, intercept_type: InterceptType, enabled: bool)
        -> Result<(), DriverError> {
        Err(DriverError::Unsupported)
    }

    /// Waits up to `timeout` milliseconds for the next event.
    fn listen(&mut self, timeout: u32) -> Result<Option<Event>, DriverError> {
        Err(DriverError::Unsupported)
    }

    /// Acknowledges an event.
    fn reply_event(&mut self, event: Event, reply_type: EventReplyType) -> Result<
        (),
        DriverError,
    > {
        Err(DriverError::Unsupported)
    }

    /// The kind of backend behind this driver.
    fn get_driver_type(&self) -> DriverType;
}

/// A generic page permission. Exactly these eight values are valid: every
/// combination of read, write and execute, including none of them.
#[derive(Clone, Copy, Debug, PartialEq, Eq, Structural)]
pub enum Access {
    /// No access.
    NIL,
    /// Read.
    R,
    /// Write.
    W,
    /// Read and write.
    RW,
    /// Execute.
    X,
    /// Read and execute.
    RX,
    /// Write and execute.
    WX,
    /// Read, write and execute.
    RWX,
}

/// The kind of backend a driver talks to.
#[derive(Clone, Copy, Debug, PartialEq, Eq, Structural)]
pub enum DriverType {
    KVM,
    Memflow,
}

/// A control register whose writes can be intercepted.
#[derive(Clone, Copy, Debug, PartialEq, Eq, Structural)]
pub enum CrType {
    Cr0,
    Cr3,
    Cr4,
}

/// A segment register: base address, limit and selector.
#[derive(Clone, Copy, Debug, PartialEq, Eq, Structural)]
pub struct SegmentReg {
    pub base: u64,
    pub limit: u32,
    pub selector: u16,
}

/// A descriptor-table register: base address and limit only.
#[derive(Clone, Copy, Debug, PartialEq, Eq, Structural)]
pub struct SystemTableReg {
    pub base: u64,
    pub limit: u16,
}

/// The x86-64 register file visible through the generic model.
#[derive(Clone, Copy, Debug, PartialEq, Eq, Structural)]
pub struct X86Registers {
    pub rax: u64,
    pub rbx: u64,
    pub rcx: u64,
    pub rdx: u64,
    pub rsi: u64,
    pub rdi: u64,
    pub rsp: u64,
    pub rbp: u64,
    pub r8: u64,
    pub r9: u64,
    pub r10: u64,
    pub r11: u64,
    pub r12: u64,
    pub r13: u64,
    pub r14: u64,
    pub r15: u64,
    pub rip: u64,
    pub rflags: u64,
    pub cr0: u64,
    pub cr2: u64,
    pub cr3: u64,
    pub cr4: u64,
    pub sysenter_cs: u64,
    pub sysenter_esp: u64,
    pub sysenter_eip: u64,
    pub msr_efer: u64,
    pub msr_star: u64,
    pub msr_lstar: u64,
    pub efer: u64,
    pub apic_base: u64,
    pub cs: SegmentReg,
    pub ds: SegmentReg,
    pub es: SegmentReg,
    pub fs: SegmentReg,
    pub gs: SegmentReg,
    pub ss: SegmentReg,
    pub tr: SegmentReg,
    pub ldt: SegmentReg,
    pub idt: SystemTableReg,
    pub gdt: SystemTableReg,
}

/// CPU registers, tagged by architecture. Only x86-64 is currently defined.
#[derive(Clone, Copy, Debug, PartialEq, Eq, Structural)]
pub enum Registers {
    X86(X86Registers),
}

/// The kind of a CPU event delivered to the caller.
#[derive(Clone, Copy, Debug, PartialEq, Eq, Structural)]
pub enum EventType {
    /// A write to a control register.
    Cr { cr_type: CrType, new_value: u64, old_value: u64 },
    /// A write to a model-specific register.
    Msr { msr_type: u32, value: u64 },
    /// A breakpoint hit.
    Breakpoint { gpa: u64, insn_len: u8 },
    /// A page fault.
    Pagefault { gva: u64, gpa: u64, access: Access },
}

/// A CPU event: the VCPU that reported it and its kind.
#[derive(Clone, Copy, Debug, PartialEq, Eq, Structural)]
pub struct Event {
    pub vcpu: u16,
    pub kind: EventType,
}

/// The reply sent to acknowledge an event. An open enumeration: only
/// "continue execution" is currently defined.
#[derive(Clone, Copy, Debug, PartialEq, Eq, Structural)]
#[non_exhaustive]
pub enum EventReplyType {
    Continue,
}

/// An event class to enable or disable on a VCPU. Control-register and
/// model-specific-register intercepts additionally name the register to
/// watch; breakpoint and page-fault intercepts are coarse toggles.
#[derive(Clone, Copy, Debug, PartialEq, Eq, Structural)]
pub enum InterceptType {
    Cr(CrType),
    Msr(u32),
    Breakpoint,
    Pagefault,
}

/// Parameters shared by every backend.
#[derive(Clone, Debug)]
pub struct CommonInitParams {
    pub vm_name: String,
}

/// KVM-specific connection parameters.
#[derive(Clone, Debug)]
pub enum KVMInitParams {
    UnixSocket { path: String },
}

/// Memflow-specific connection parameters: a connector name and optional
/// free-form "key=value" connector arguments.
#[derive(Clone, Debug)]
pub struct MemflowInitParams {
    pub connector_name: String,
    pub connector_args: Option<Vec<String>>,
}

/// By-value driver initialization parameters.
#[derive(Clone, Debug)]
pub struct DriverInitParams {
    pub common: Option<CommonInitParams>,
    pub kvm: Option<KVMInitParams>,
    pub memflow: Option<MemflowInitParams>,
}

impl Default for DriverInitParams {
    /// An empty parameter set: no VM name, no backend-specific parameters.
    fn default() -> (r: Self)
        ensures
            r.common is None,
            r.kvm is None,
            r.memflow is None,
    {
        DriverInitParams { common: None, kvm: None, memflow: None }
    }
}

/// Configuration errors of the KVM driver: a required parameter is missing.
#[derive(Clone, Copy, Debug, PartialEq, Eq, Structural)]
pub enum KVMDriverError {
    /// The KVM driver requires a VM name parameter.
    MissingVMName,
    /// The KVM driver requires a socket parameter.
    MissingSocketParameter,
}

/// Configuration errors of the Memflow driver.
#[derive(Clone, Debug, PartialEq, Eq)]
pub enum MemflowDriverError {
    /// Memflow driver initialization requires a connector parameter.
    MissingConnectorParameter,
    /// A connector argument is not of the form "key=value"; carries the
    /// offending argument.
    InvalidConnectorArgument(String),
}

/// A broken driver invariant: the registry or pause machinery no longer
/// matches the backend's view of the VM. Unrecoverable by design.
#[derive(Clone, Copy, Debug, PartialEq, Eq, Structural)]
pub enum Violation {
    /// A VCPU-pause acknowledgement surfaced where a generic event was
    /// expected: an acknowledgement was not absorbed by the pause machinery.
    UnexpectedPauseEvent,
    /// A reply was issued for a VCPU with no outstanding event: a double
    /// reply, or a reply without a prior `listen`.
    ReplyWithoutEvent,
    /// The backend reported an event for a VCPU outside the registry.
    VcpuOutOfRange,
}

/// Why teardown failed. Teardown failure is unrecoverable: once teardown
/// has begun there is no further recovery channel, so it is signalled
/// apart from the ordinary error path.
#[derive(Clone, Debug, PartialEq, Eq)]
pub enum TeardownFailure {
    /// The backend reported more VCPUs than the per-VCPU model addresses.
    VcpuCountOverflow,
    /// A teardown request failed with the backend's error.
    Backend(BackendError),
}

/// The error taxonomy of the driver layer.
///
/// Configuration and translation errors are local and recoverable; backend
/// errors are propagated unchanged; a `ProtocolViolation` signals that the
/// driver's internal state is no longer trustworthy and must be treated as
/// fatal by the caller, never retried.
#[derive(Clone, Debug, PartialEq, Eq)]
pub enum DriverError {
    /// A missing KVM configuration parameter.
    Kvm(KVMDriverError),
    /// A missing or malformed Memflow configuration parameter.
    Memflow(MemflowDriverError),
    /// The operation is not supported by this backend.
    Unsupported,
    /// A `listen` timeout too large for the backend's millisecond argument.
    InvalidTimeout,
    /// A physical read whose end address does not fit the address space.
    AddressOverflow,
    /// The backend reported more VCPUs than the register model can address.
    VcpuCountOverflow,
    /// The backend's native failure, propagated unchanged.
    Backend(BackendError),
    /// A failure during teardown; fatal, there is no recovery channel.
    Teardown(TeardownFailure),
    /// The driver's internal state is no longer trustworthy; fatal.
    ProtocolViolation(Violation),
}

} // verus!
