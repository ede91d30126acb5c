//! Scenario tests for the KVM driver, running against the scripted backend.

use microvmi::api::Access;
use microvmi::api::CommonInitParams;
use microvmi::api::DriverError;
use microvmi::api::DriverInitParams;
use microvmi::api::DriverType;
use microvmi::api::EventReplyType;
use microvmi::api::EventType;
use microvmi::api::KVMDriverError;
use microvmi::api::KVMInitParams;
use microvmi::api::Registers;
use microvmi::api::Violation;
use microvmi::backend::fake::FakeKvmi;
use microvmi::backend::BackendCall;
use microvmi::backend::BackendOp;
use microvmi::backend::BackendError;
use microvmi::backend::CrReg;
use microvmi::backend::EventKind;
use microvmi::backend::InterceptKind;
use microvmi::backend::KvmiEvent;
use microvmi::backend::MsrEntry;
use microvmi::driver::kvm::Kvm;

fn params(vm_name: &str, socket: &str) -> DriverInitParams {
    DriverInitParams {
        common: Some(CommonInitParams { vm_name: String::from(vm_name) }),
        kvm: Some(KVMInitParams::UnixSocket { path: socket.to_string() }),
        ..Default::default()
    }
}

fn driver(vcpus: u32) -> Kvm<FakeKvmi> {
    Kvm::new(FakeKvmi::new(vcpus), params("some_vm", "/tmp/introspector"))
        .map_err(|(_, e)| e)
        .expect("construction must succeed against the scripted backend")
}

fn ok_op(call: BackendCall) -> BackendOp {
    BackendOp { call, error: None }
}

#[test]
fn test_fail_to_create_kvm_driver_if_kvmi_init_returns_error() {
    let mut kvmi_mock = FakeKvmi::new(1);
    kvmi_mock.init_error = Some(BackendError { message: "something went wrong".to_string() });

    let result = Kvm::new(
        kvmi_mock,
        DriverInitParams {
            common: Some(CommonInitParams { vm_name: String::from("some_vm") }),
            kvm: Some(KVMInitParams::UnixSocket { path: "/tmp/introspector".to_string() }),
            ..Default::default()
        },
    );

    assert!(result.is_err(), "Expected error, got ok instead!");
}

#[test]
fn test_create_kvm_driver_requires_vm_name() {
    let result = Kvm::new(
        FakeKvmi::new(1),
        DriverInitParams { common: None, ..Default::default() },
    );
    let (backend, error) = result.err().expect("missing name must fail");
    assert_eq!(error, DriverError::Kvm(KVMDriverError::MissingVMName));
    // the configuration error is raised before any backend contact
    assert!(backend.calls().is_empty());
}

#[test]
fn test_create_kvm_driver_requires_socket_parameter() {
    let result = Kvm::new(
        FakeKvmi::new(1),
        DriverInitParams {
            common: Some(CommonInitParams { vm_name: String::from("some_vm") }),
            ..Default::default()
        },
    );
    let (backend, error) = result.err().expect("missing socket must fail");
    assert_eq!(error, DriverError::Kvm(KVMDriverError::MissingSocketParameter));
    assert!(backend.calls().is_empty());
}

fn count_control_events(
    log: &Vec<BackendOp>,
    vcpu: u16,
    intercept: InterceptKind,
    enabled: bool,
) -> usize {
    log.iter()
        .filter(|op| {
            op.call == BackendCall::ControlEvents { vcpu, intercept, enabled }
                && op.error.is_none()
        })
        .count()
}

#[test]
fn test_construction_enables_default_event_classes_once_per_vcpu() {
    for vcpus in [1u32, 2, 16] {
        let kvm = driver(vcpus);
        let log = kvm.backend().calls();
        assert_eq!(
            log[0],
            ok_op(BackendCall::Init { path: "/tmp/introspector".to_string() })
        );
        assert_eq!(log[1], ok_op(BackendCall::GetVcpuCount { count: vcpus }));
        for vcpu in 0..vcpus as u16 {
            for intercept in [InterceptKind::Cr, InterceptKind::Msr, InterceptKind::Pagefault] {
                assert_eq!(count_control_events(log, vcpu, intercept, true), 1);
                assert_eq!(count_control_events(log, vcpu, intercept, false), 0);
            }
            assert_eq!(count_control_events(log, vcpu, InterceptKind::Breakpoint, true), 0);
        }
        // one init, one count query, three enables per VCPU, nothing else
        assert_eq!(log.len(), 2 + 3 * vcpus as usize);
    }
}

#[test]
fn test_close_disables_default_event_classes_once_per_vcpu() {
    let mut kvm = driver(2);
    let enabled_len = kvm.backend().calls().len();
    kvm.close().expect("teardown must succeed against the scripted backend");
    let log = kvm.backend().calls();
    assert_eq!(log[enabled_len], ok_op(BackendCall::GetVcpuCount { count: 2 }));
    for vcpu in 0..2u16 {
        for intercept in [InterceptKind::Cr, InterceptKind::Msr, InterceptKind::Pagefault] {
            assert_eq!(count_control_events(log, vcpu, intercept, false), 1);
        }
    }
    assert_eq!(log.len(), enabled_len + 1 + 3 * 2);
}

#[test]
fn test_pause_twice_issues_exactly_one_pause_request() {
    let mut kvm = driver(2);
    kvm.pause().expect("first pause");
    kvm.pause().expect("second pause is idempotent");
    let pauses = kvm.backend().calls().iter().filter(|op| op.call == BackendCall::Pause).count();
    assert_eq!(pauses, 1);
}

#[test]
fn test_resume_issues_resume_and_keeps_pause_pending() {
    let mut kvm = driver(2);
    kvm.pause().expect("pause");
    kvm.resume().expect("resume");
    assert_eq!(kvm.backend().calls().last().unwrap(), &ok_op(BackendCall::Resume));
    // the pause counter is neither inspected nor reset by resume, so a
    // further pause while acknowledgements are still owed issues nothing
    kvm.pause().expect("pause while acknowledgements are owed");
    let pauses = kvm.backend().calls().iter().filter(|op| op.call == BackendCall::Pause).count();
    assert_eq!(pauses, 1);
}

#[test]
fn test_listen_timeout_with_nothing_pending_returns_no_event() {
    let mut kvm = driver(2);
    let outcome = kvm.listen(10).expect("a timeout is not an error");
    assert!(outcome.is_none());
    assert_eq!(
        kvm.backend().calls().last().unwrap(),
        &ok_op(BackendCall::WaitAndPopEvent { ms: 10, popped: None })
    );
}

#[test]
fn test_listen_translates_event_and_reply_clears_the_slot() {
    let mut fake = FakeKvmi::new(2);
    let native = KvmiEvent {
        vcpu: 1,
        ev_type: EventKind::Cr { cr_reg: CrReg::Cr3, new_value: 0x1000, old_value: 0x2000 },
    };
    fake.events.push(native);
    let mut kvm = Kvm::new(fake, params("some_vm", "/tmp/introspector"))
        .map_err(|(_, e)| e)
        .unwrap();

    let event = kvm.listen(1000).expect("listen").expect("one event is pending");
    assert_eq!(event.vcpu, 1);
    assert_eq!(
        event.kind,
        EventType::Cr {
            cr_type: microvmi::api::CrType::Cr3,
            new_value: 0x1000,
            old_value: 0x2000
        }
    );

    kvm.reply_event(event, EventReplyType::Continue).expect("first reply");
    assert_eq!(
        kvm.backend().calls().last().unwrap(),
        &ok_op(BackendCall::Reply { event: native, reply: microvmi::backend::EventReply::Continue })
    );

    // the registry slot is empty again: a second reply for the same event
    // is a protocol violation
    let second = kvm.reply_event(event, EventReplyType::Continue);
    assert_eq!(
        second.err().expect("double reply must fail"),
        DriverError::ProtocolViolation(Violation::ReplyWithoutEvent)
    );
}

#[test]
fn test_listen_pause_acknowledgement_is_a_protocol_violation() {
    let mut fake = FakeKvmi::new(2);
    fake.events.push(KvmiEvent { vcpu: 0, ev_type: EventKind::PauseVCPU });
    let mut kvm = Kvm::new(fake, params("some_vm", "/tmp/introspector"))
        .map_err(|(_, e)| e)
        .unwrap();
    let outcome = kvm.listen(1000);
    assert_eq!(
        outcome.err().expect("pause acknowledgement must not surface"),
        DriverError::ProtocolViolation(Violation::UnexpectedPauseEvent)
    );
}

#[test]
fn test_listen_event_for_unknown_vcpu_is_a_protocol_violation() {
    let mut fake = FakeKvmi::new(2);
    fake.events.push(KvmiEvent {
        vcpu: 5,
        ev_type: EventKind::Breakpoint { gpa: 0x4000, insn_len: 1 },
    });
    let mut kvm = Kvm::new(fake, params("some_vm", "/tmp/introspector"))
        .map_err(|(_, e)| e)
        .unwrap();
    let outcome = kvm.listen(1000);
    assert_eq!(
        outcome.err().expect("event outside the registry must fail"),
        DriverError::ProtocolViolation(Violation::VcpuOutOfRange)
    );
}

#[test]
fn test_read_physical_chunks_requests_by_page() {
    let mut kvm = driver(1);
    let len = 2 * 4096 + 100;
    let mut buf: Vec<u8> = vec![0; len];
    let mut bytes_read: u64 = 0;
    let base = kvm.backend().calls().len();
    kvm.read_physical(0x1000, &mut buf, &mut bytes_read).expect("read");
    assert_eq!(bytes_read, len as u64);
    let log = kvm.backend().calls();
    // ceil(len / 4096) chunk requests, each at base + index * 4096
    assert_eq!(log.len(), base + 3);
    assert_eq!(log[base], ok_op(BackendCall::ReadPhysical { gpa: 0x1000, len: 4096 }));
    assert_eq!(log[base + 1], ok_op(BackendCall::ReadPhysical { gpa: 0x2000, len: 4096 }));
    assert_eq!(log[base + 2], ok_op(BackendCall::ReadPhysical { gpa: 0x3000, len: 100 }));
    // the scripted backend fills each chunk with its byte offset pattern
    assert_eq!(buf[0], 0);
    assert_eq!(buf[4095], 255);
    assert_eq!(buf[4096], 0);
    assert_eq!(buf[2 * 4096 + 99], 99);
}

#[test]
fn test_read_physical_failed_chunk_keeps_earlier_chunks() {
    let mut fake = FakeKvmi::new(1);
    fake.fail_read_at = Some(1);
    let mut kvm = Kvm::new(fake, params("some_vm", "/tmp/introspector"))
        .map_err(|(_, e)| e)
        .unwrap();
    let len = 3 * 4096;
    let mut buf: Vec<u8> = vec![0xAA; len];
    let mut bytes_read: u64 = 7;
    let base = kvm.backend().calls().len();
    let outcome = kvm.read_physical(0, &mut buf, &mut bytes_read);
    assert!(matches!(outcome, Err(DriverError::Backend(_))));
    // the failing chunk aborts the read: two requests were issued, the
    // first succeeded and the second is recorded as failed
    assert_eq!(kvm.backend().calls().len(), base + 2);
    assert_eq!(
        kvm.backend().calls()[base],
        ok_op(BackendCall::ReadPhysical { gpa: 0, len: 4096 })
    );
    let failed = &kvm.backend().calls()[base + 1];
    assert_eq!(failed.call, BackendCall::ReadPhysical { gpa: 4096, len: 4096 });
    assert!(failed.error.is_some());
    // the first chunk already reached the buffer and is kept
    assert_eq!(buf[0], 0);
    assert_eq!(buf[4095], 255);
    // bytes past the failed chunk are untouched, and the count is untouched
    assert!(buf[2 * 4096..].iter().all(|b| *b == 0xAA));
    assert_eq!(bytes_read, 7);
}

#[test]
fn test_write_physical_is_a_single_unchunked_request() {
    let mut kvm = driver(1);
    let buf: Vec<u8> = vec![1; 3 * 4096];
    kvm.write_physical(0x8000, &buf).expect("write");
    assert_eq!(
        kvm.backend().calls().last().unwrap(),
        &ok_op(BackendCall::WritePhysical { gpa: 0x8000, data: vec![1; 3 * 4096] })
    );
}

#[test]
fn test_set_page_permission_is_idempotent_and_uses_default_view() {
    let mut kvm = driver(2);
    kvm.set_page_access(0x1000, Access::RWX).expect("first set");
    kvm.set_page_access(0x1000, Access::RWX).expect("second set");
    let log = kvm.backend().calls();
    let expected = ok_op(BackendCall::SetPageAccess {
        gpa: 0x1000,
        access: microvmi::backend::PageAccess::RWX,
        view: 0,
    });
    assert_eq!(log[log.len() - 2], expected);
    assert_eq!(log[log.len() - 1], expected);
}

#[test]
fn test_toggle_intercept_routes_by_event_class() {
    let mut kvm = driver(1);
    kvm.toggle_intercept(0, microvmi::api::InterceptType::Cr(microvmi::api::CrType::Cr3), true)
        .unwrap();
    assert_eq!(
        kvm.backend().calls().last().unwrap(),
        &ok_op(BackendCall::ControlCr { vcpu: 0, reg: CrReg::Cr3, enabled: true })
    );
    kvm.toggle_intercept(0, microvmi::api::InterceptType::Msr(0x174), true).unwrap();
    assert_eq!(
        kvm.backend().calls().last().unwrap(),
        &ok_op(BackendCall::ControlMsr { vcpu: 0, reg: 0x174, enabled: true })
    );
    kvm.toggle_intercept(0, microvmi::api::InterceptType::Breakpoint, true).unwrap();
    assert_eq!(
        kvm.backend().calls().last().unwrap(),
        &ok_op(BackendCall::ControlEvents {
            vcpu: 0,
            intercept: InterceptKind::Breakpoint,
            enabled: true
        })
    );
}

#[test]
fn test_register_read_maps_the_six_msrs_in_order() {
    let mut fake = FakeKvmi::new(1);
    fake.msrs = [
        MsrEntry { index: 0x174, data: 11 },
        MsrEntry { index: 0x175, data: 22 },
        MsrEntry { index: 0x176, data: 33 },
        MsrEntry { index: 0xc0000080, data: 44 },
        MsrEntry { index: 0xc0000081, data: 55 },
        MsrEntry { index: 0xc0000082, data: 66 },
    ];
    let mut kvm = Kvm::new(fake, params("some_vm", "/tmp/introspector"))
        .map_err(|(_, e)| e)
        .unwrap();
    let Registers::X86(x86) = kvm.read_registers(0).expect("read registers") else {
        unreachable!()
    };
    assert_eq!(x86.sysenter_cs, 11);
    assert_eq!(x86.sysenter_esp, 22);
    assert_eq!(x86.sysenter_eip, 33);
    assert_eq!(x86.msr_efer, 44);
    assert_eq!(x86.msr_star, 55);
    assert_eq!(x86.msr_lstar, 66);
}

#[test]
fn test_register_read_msr_mapping_is_order_sensitive() {
    // the mapping is positional, not keyed by the index field: a backend
    // handing the same slots back in another order changes the output
    let mut fake = FakeKvmi::new(1);
    fake.msrs = [
        MsrEntry { index: 0xc0000082, data: 66 },
        MsrEntry { index: 0x175, data: 22 },
        MsrEntry { index: 0x176, data: 33 },
        MsrEntry { index: 0xc0000080, data: 44 },
        MsrEntry { index: 0xc0000081, data: 55 },
        MsrEntry { index: 0x174, data: 11 },
    ];
    let mut kvm = Kvm::new(fake, params("some_vm", "/tmp/introspector"))
        .map_err(|(_, e)| e)
        .unwrap();
    let Registers::X86(x86) = kvm.read_registers(0).expect("read registers") else {
        unreachable!()
    };
    assert_eq!(x86.sysenter_cs, 66);
    assert_eq!(x86.msr_lstar, 11);
}

#[test]
fn test_write_registers_forwards_the_general_purpose_block() {
    let mut kvm = driver(1);
    let x86 = microvmi::api::X86Registers {
        rax: 1, rbx: 2, rcx: 3, rdx: 4, rsi: 5, rdi: 6, rsp: 7, rbp: 8,
        r8: 9, r9: 10, r10: 11, r11: 12, r12: 13, r13: 14, r14: 15, r15: 16,
        rip: 17, rflags: 18,
        cr0: 0, cr2: 0, cr3: 0, cr4: 0,
        sysenter_cs: 0, sysenter_esp: 0, sysenter_eip: 0,
        msr_efer: 0, msr_star: 0, msr_lstar: 0,
        efer: 0, apic_base: 0,
        cs: microvmi::api::SegmentReg { base: 0, limit: 0, selector: 0 },
        ds: microvmi::api::SegmentReg { base: 0, limit: 0, selector: 0 },
        es: microvmi::api::SegmentReg { base: 0, limit: 0, selector: 0 },
        fs: microvmi::api::SegmentReg { base: 0, limit: 0, selector: 0 },
        gs: microvmi::api::SegmentReg { base: 0, limit: 0, selector: 0 },
        ss: microvmi::api::SegmentReg { base: 0, limit: 0, selector: 0 },
        tr: microvmi::api::SegmentReg { base: 0, limit: 0, selector: 0 },
        ldt: microvmi::api::SegmentReg { base: 0, limit: 0, selector: 0 },
        idt: microvmi::api::SystemTableReg { base: 0, limit: 0 },
        gdt: microvmi::api::SystemTableReg { base: 0, limit: 0 },
    };
    kvm.write_registers(0, Registers::X86(x86)).expect("write registers");
    let expected = microvmi::backend::Regs {
        rax: 1, rbx: 2, rcx: 3, rdx: 4, rsi: 5, rdi: 6, rsp: 7, rbp: 8,
        r8: 9, r9: 10, r10: 11, r11: 12, r12: 13, r13: 14, r14: 15, r15: 16,
        rip: 17, rflags: 18,
    };
    assert_eq!(
        kvm.backend().calls().last().unwrap(),
        &ok_op(BackendCall::SetRegisters { vcpu: 0, regs: expected })
    );
}

#[test]
fn test_driver_type_is_kvm() {
    let kvm = driver(1);
    assert_eq!(kvm.get_driver_type(), DriverType::KVM);
}

#[test]
fn test_get_max_physical_addr_passes_the_backend_answer_through() {
    let mut fake = FakeKvmi::new(1);
    fake.max_paddr = 0xdead_b000;
    let mut kvm = Kvm::new(fake, params("some_vm", "/tmp/introspector"))
        .map_err(|(_, e)| e)
        .unwrap();
    assert_eq!(kvm.get_max_physical_addr().expect("query"), 0xdead_b000);
}
