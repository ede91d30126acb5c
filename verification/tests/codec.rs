//! Tests for the permission, register and event codecs.

use microvmi::api::Access;
use microvmi::api::MemflowDriverError;
use microvmi::backend::PageAccess;
use microvmi::driver::kvm::access_from_page_access;
use microvmi::driver::kvm::page_access_bits;
use microvmi::driver::kvm::page_access_from_access;
use microvmi::driver::kvm::page_access_from_bits;
use microvmi::driver::memflow::check_connector_params;
use microvmi::driver::memflow::qemu_procfs_vm_name;
use microvmi::driver::memflow::split_connector_arg;

fn all_access() -> Vec<Access> {
    vec![
        Access::NIL,
        Access::R,
        Access::W,
        Access::RW,
        Access::X,
        Access::RX,
        Access::WX,
        Access::RWX,
    ]
}

fn all_page_access() -> Vec<PageAccess> {
    vec![
        PageAccess::NIL,
        PageAccess::R,
        PageAccess::W,
        PageAccess::RW,
        PageAccess::X,
        PageAccess::RX,
        PageAccess::WX,
        PageAccess::RWX,
    ]
}

#[test]
fn test_access_round_trip_all_eight_values() {
    for a in all_access() {
        let native = page_access_from_access(a);
        assert_eq!(access_from_page_access(native), a);
        // encode -> decode -> encode over the numeric wire value
        let bits = page_access_bits(native);
        let decoded = page_access_from_bits(bits).expect("valid encoding must decode");
        assert_eq!(decoded, native);
        assert_eq!(page_access_bits(decoded), bits);
    }
}

#[test]
fn test_access_numeric_encoding_is_the_documented_bitmask() {
    let expected: Vec<u8> = vec![0, 1, 2, 3, 4, 5, 6, 7];
    let got: Vec<u8> = all_page_access().into_iter().map(page_access_bits).collect();
    assert_eq!(got, expected);
}

#[test]
fn test_invalid_numeric_access_values_fail_translation() {
    for v in 8u8..=255u8 {
        assert!(page_access_from_bits(v).is_none(), "value {} must not decode", v);
    }
}

#[test]
fn test_connector_arg_splits_at_the_first_equals_sign() {
    assert_eq!(split_connector_arg("device=/dev/mem"), Ok(6));
    assert_eq!(split_connector_arg("a=b=c"), Ok(1));
    assert_eq!(split_connector_arg("=value"), Ok(0));
}

#[test]
fn test_connector_arg_without_equals_sign_is_a_configuration_error() {
    assert_eq!(
        split_connector_arg("malformed"),
        Err(MemflowDriverError::InvalidConnectorArgument("malformed".to_string()))
    );
}

#[test]
fn test_memflow_connector_parameter_is_required() {
    let params = microvmi::api::DriverInitParams::default();
    let outcome = check_connector_params(&params);
    assert_eq!(
        outcome.err().expect("missing connector parameter must fail"),
        microvmi::api::DriverError::Memflow(MemflowDriverError::MissingConnectorParameter)
    );
}

#[test]
fn test_qemu_procfs_connector_receives_the_vm_name() {
    let common = Some(microvmi::api::CommonInitParams { vm_name: "some_vm".to_string() });
    assert_eq!(
        qemu_procfs_vm_name(&"qemu_procfs".to_string(), &common),
        Some("some_vm".to_string())
    );
    assert_eq!(qemu_procfs_vm_name(&"kcore".to_string(), &common), None);
    assert_eq!(qemu_procfs_vm_name(&"qemu_procfs".to_string(), &None), None);
}
