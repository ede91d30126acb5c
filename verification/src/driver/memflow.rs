//! Connector-argument validation for the memory-only Memflow backend.
//!
//! The backend itself loads connector plugins with unsafe library scanning
//! and stays in the application layer; the configuration rule it enforces —
//! every free-form connector argument must be of the form "key=value" —
//! is checked here.

use vstd::prelude::*;
use vstd::string::StringSliceAdditionalSpecFns;

use crate::api::CommonInitParams;
use crate::api::DriverError;
use crate::api::DriverInitParams;
use crate::api::MemflowDriverError;
use crate::api::MemflowInitParams;

verus! {

/// Checks the Memflow configuration: a connector parameter is required
/// before anything else is attempted.
pub fn check_connector_params(init_params: &DriverInitParams) -> (r: Result<
    &MemflowInitParams,
    DriverError,
>)
    ensures
        init_params.memflow is None <==> r == Err::<&MemflowInitParams, DriverError>(
            DriverError::Memflow(MemflowDriverError::MissingConnectorParameter),
        ),
        r matches Ok(m) ==> (init_params.memflow matches Some(m2) && *m == m2),
{
    match &init_params.memflow {
        Some(m) => Ok(m),
        None => Err(DriverError::Memflow(MemflowDriverError::MissingConnectorParameter)),
    }
}

/// Decides whether the connector receives the configured VM name as its
/// `name` argument: exactly when the qemu_procfs connector is selected and
/// a VM name is present.
pub fn qemu_procfs_vm_name(connector_name: &String, common: &Option<CommonInitParams>) -> (r:
    Option<String>)
    ensures
        r is Some <==> (connector_name@ == "qemu_procfs"@ && common is Some),
        r matches Some(v) ==> (common matches Some(c) && v@ == c.vm_name@),
{
    let target: String = "qemu_procfs".to_owned();
    if *connector_name == target {
        match common {
            Some(c) => Some(c.vm_name.clone()),
            None => None,
        }
    } else {
        None
    }
}

/// Checks that a connector argument is of the form "key=value" and returns
/// the byte position of the first `=`, where the key ends: everything
/// before it is the key, everything after it the value. An argument
/// without `=` is a configuration error carrying the offending argument.
pub fn split_connector_arg(s: &str) -> (r: Result<usize, MemflowDriverError>)
    ensures
        r matches Ok(i) ==> i < s.spec_bytes().len() && s.spec_bytes()[i as int] == 61u8
            && (forall|k: int| 0 <= k < i ==> s.spec_bytes()[k] != 61u8),
        r is Err ==> (forall|k: int| 0 <= k < s.spec_bytes().len() ==> s.spec_bytes()[k] != 61u8),
        r matches Err(e) ==> (e matches MemflowDriverError::InvalidConnectorArgument(t) && t@
            == s@),
{
    let bytes = s.as_bytes();
    let n = bytes.len();
    let mut i: usize = 0;
    while i < n
        invariant
            i <= n,
            n == s.spec_bytes().len(),
            bytes@ == s.spec_bytes(),
            forall|k: int| 0 <= k < i ==> s.spec_bytes()[k] != 61u8,
        decreases n - i,
    {
        if bytes[i] == 61u8 {
            return Ok(i);
        }
        i = i + 1;
    }
    Err(MemflowDriverError::InvalidConnectorArgument(s.to_owned()))
}

} // verus!
