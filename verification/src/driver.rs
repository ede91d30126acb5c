//! Backend drivers. Only the KVM driver lives in the verified core.

pub mod kvm;
pub mod memflow;
