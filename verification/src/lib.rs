//! A virtual-machine-introspection (VMI) driver layer.
//!
//! The library lets a caller pause a running guest, read and write its
//! physical memory and CPU register state, control which classes of CPU
//! events the hypervisor delivers, and receive and acknowledge those events
//! one at a time per virtual CPU (VCPU).
//!
//! The `api` module holds the generic data model shared by every backend;
//! the `backend` module models the backend-native wire structures and the
//! connection to the introspection subsystem; the `driver` module holds the
//! KVM driver that composes them.

pub mod api;
pub mod backend;
pub mod driver;
