//! The registry's view of an open physical input device.
//!
//! A device is opened and owned outside the library; what the script bridge
//! may read of it — its display name — is carried here as plain data, so
//! the bridge's name lookup is a pure function of the capability it is
//! handed.

use vstd::prelude::*;

verus! {

/// What the bridge reads of one open physical input device.  The registry
/// builds one per device, in registration order, and it is immutable from
/// then on.
#[derive(Clone, Debug)]
pub struct DeviceInfo {
    /// The device's display name.
    pub name: String,
}

/// The display name of the device behind a capability.  Fails for no
/// device; the text is read from the capability alone.
pub fn name_of(d: &DeviceInfo) -> (r: String)
    ensures
        r@ == d.name@,
{
    d.name.clone()
}

/// `name_of` is idempotent: its result is fixed by the capability alone, so
/// any two results of calling it on the same device capability are
/// identical text.
pub proof fn lemma_name_of_idempotent(d: DeviceInfo, r1: String, r2: String)
    requires
        r1@ == d.name@,
        r2@ == d.name@,
    ensures
        r1@ == r2@,
{
}

} // verus!
