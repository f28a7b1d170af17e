//! What is known of an attached device: how it describes itself, the status
//! flags it reports, and the judgement of whether it may be touched.

use crate::error::{ErrorView, ProvisionError};
use crate::text::same_text;
use vstd::prelude::*;

verus! {

/// A snapshot of the lock-out and self-test flags of a device.
#[derive(Clone, Copy, Debug, PartialEq, Eq, Structural)]
pub struct DeviceStatus {
    pub one_attempt_from_admin_lockout: bool,
    pub admin_locked: bool,
    pub one_attempt_from_user_lockout: bool,
    pub user_locked: bool,
    pub self_test_failed: bool,
}

/// Whether a device may be operated on.
#[derive(Clone, Copy, Debug, PartialEq, Eq, Structural)]
pub enum Classification {
    Safe,
    Deadly,
}

/// A status is deadly when any of its five flags is set.
pub open spec fn is_deadly(status: DeviceStatus) -> bool {
    ||| status.one_attempt_from_admin_lockout
    ||| status.admin_locked
    ||| status.one_attempt_from_user_lockout
    ||| status.user_locked
    ||| status.self_test_failed
}

/// Classifies a status snapshot.
pub fn assess(status: DeviceStatus) -> (verdict: Classification)
    ensures
        verdict == Classification::Deadly <==> is_deadly(status),
        verdict == Classification::Safe <==> !is_deadly(status),
{
    if status.one_attempt_from_admin_lockout || status.admin_locked
        || status.one_attempt_from_user_lockout || status.user_locked || status.self_test_failed {
        Classification::Deadly
    } else {
        Classification::Safe
    }
}

/// How a device that discovery found describes itself.
#[derive(Clone, Debug, PartialEq, Eq)]
pub struct DeviceDescriptor {
    /// The serial number: the key under which the run's files are named.
    pub serial_number: String,
    /// The manufacturer or product the device declares.
    pub identity: String,
    /// Where the driver reaches it: a slot or a path.
    pub location: String,
}

/// A descriptor as a value of the model.
pub struct DescriptorView {
    pub serial_number: Seq<char>,
    pub identity: Seq<char>,
    pub location: Seq<char>,
}

impl View for DeviceDescriptor {
    type V = DescriptorView;

    open spec fn view(&self) -> DescriptorView {
        DescriptorView {
            serial_number: self.serial_number@,
            identity: self.identity@,
            location: self.location@,
        }
    }
}

impl DeviceDescriptor {
    /// A second value of the same descriptor.
    pub fn copy(&self) -> (c: DeviceDescriptor)
        ensures
            c@ == self@,
    {
        DeviceDescriptor {
            serial_number: self.serial_number.clone(),
            identity: self.identity.clone(),
            location: self.location.clone(),
        }
    }
}

/// The views of a sequence of descriptors.
pub open spec fn descriptors(v: Seq<DeviceDescriptor>) -> Seq<DescriptorView> {
    Seq::new(v.len(), |i: int| v[i]@)
}

/// The one device to provision among the candidates: there must be exactly
/// one, and it must declare the expected identity.
pub open spec fn single_device(candidates: Seq<DescriptorView>, expected: Seq<char>) -> Result<
    DescriptorView,
    ErrorView,
> {
    if candidates.len() == 0 {
        Err(ErrorView::NoDeviceFound)
    } else if candidates.len() > 1 {
        Err(ErrorView::AmbiguousDevice)
    } else if candidates[0].identity != expected {
        Err(ErrorView::UnexpectedDevice { identity: candidates[0].identity })
    } else {
        Ok(candidates[0])
    }
}

/// Picks the device to provision, or says why none can be picked.
pub fn discover_single_device(candidates: Vec<DeviceDescriptor>, expected_identity: &str) -> (r:
    Result<DeviceDescriptor, ProvisionError>)
    ensures
        match single_device(descriptors(candidates@), expected_identity@) {
            Ok(d) => r is Ok && r->Ok_0@ == d,
            Err(e) => r is Err && r->Err_0@ == e,
        },
{
    let mut candidates = candidates;
    let ghost all = descriptors(candidates@);
    if candidates.len() == 0 {
        return Err(ProvisionError::NoDeviceFound);
    }
    if candidates.len() > 1 {
        return Err(ProvisionError::AmbiguousDevice);
    }
    let device = candidates.remove(0);
    assert(device@ == all[0]);
    if !same_text(device.identity.as_str(), expected_identity) {
        return Err(ProvisionError::UnexpectedDevice { identity: device.identity });
    }
    Ok(device)
}

} // verus!
