//! Finding a device that hangs in its bootloader.

use crate::text::same_text;
use vstd::prelude::*;

verus! {

/// What a device is doing.
#[derive(Debug, Clone, Copy, PartialEq, Eq, Structural)]
pub enum DeviceState {
    /// Stuck in the bootloader, which only a reboot helps.
    Bootloader,
    /// Anything else; such a device opens normally.
    Healthy,
}

/// A device that was found.
#[derive(Debug)]
pub struct DeviceInfo {
    /// Address or name.
    pub name: String,
    /// Serial identifier.
    pub device_id: String,
    pub state: DeviceState,
}

impl DeviceInfo {
    /// Whether this is the device that is meant; no target, or an empty one, means any.
    pub open spec fn meant_by(self, target: Option<&str>) -> bool {
        match target {
            None => true,
            Some(t) => t@.len() == 0 || self.name@ == t@ || self.device_id@ == t@,
        }
    }

    /// Whether this device hangs and is the one that is meant.
    pub open spec fn to_be_kicked(self, target: Option<&str>) -> bool {
        self.state == DeviceState::Bootloader && self.meant_by(target)
    }
}

/// The device to reboot: the first one that is stuck in its bootloader and is meant. A
/// healthy device is never chosen, because rebooting it would be pointless.
pub fn kick_wedged_oak(infos: &[DeviceInfo], target: Option<&str>) -> (r: Option<usize>)
    ensures
        match r {
            Some(k) => {
                &&& k < infos@.len()
                &&& infos@[k as int].to_be_kicked(target)
                &&& forall|i: int| 0 <= i < k ==> !(#[trigger] infos@[i]).to_be_kicked(target)
            },
            None => forall|i: int|
                0 <= i < infos@.len() ==> !(#[trigger] infos@[i]).to_be_kicked(target),
        },
        r matches Some(k) ==> infos@[k as int].state == DeviceState::Bootloader,
        r is None && (target is None || target->0@.len() == 0) ==> forall|i: int|
            0 <= i < infos@.len() ==> (#[trigger] infos@[i]).state == DeviceState::Healthy,
{
    let wanted: Option<&str> = crate::policy::device_id(target);
    proof {
        match target {
            Some(t) => {
                if t@.len() == 0 {
                    assert(t@ =~= Seq::empty());
                }
            },
            None => {},
        }
    }
    let mut i: usize = 0;
    while i < infos.len()
        invariant
            i <= infos@.len(),
            crate::policy::setting(wanted) == (if crate::policy::set_to(target, Seq::empty()) {
                None
            } else {
                crate::policy::setting(target)
            }),
            target matches Some(t) ==> (t@.len() == 0 <==> crate::policy::set_to(
                target,
                Seq::empty(),
            )),
            forall|j: int| 0 <= j < i ==> !(#[trigger] infos@[j]).to_be_kicked(target),
        decreases infos@.len() - i,
    {
        let info: &DeviceInfo = &infos[i];
        let meant: bool = match wanted {
            None => true,
            Some(t) => same_text(info.name.as_str(), t) || same_text(info.device_id.as_str(), t),
        };
        if info.state == DeviceState::Bootloader && meant {
            return Some(i);
        }
        i += 1;
    }
    None
}

/// Which device is rebooted: one that hangs in its bootloader, if none is named, or if its name
/// or its serial identifier is the one given, letter for letter.
pub proof fn law_which_device_is_rebooted(info: DeviceInfo, target: &str)
    ensures
        info.to_be_kicked(None) <==> info.state == DeviceState::Bootloader,
        target@.len() == 0 ==> (info.to_be_kicked(Some(target)) <==> info.state
            == DeviceState::Bootloader),
        target@.len() > 0 ==> (info.to_be_kicked(Some(target)) <==> info.state
            == DeviceState::Bootloader && (target@ == info.name@ || target@ == info.device_id@)),
{
}

} // verus!
