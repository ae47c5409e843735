//! The two things a user asks for: change the brightness by a share of the
//! maximum, or set it to a value. Each ends in an action for the caller to
//! carry out on the device's brightness file.

use crate::change::{Change, Delay, Direction};
use crate::device::{changed_value, opened, Device, Entry};
use crate::err::{BlResult, BlibError};
use crate::sweep::{sweep_direction, Sweep};
use crate::text::decimal;
use vstd::prelude::*;

verus! {

/// What is to be done to the brightness file of a device.
#[derive(Debug)]
pub enum Action {
    /// The brightness is already what was asked for: nothing is written.
    Nothing,
    /// Write `text` to the brightness file of `device`.
    Write { device: Device, text: String },
    /// Write to the brightness file of `device` what `sweep` hands out, step by step.
    Sweep { device: Device, sweep: Sweep },
}

/// Whether `sweep` is the sweep of a device with this brightness and this
/// maximum to `target`, with the recommended pause, before its first step.
pub open spec fn is_fresh_sweep(sweep: Sweep, current: u32, max: u32, target: u32) -> bool {
    &&& sweep.wf()
    &&& sweep.spec_current() == current
    &&& sweep.spec_target() == target
    &&& sweep.spec_max() == max
    &&& sweep.spec_direction() == sweep_direction(current, target)
    &&& sweep.spec_delay().spec_secs() == 0
    &&& sweep.spec_delay().spec_subsec_nanos() == 25_000_000
}

/// Changes the brightness by `step_size` percent of the maximum in direction
/// `dir`, at once or as a sweep. The device is made from `device_name` and
/// `entries` as `Device::new` makes it, and its errors are handed on.
///
/// Nothing is to be done where the value computed is the brightness that the
/// device has already.
pub fn change_bl(
    step_size: u32,
    ch: Change,
    dir: Direction,
    device_name: Option<String>,
    entries: Result<Vec<Entry>, std::io::Error>,
) -> (r: BlResult<Action>)
    ensures
        match opened(device_name, entries) {
            Err(e) => r == Err::<Action, BlibError>(e),
            Ok((i, current, max)) => {
                let target = changed_value(current, max, step_size, dir);
                let name = entries.unwrap()@[i].name@;
                if target == current {
                    r == Ok::<Action, BlibError>(Action::Nothing)
                } else {
                    match ch {
                        Change::Regular => r matches Ok(Action::Write { device, text })
                            && device.is_device(name, current, max) && text@ == decimal(
                            target as nat,
                        ),
                        Change::Sweep => r matches Ok(Action::Sweep { device, sweep })
                            && device.is_device(name, current, max) && is_fresh_sweep(
                            sweep,
                            current,
                            max,
                            target,
                        ),
                    }
                }
            },
        },
{
    let device = match Device::new(device_name, entries) {
        Ok(device) => device,
        Err(e) => {
            return Err(e);
        },
    };
    let change = device.calculate_change(step_size, dir);
    if change == device.current() {
        return Ok(Action::Nothing);
    }
    match ch {
        Change::Sweep => {
            let sweep = device.sweep_write(change, Delay::default());
            Ok(Action::Sweep { device, sweep })
        },
        Change::Regular => match device.write_value(change) {
            Ok(text) => Ok(Action::Write { device, text }),
            Err(e) => Err(e),
        },
    }
}

/// Sets the brightness to `val`. The device is made from `device_name` and
/// `entries` as `Device::new` makes it, and its errors are handed on.
///
/// Nothing is to be done where the device has that brightness already.
/// Otherwise a value above the maximum fails with `ValueTooLarge`.
pub fn set_bl(
    val: u32,
    device_name: Option<String>,
    entries: Result<Vec<Entry>, std::io::Error>,
) -> (r: BlResult<Action>)
    ensures
        match opened(device_name, entries) {
            Err(e) => r == Err::<Action, BlibError>(e),
            Ok((i, current, max)) => {
                if val == current {
                    r == Ok::<Action, BlibError>(Action::Nothing)
                } else if val > max {
                    r == Err::<Action, BlibError>(
                        BlibError::ValueTooLarge { given: val, supported: max },
                    )
                } else {
                    r matches Ok(Action::Write { device, text }) && device.is_device(
                        entries.unwrap()@[i].name@,
                        current,
                        max,
                    ) && text@ == decimal(val as nat)
                }
            },
        },
{
    let device = match Device::new(device_name, entries) {
        Ok(device) => device,
        Err(e) => {
            return Err(e);
        },
    };
    if val == device.current() {
        return Ok(Action::Nothing);
    }
    match device.write_value(val) {
        Ok(text) => Ok(Action::Write { device, text }),
        Err(e) => Err(e),
    }
}

} // verus!
