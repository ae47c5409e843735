//! A backlight device: its name, its brightness and its maximum, loaded from
//! what the files of its directory held, and the values that may be written
//! to it.

use crate::change::{Delay, Direction};
use crate::detect::{detect_index, detected};
use crate::err::{BlResult, BlibError};
use crate::sweep::{sweep_direction, Sweep};
use crate::text::{decimal, decimal_text, parse_value, parsed};
use vstd::prelude::*;
use vstd::string::*;

verus! {

/// The backlight directory of Linux. Every backlight device has a directory here.
pub const BLDIR: &'static str = "/sys/class/backlight";

/// What was found of one file of a device.
#[derive(Debug, Clone)]
pub enum FileState {
    /// There is no such file.
    Missing,
    /// The file is there, but reading it failed.
    Unreadable,
    /// The text that the file held.
    Content(String),
}

/// One entry of the backlight directory with its two files: `brightness`
/// holds the current value, `max_brightness` the highest one.
#[derive(Debug, Clone)]
pub struct Entry {
    pub name: String,
    pub brightness: FileState,
    pub max_brightness: FileState,
}

/// The number that a device file gave, if it could be read and held one.
pub open spec fn file_value(file: FileState) -> Option<u32> {
    match file {
        FileState::Content(text) => parsed(text@),
        _ => None,
    }
}

/// The names of entries, in their order.
pub open spec fn entry_names(entries: Seq<Entry>) -> Seq<String> {
    entries.map_values(|e: Entry| e.name)
}

/// The index of the first entry from `from` on that is called `name` and has
/// a brightness file, or the number of entries where there is none.
pub open spec fn first_named(entries: Seq<Entry>, name: Seq<char>, from: int) -> int
    decreases entries.len() - from,
{
    if from < 0 || from >= entries.len() {
        entries.len() as int
    } else if entries[from].name@ == name && !(entries[from].brightness is Missing) {
        from
    } else {
        first_named(entries, name, from + 1)
    }
}

/// The index of the entry that a device is made from: the one asked for by
/// name, or else the one that detection settles on.
pub open spec fn chosen(name: Option<String>, entries: Seq<Entry>) -> Option<int> {
    match name {
        Some(n) => if first_named(entries, n@, 0) < entries.len() {
            Some(first_named(entries, n@, 0))
        } else {
            None
        },
        None => detected(entry_names(entries)),
    }
}

/// The directory of the device called `name`.
pub open spec fn device_dir_of(name: Seq<char>) -> Seq<char> {
    BLDIR@ + "/"@ + name
}

/// The brightness and the maximum that an entry gives, or the error that
/// loading it ends in. The brightness is read first.
pub open spec fn loaded(entry: Entry) -> Result<(u32, u32), BlibError> {
    match file_value(entry.brightness) {
        None => Err(BlibError::ReadCurrent),
        Some(current) => match file_value(entry.max_brightness) {
            None => Err(BlibError::ReadMax),
            Some(max) => Ok((current, max)),
        },
    }
}

/// What making a device comes to: the index of the entry taken with its
/// brightness and maximum, or the error.
pub open spec fn opened(name: Option<String>, entries: Result<Vec<Entry>, std::io::Error>) -> Result<
    (int, u32, u32),
    BlibError,
> {
    match entries {
        Err(e) => Err(BlibError::ReadBlDir(e)),
        Ok(list) => match chosen(name, list@) {
            None => Err(BlibError::NoDeviceFound),
            Some(i) => match loaded(list@[i]) {
                Err(e) => Err(e),
                Ok((current, max)) => Ok((i, current, max)),
            },
        },
    }
}

/// The step of a change of `step_size` percent on a device whose maximum is
/// `max`: that share of the maximum, rounded down, and no more than a `u32` holds.
pub open spec fn change_step(max: u32, step_size: u32) -> nat {
    let step = (max as nat * step_size as nat) / 100;
    if step > u32::MAX {
        u32::MAX as nat
    } else {
        step
    }
}

/// The brightness after a change of `step_size` percent of `max` from
/// `current`: the step is added or taken away without leaving the range of
/// `u32`, and the result is no more than `max`.
pub open spec fn changed_value(current: u32, max: u32, step_size: u32, dir: Direction) -> u32 {
    let step = change_step(max, step_size);
    let moved: int = match dir {
        Direction::Inc => if current + step > u32::MAX {
            u32::MAX as int
        } else {
            current + step
        },
        Direction::Dec => if step > current {
            0
        } else {
            current - step
        },
    };
    if moved > max {
        max
    } else {
        moved as u32
    }
}

/// A backlight device as it was when its files were read.
#[derive(Debug, Clone)]
pub struct Device {
    name: String,
    current: u32,
    max: u32,
    device_dir: String,
}

impl Device {
    pub closed spec fn spec_name(&self) -> Seq<char> {
        self.name@
    }

    pub closed spec fn spec_current(&self) -> u32 {
        self.current
    }

    pub closed spec fn spec_max(&self) -> u32 {
        self.max
    }

    pub closed spec fn spec_device_path(&self) -> Seq<char> {
        self.device_dir@
    }

    /// Whether this is the device called `name` in the backlight directory,
    /// with this brightness and this maximum.
    pub open spec fn is_device(&self, name: Seq<char>, current: u32, max: u32) -> bool {
        &&& self.spec_name() == name
        &&& self.spec_current() == current
        &&& self.spec_max() == max
        &&& self.spec_device_path() == device_dir_of(name)
    }

    /// Makes a device from what was found in the backlight directory.
    ///
    /// With a `name`, the device is the first entry of that name that has a
    /// brightness file; `entries` then need hold no other. Without one, the
    /// device is detected among all the entries by the order of preference
    /// of their classes.
    ///
    /// Fails with `ReadBlDir` if the directory could not be listed, with
    /// `NoDeviceFound` if there is no such entry, and with `ReadCurrent` or
    /// `ReadMax` if a file of the entry could not be read or holds no number.
    pub fn new(name: Option<String>, entries: Result<Vec<Entry>, std::io::Error>) -> (r: BlResult<
        Device,
    >)
        ensures
            match opened(name, entries) {
                Err(e) => r == Err::<Device, BlibError>(e),
                Ok((i, current, max)) => r.is_ok() && r.unwrap().is_device(
                    entries.unwrap()@[i].name@,
                    current,
                    max,
                ),
            },
    {
        let list = match entries {
            Err(e) => {
                return Err(BlibError::ReadBlDir(e));
            },
            Ok(list) => list,
        };
        let found = match name {
            Some(n) => Self::find_named(&list, &n),
            None => {
                let names = Self::names_of(&list);
                detect_index(&names)
            },
        };
        match found {
            None => Err(BlibError::NoDeviceFound),
            Some(i) => Self::load(&list[i]),
        }
    }

    /// Finds the first entry called `name` that has a brightness file.
    fn find_named(entries: &Vec<Entry>, name: &String) -> (r: Option<usize>)
        ensures
            match r {
                Some(i) => i < entries@.len() && first_named(entries@, name@, 0) == i,
                None => first_named(entries@, name@, 0) >= entries@.len(),
            },
    {
        let mut i: usize = 0;
        while i < entries.len()
            invariant
                i <= entries@.len(),
                first_named(entries@, name@, 0) == first_named(entries@, name@, i as int),
            decreases entries@.len() - i,
        {
            let has_file = match entries[i].brightness {
                FileState::Missing => false,
                _ => true,
            };
            if has_file && entries[i].name == *name {
                return Some(i);
            }
            i += 1;
        }
        None
    }

    /// Copies the names out of the entries.
    fn names_of(entries: &Vec<Entry>) -> (r: Vec<String>)
        ensures
            r@ == entry_names(entries@),
    {
        let mut names: Vec<String> = Vec::new();
        let mut i: usize = 0;
        while i < entries.len()
            invariant
                i <= entries@.len(),
                names@ == entry_names(entries@).subrange(0, i as int),
            decreases entries@.len() - i,
        {
            names.push(entries[i].name.clone());
            assert(names@ =~= entry_names(entries@).subrange(0, i + 1));
            i += 1;
        }
        assert(names@ =~= entry_names(entries@));
        names
    }

    /// Loads the device of an entry from the text of its two files. Fails
    /// with `ReadCurrent` if the brightness could not be read or is no
    /// number, and else with `ReadMax` if the maximum could not or is none.
    pub fn load(entry: &Entry) -> (r: BlResult<Device>)
        ensures
            match loaded(*entry) {
                Err(e) => r == Err::<Device, BlibError>(e),
                Ok((current, max)) => r.is_ok() && r.unwrap().is_device(entry.name@, current, max),
            },
    {
        let current = match Self::get_current(&entry.brightness) {
            Ok(v) => v,
            Err(e) => {
                return Err(e);
            },
        };
        let max = match Self::get_max(&entry.max_brightness) {
            Ok(v) => v,
            Err(e) => {
                return Err(e);
            },
        };
        let device_dir = String::from_str(BLDIR).concat("/").concat(entry.name.as_str());
        Ok(Device { name: entry.name.clone(), current, max, device_dir })
    }

    /// A device of these values, whatever directory it lives in.
    pub fn from_parts(name: String, current: u32, max: u32, device_dir: String) -> (r: Device)
        ensures
            r.spec_name() == name@,
            r.spec_current() == current,
            r.spec_max() == max,
            r.spec_device_path() == device_dir@,
    {
        Device { name, current, max, device_dir }
    }

    /// The name of the device.
    pub fn name(&self) -> (r: &str)
        ensures
            r@ == self.spec_name(),
    {
        self.name.as_str()
    }

    /// The brightness of the device when it was last read.
    #[verifier::when_used_as_spec(spec_current)]
    pub fn current(&self) -> (r: u32)
        ensures
            r == self.spec_current(),
    {
        self.current
    }

    /// The highest brightness that the device supports.
    #[verifier::when_used_as_spec(spec_max)]
    pub fn max(&self) -> (r: u32)
        ensures
            r == self.spec_max(),
    {
        self.max
    }

    /// The directory that holds the files of the device.
    pub fn device_path(&self) -> (r: &str)
        ensures
            r@ == self.spec_device_path(),
    {
        self.device_dir.as_str()
    }

    /// Takes the maximum from what was found of the file `max_brightness`.
    pub fn get_max(file: &FileState) -> (r: BlResult<u32>)
        ensures
            match file_value(*file) {
                Some(v) => r == Ok::<u32, BlibError>(v),
                None => r == Err::<u32, BlibError>(BlibError::ReadMax),
            },
    {
        match file {
            FileState::Content(text) => match parse_value(text.as_str()) {
                Some(v) => Ok(v),
                None => Err(BlibError::ReadMax),
            },
            _ => Err(BlibError::ReadMax),
        }
    }

    /// Takes the brightness from what was found of the file `brightness`.
    pub fn get_current(file: &FileState) -> (r: BlResult<u32>)
        ensures
            match file_value(*file) {
                Some(v) => r == Ok::<u32, BlibError>(v),
                None => r == Err::<u32, BlibError>(BlibError::ReadCurrent),
            },
    {
        match file {
            FileState::Content(text) => match parse_value(text.as_str()) {
                Some(v) => Ok(v),
                None => Err(BlibError::ReadCurrent),
            },
            _ => Err(BlibError::ReadCurrent),
        }
    }

    /// Takes over the brightness and the maximum that were read anew from
    /// the files `brightness` and `max_brightness`. The name and the
    /// directory stay.
    ///
    /// A device whose values cannot be read again is of no further use, so
    /// each of the two files must have given a number.
    pub fn reload(&mut self, brightness: &FileState, max_brightness: &FileState)
        requires
            file_value(*brightness).is_some(),
            file_value(*max_brightness).is_some(),
        ensures
            final(self).spec_current() == file_value(*brightness).unwrap(),
            final(self).spec_max() == file_value(*max_brightness).unwrap(),
            final(self).spec_name() == old(self).spec_name(),
            final(self).spec_device_path() == old(self).spec_device_path(),
    {
        match Self::get_current(brightness) {
            Ok(v) => {
                self.current = v;
            },
            Err(_) => {},
        }
        match Self::get_max(max_brightness) {
            Ok(v) => {
                self.max = v;
            },
            Err(_) => {},
        }
    }

    /// Checks a value that is to be written to the device and gives the text
    /// to put into the file `brightness`. Fails with `ValueTooLarge`, and
    /// gives nothing to write, exactly if the value is above the maximum.
    pub fn write_value(&self, value: u32) -> (r: BlResult<String>)
        ensures
            value > self.spec_max() ==> r == Err::<String, BlibError>(
                BlibError::ValueTooLarge { given: value, supported: self.spec_max() },
            ),
            value <= self.spec_max() ==> r.is_ok() && r.unwrap()@ == decimal(value as nat),
    {
        if value > self.max {
            return Err(BlibError::ValueTooLarge { given: value, supported: self.max });
        }
        Ok(decimal_text(value))
    }

    /// Says how a write to the device ended: a failure becomes
    /// `WriteNewVal` with the name of the device.
    pub fn written(&self, outcome: Result<(), std::io::Error>) -> (r: BlResult<()>)
        ensures
            match outcome {
                Ok(_) => r.is_ok(),
                Err(e) => r matches Err(BlibError::WriteNewVal { err, dev }) && err == e && dev@
                    == self.spec_name(),
            },
    {
        match outcome {
            Ok(_) => Ok(()),
            Err(err) => Err(BlibError::WriteNewVal { err, dev: self.name.clone() }),
        }
    }

    /// Begins a smooth transition from the current brightness to `value`,
    /// with a pause of `delay` after each write.
    pub fn sweep_write(&self, value: u32, delay: Delay) -> (r: Sweep)
        ensures
            r.wf(),
            r.spec_current() == self.spec_current(),
            r.spec_target() == value,
            r.spec_max() == self.spec_max(),
            r.spec_direction() == sweep_direction(self.spec_current(), value),
            r.spec_delay() == delay,
    {
        Sweep::begin(self.current, value, self.max, delay)
    }

    /// The brightness to write for a change of `step_size` percent of the
    /// maximum in direction `dir`. It is never above the maximum.
    pub fn calculate_change(&self, step_size: u32, dir: Direction) -> (r: u32)
        ensures
            r == changed_value(self.spec_current(), self.spec_max(), step_size, dir),
            r <= self.spec_max(),
            self.spec_current() <= self.spec_max() && dir == Direction::Inc ==> self.spec_current()
                <= r,
            self.spec_current() <= self.spec_max() && dir == Direction::Dec ==> r
                <= self.spec_current(),
            self.spec_current() <= self.spec_max() && dir == Direction::Inc && self.spec_current()
                + change_step(self.spec_max(), step_size) > self.spec_max() ==> r
                == self.spec_max(),
            self.spec_current() <= self.spec_max() && dir == Direction::Dec && self.spec_current()
                - change_step(self.spec_max(), step_size) < 0 ==> r == 0,
    {
        let wide: u64 = {
            assert((self.max as u64) * (step_size as u64) <= 0xFFFF_FFFF * 0xFFFF_FFFF)
                by (nonlinear_arith)
                requires
                    self.max <= 0xFFFF_FFFF,
                    step_size <= 0xFFFF_FFFF,
            ;
            (self.max as u64) * (step_size as u64) / 100
        };
        let step: u32 = if wide > 0xFFFF_FFFF {
            0xFFFF_FFFF
        } else {
            wide as u32
        };
        let moved: u32 = match dir {
            Direction::Inc => if step > 0xFFFF_FFFF - self.current {
                0xFFFF_FFFF
            } else {
                self.current + step
            },
            Direction::Dec => if step > self.current {
                0
            } else {
                self.current - step
            },
        };
        if moved > self.max {
            self.max
        } else {
            moved
        }
    }
}

/// An increase never leaves the range of the device: from a brightness
/// within the range it gives a value between that brightness and the
/// maximum, and the maximum itself wherever the step would go beyond it.
pub proof fn lemma_increase_is_bounded(current: u32, max: u32, step_size: u32)
    requires
        current <= max,
    ensures
        current <= changed_value(current, max, step_size, Direction::Inc) <= max,
        current + change_step(max, step_size) > max ==> changed_value(
            current,
            max,
            step_size,
            Direction::Inc,
        ) == max,
        current + change_step(max, step_size) <= max ==> changed_value(
            current,
            max,
            step_size,
            Direction::Inc,
        ) == current + change_step(max, step_size),
{
}

/// A decrease never leaves the range of the device: from a brightness
/// within the range it gives a value between 0 and that brightness, and 0
/// itself wherever the step would go below it.
pub proof fn lemma_decrease_is_bounded(current: u32, max: u32, step_size: u32)
    requires
        current <= max,
    ensures
        0 <= changed_value(current, max, step_size, Direction::Dec) <= current,
        current - change_step(max, step_size) < 0 ==> changed_value(
            current,
            max,
            step_size,
            Direction::Dec,
        ) == 0,
        current - change_step(max, step_size) >= 0 ==> changed_value(
            current,
            max,
            step_size,
            Direction::Dec,
        ) == current - change_step(max, step_size),
{
}

/// Whatever the brightness was, the value computed for a change can be
/// written: it is never above the maximum.
pub proof fn lemma_change_is_writable(current: u32, max: u32, step_size: u32, dir: Direction)
    ensures
        changed_value(current, max, step_size, dir) <= max,
{
}

} // verus!
