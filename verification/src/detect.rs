//! Choosing a backlight device among the entries of the backlight directory.
//!
//! A backlight driven by the graphics hardware is more reliable than the
//! generic ACPI one, and that one more than an entry nothing is known of. So
//! the classes of devices are tried in a fixed order, and the first entry of
//! the first class that has one is taken.

use crate::err::BlibError;
use crate::text::{contains_folded, contains_ignore_case};
use vstd::prelude::*;

verus! {

/// The classes of backlight devices, in the order in which they are preferred.
#[derive(Clone, Copy, Debug, PartialEq, Eq, Structural)]
pub enum DeviceClass {
    /// A GPU of AMD or Intel: the name holds `amd` or `intel`.
    Integrated,
    /// A GPU of Nvidia: the name holds `nvidia` or `nv`.
    Nvidia,
    /// The ACPI backlight: the name holds `acpi`.
    Acpi,
    /// Any entry at all.
    Fallback,
}

/// Whether a device of this name belongs to `class`. Capitals in the name
/// count as their lower-case letters.
pub open spec fn in_class(name: Seq<char>, class: DeviceClass) -> bool {
    match class {
        DeviceClass::Integrated => contains_folded(name, "amd"@) || contains_folded(
            name,
            "intel"@,
        ),
        DeviceClass::Nvidia => contains_folded(name, "nvidia"@) || contains_folded(name, "nv"@),
        DeviceClass::Acpi => contains_folded(name, "acpi"@),
        DeviceClass::Fallback => true,
    }
}

/// The index of the first name from `from` on that belongs to `class`, or
/// the number of names where there is none.
pub open spec fn first_in_class(names: Seq<String>, class: DeviceClass, from: int) -> int
    decreases names.len() - from,
{
    if from < 0 || from >= names.len() {
        names.len() as int
    } else if in_class(names[from]@, class) {
        from
    } else {
        first_in_class(names, class, from + 1)
    }
}

/// The index of the name that detection settles on: the first of the most
/// preferred class that has a member. `None` where there are no names.
pub open spec fn detected(names: Seq<String>) -> Option<int> {
    let integrated = first_in_class(names, DeviceClass::Integrated, 0);
    let nvidia = first_in_class(names, DeviceClass::Nvidia, 0);
    let acpi = first_in_class(names, DeviceClass::Acpi, 0);
    let any = first_in_class(names, DeviceClass::Fallback, 0);
    if integrated < names.len() {
        Some(integrated)
    } else if nvidia < names.len() {
        Some(nvidia)
    } else if acpi < names.len() {
        Some(acpi)
    } else if any < names.len() {
        Some(any)
    } else {
        None
    }
}

/// Tells whether a device name belongs to a class.
pub fn belongs_to(name: &str, class: DeviceClass) -> (r: bool)
    ensures
        r == in_class(name@, class),
{
    match class {
        DeviceClass::Integrated => contains_ignore_case(name, "amd") || contains_ignore_case(
            name,
            "intel",
        ),
        DeviceClass::Nvidia => contains_ignore_case(name, "nvidia") || contains_ignore_case(
            name,
            "nv",
        ),
        DeviceClass::Acpi => contains_ignore_case(name, "acpi"),
        DeviceClass::Fallback => true,
    }
}

/// Finds the first of `names` that belongs to `class`; the result is the
/// number of names where none does.
pub fn find_in_class(names: &Vec<String>, class: DeviceClass) -> (r: usize)
    ensures
        r == first_in_class(names@, class, 0),
        r <= names@.len(),
{
    let mut i: usize = 0;
    while i < names.len()
        invariant
            i <= names@.len(),
            first_in_class(names@, class, 0) == first_in_class(names@, class, i as int),
        decreases names@.len() - i,
    {
        if belongs_to(names[i].as_str(), class) {
            return i;
        }
        i += 1;
    }
    i
}

/// Picks the index of the device to use among `names`, which stand in the
/// order in which the directory listed them.
pub fn detect_index(names: &Vec<String>) -> (r: Option<usize>)
    ensures
        match r {
            Some(i) => i < names@.len() && detected(names@) == Some(i as int),
            None => detected(names@).is_none(),
        },
        r.is_none() <==> names@.len() == 0,
{
    let classes = [
        DeviceClass::Integrated,
        DeviceClass::Nvidia,
        DeviceClass::Acpi,
        DeviceClass::Fallback,
    ];
    let mut k: usize = 0;
    while k < 4
        invariant
            k <= 4,
            classes@ == seq![
                DeviceClass::Integrated,
                DeviceClass::Nvidia,
                DeviceClass::Acpi,
                DeviceClass::Fallback,
            ],
            forall|j: int|
                0 <= j < k ==> first_in_class(names@, #[trigger] classes@[j], 0) >= names@.len(),
        decreases 4 - k,
    {
        let found = find_in_class(names, classes[k]);
        if found < names.len() {
            return Some(found);
        }
        k += 1;
    }
    None
}

/// Picks the device to use among `names` and returns its name. Fails with
/// `NoDeviceFound` exactly where there are no names.
pub fn detect_device(names: &Vec<String>) -> (r: Result<String, BlibError>)
    ensures
        match detected(names@) {
            Some(i) => 0 <= i < names@.len() && r == Ok::<String, BlibError>(names@[i]),
            None => r == Err::<String, BlibError>(BlibError::NoDeviceFound),
        },
        r.is_err() <==> names@.len() == 0,
{
    match detect_index(names) {
        Some(i) => {
            let name = names[i].clone();
            Ok(name)
        },
        None => Err(BlibError::NoDeviceFound),
    }
}

/// What `first_in_class` finds: an index within the names from `from` on,
/// whose name belongs to the class while none between `from` and it does;
/// or, where no name from `from` on belongs to the class, their number.
pub proof fn lemma_first_in_class(names: Seq<String>, class: DeviceClass, from: int)
    requires
        0 <= from <= names.len(),
    ensures
        from <= first_in_class(names, class, from) <= names.len(),
        first_in_class(names, class, from) < names.len() ==> in_class(
            names[first_in_class(names, class, from)]@,
            class,
        ),
        forall|j: int|
            from <= j < first_in_class(names, class, from) ==> !in_class(
                (#[trigger] names[j])@,
                class,
            ),
    decreases names.len() - from,
{
    if from < names.len() && !in_class(names[from]@, class) {
        lemma_first_in_class(names, class, from + 1);
    }
}

/// The order of preference. The device detected belongs to some class, no
/// device belongs to a class preferred to that one, and no device listed
/// before it belongs to its class. A device is detected whenever there is one.
pub proof fn lemma_detected_is_preferred(names: Seq<String>)
    ensures
        detected(names).is_none() <==> names.len() == 0,
        detected(names) matches Some(i) ==> {
            &&& 0 <= i < names.len()
            &&& exists|class: DeviceClass|
                {
                    &&& in_class(names[i]@, class)
                    &&& forall|j: int|
                        0 <= j < i ==> !in_class((#[trigger] names[j])@, class)
                    &&& forall|j: int, better: DeviceClass|
                        0 <= j < names.len() && preferred_to(better, class) ==> !#[trigger] in_class(
                            names[j]@,
                            better,
                        )
                }
        },
{
    lemma_first_in_class(names, DeviceClass::Integrated, 0);
    lemma_first_in_class(names, DeviceClass::Nvidia, 0);
    lemma_first_in_class(names, DeviceClass::Acpi, 0);
    lemma_first_in_class(names, DeviceClass::Fallback, 0);
    if names.len() > 0 {
        assert(in_class(names[0]@, DeviceClass::Fallback));
        let i = detected(names).unwrap();
        let class = if first_in_class(names, DeviceClass::Integrated, 0) < names.len() {
            DeviceClass::Integrated
        } else if first_in_class(names, DeviceClass::Nvidia, 0) < names.len() {
            DeviceClass::Nvidia
        } else if first_in_class(names, DeviceClass::Acpi, 0) < names.len() {
            DeviceClass::Acpi
        } else {
            DeviceClass::Fallback
        };
        assert(in_class(names[i]@, class));
        assert(forall|j: int| 0 <= j < i ==> !in_class((#[trigger] names[j])@, class));
        assert forall|j: int, better: DeviceClass|
            0 <= j < names.len() && preferred_to(better, class) implies !#[trigger] in_class(
            names[j]@,
            better,
        ) by {
            assert(first_in_class(names, better, 0) == names.len());
        }
    }
}

/// Whether class `a` is tried before class `b`.
pub open spec fn preferred_to(a: DeviceClass, b: DeviceClass) -> bool {
    class_rank(a) < class_rank(b)
}

/// The place of a class in the order of preference.
pub open spec fn class_rank(class: DeviceClass) -> nat {
    match class {
        DeviceClass::Integrated => 0,
        DeviceClass::Nvidia => 1,
        DeviceClass::Acpi => 2,
        DeviceClass::Fallback => 3,
    }
}

} // verus!
