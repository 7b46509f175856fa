//! The capture devices on offer and the one that was picked.

use vstd::prelude::*;

verus! {

/// Where `name` first occurs in `names`, if it occurs at all.
pub open spec fn position(names: Seq<Seq<char>>, name: Seq<char>) -> Option<nat>
    decreases names.len(),
{
    if names.len() == 0 {
        None
    } else {
        match position(names.drop_last(), name) {
            Some(i) => Some(i),
            None => if names.last() == name {
                Some((names.len() - 1) as nat)
            } else {
                None
            },
        }
    }
}

/// The names of a list of devices as sequences of characters.
pub open spec fn names_of(devices: Seq<String>) -> Seq<Seq<char>> {
    devices.map_values(|d: String| d@)
}

/// `position` finds the first entry equal to `name`, and finds nothing
/// exactly when no entry equals `name`.
pub proof fn lemma_position(names: Seq<Seq<char>>, name: Seq<char>)
    ensures
        match position(names, name) {
            Some(i) => i < names.len() && names[i as int] == name && forall|j: int|
                0 <= j < i ==> names[j] != name,
            None => forall|j: int| 0 <= j < names.len() ==> names[j] != name,
        },
    decreases names.len(),
{
    if names.len() > 0 {
        let shorter = names.drop_last();
        lemma_position(shorter, name);
        assert forall|j: int| 0 <= j < shorter.len() implies shorter[j] == names[j] by {}
    }
}

/// A name that is found at the front of a list is found at the same place
/// however the list goes on.
proof fn lemma_position_of_prefix(names: Seq<Seq<char>>, name: Seq<char>, n: int)
    requires
        0 <= n <= names.len(),
    ensures
        position(names.take(n), name) is Some ==> position(names, name) == position(
            names.take(n),
            name,
        ),
    decreases names.len() - n,
{
    if n < names.len() {
        lemma_position_of_prefix(names, name, n + 1);
        assert(names.take(n + 1).drop_last() =~= names.take(n));
    } else {
        assert(names.take(n) =~= names);
    }
}

/// The index of the first device called `name`, or `None` if no device has
/// that name.
pub fn find_device(devices: &Vec<String>, name: &String) -> (found: Option<usize>)
    ensures
        match found {
            Some(i) => position(names_of(devices@), name@) == Some(i as nat),
            None => position(names_of(devices@), name@) is None,
        },
{
    let ghost names = names_of(devices@);
    let mut i: usize = 0;
    while i < devices.len()
        invariant
            i <= devices.len(),
            names == names_of(devices@),
            position(names.take(i as int), name@) is None,
        decreases devices.len() - i,
    {
        assert(names.take(i + 1).drop_last() =~= names.take(i as int));
        if devices[i] == *name {
            proof {
                lemma_position_of_prefix(names, name@, i + 1);
            }
            return Some(i);
        }
        i += 1;
    }
    assert(names.take(i as int) =~= names);
    None
}

/// The capture devices that enumeration reported and the operator's choice
/// among them.
#[derive(Debug)]
pub struct DeviceConfiguration {
    /// Name of the chosen device, if one was chosen.
    pub input_device: Option<String>,
    /// Names of the devices on offer, in enumeration order.
    pub input_devices: Vec<String>,
}

impl DeviceConfiguration {
    /// A configuration that offers `input_devices` with none chosen yet.
    pub fn new(input_devices: Vec<String>) -> (configuration: Self)
        ensures
            configuration.input_device is None,
            configuration.input_devices == input_devices,
    {
        DeviceConfiguration { input_device: None, input_devices }
    }

    /// Where the chosen device stands among the devices on offer: `None`
    /// if none was chosen or the chosen name is not on offer.
    pub fn selected_index(&self) -> (found: Option<usize>)
        ensures
            match self.input_device {
                None => found is None,
                Some(name) => match found {
                    Some(i) => position(names_of(self.input_devices@), name@) == Some(i as nat),
                    None => position(names_of(self.input_devices@), name@) is None,
                },
            },
    {
        match &self.input_device {
            None => None,
            Some(name) => find_device(&self.input_devices, name),
        }
    }
}

} // verus!
