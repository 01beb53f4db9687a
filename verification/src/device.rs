//! The device directory: descriptors of audio input devices as one
//! enumeration reports them, and the lookups the device switch needs.

use vstd::prelude::*;

verus! {

/// The platform's identifier of an audio device. It is stable while the
/// process runs, but not from one enumeration to the next.
pub type AudioDeviceID = u32;

/// One audio input device of an enumeration: identifier and display name.
#[derive(Clone, Debug, PartialEq, Eq)]
pub struct AudioDeviceDescriptor {
    pub id: AudioDeviceID,
    pub name: String,
}

/// What a descriptor says, as plain mathematical values.
pub struct DeviceSpec {
    pub id: AudioDeviceID,
    pub name: Seq<char>,
}

impl View for AudioDeviceDescriptor {
    type V = DeviceSpec;

    open spec fn view(&self) -> DeviceSpec {
        DeviceSpec { id: self.id, name: self.name@ }
    }
}

/// The descriptors of a device list, in the list's order.
pub open spec fn device_specs(devices: Seq<AudioDeviceDescriptor>) -> Seq<DeviceSpec> {
    devices.map_values(|d: AudioDeviceDescriptor| d@)
}

/// No identifier occurs twice in the list.
pub open spec fn distinct_ids(devices: Seq<DeviceSpec>) -> bool {
    forall|i: int, j: int|
        0 <= i < devices.len() && 0 <= j < devices.len() && i != j ==> (#[trigger] devices[i]).id
            != (#[trigger] devices[j]).id
}

/// No display name occurs twice in the list.
pub open spec fn distinct_names(devices: Seq<DeviceSpec>) -> bool {
    forall|i: int, j: int|
        0 <= i < devices.len() && 0 <= j < devices.len() && i != j ==> (#[trigger] devices[i]).name
            != (#[trigger] devices[j]).name
}

/// `i` is the first place in the list that holds the identifier `id`.
pub open spec fn is_first_with_id(devices: Seq<DeviceSpec>, id: AudioDeviceID, i: int) -> bool {
    &&& 0 <= i < devices.len()
    &&& devices[i].id == id
    &&& forall|j: int| 0 <= j < i ==> (#[trigger] devices[j]).id != id
}

/// `i` is the first place in the list that holds the display name `name`.
pub open spec fn is_first_with_name(devices: Seq<DeviceSpec>, name: Seq<char>, i: int) -> bool {
    &&& 0 <= i < devices.len()
    &&& devices[i].name == name
    &&& forall|j: int| 0 <= j < i ==> (#[trigger] devices[j]).name != name
}

/// The first place that holds `id`, if any place does.
pub open spec fn position_of_id(devices: Seq<DeviceSpec>, id: AudioDeviceID) -> Option<int> {
    if exists|i: int| is_first_with_id(devices, id, i) {
        Some(choose|i: int| is_first_with_id(devices, id, i))
    } else {
        None
    }
}

/// The first place that holds `name`, if any place does.
pub open spec fn position_of_name(devices: Seq<DeviceSpec>, name: Seq<char>) -> Option<int> {
    if exists|i: int| is_first_with_name(devices, name, i) {
        Some(choose|i: int| is_first_with_name(devices, name, i))
    } else {
        None
    }
}

/// Where the device `current` stands in the list: by identifier, and where
/// no identifier matches, by display name.
pub open spec fn locate(devices: Seq<DeviceSpec>, current: DeviceSpec) -> Option<int> {
    match position_of_id(devices, current.id) {
        Some(i) => Some(i),
        None => position_of_name(devices, current.name),
    }
}

/// The place the switch moves to: one past the current device, wrapping at
/// the end of the list; the head of the list when there is no current device
/// or it is no longer listed; nothing when the list is empty.
pub open spec fn next_index(devices: Seq<DeviceSpec>, current: Option<DeviceSpec>) -> Option<int> {
    if devices.len() == 0 {
        None
    } else {
        match current {
            Some(device) => match locate(devices, device) {
                Some(i) => Some((i + 1) % (devices.len() as int)),
                None => Some(0),
            },
            None => Some(0),
        }
    }
}

/// The place selected after `calls` switches that start from the device at
/// `start` of a fixed list, each switch taking up the device it selected.
pub open spec fn index_after(devices: Seq<DeviceSpec>, start: int, calls: nat) -> int
    decreases calls,
{
    if calls == 0 {
        start
    } else {
        let before = index_after(devices, start, (calls - 1) as nat);
        match next_index(devices, Some(devices[before])) {
            Some(i) => i,
            None => before,
        }
    }
}

/// There is at most one first place for an identifier, so `position_of_id`
/// is that place whenever one exists.
pub proof fn lemma_position_of_id(devices: Seq<DeviceSpec>, id: AudioDeviceID, i: int)
    requires
        is_first_with_id(devices, id, i),
    ensures
        position_of_id(devices, id) == Some(i),
{
    let c = choose|k: int| is_first_with_id(devices, id, k);
    assert(is_first_with_id(devices, id, c));
    if c < i {
        assert(devices[c].id != id);
    } else if i < c {
        assert(devices[i].id != id);
    }
}

/// The same for display names.
pub proof fn lemma_position_of_name(devices: Seq<DeviceSpec>, name: Seq<char>, i: int)
    requires
        is_first_with_name(devices, name, i),
    ensures
        position_of_name(devices, name) == Some(i),
{
    let c = choose|k: int| is_first_with_name(devices, name, k);
    assert(is_first_with_name(devices, name, c));
    if c < i {
        assert(devices[c].name != name);
    } else if i < c {
        assert(devices[i].name != name);
    }
}

/// In a list without repeated identifiers, each switch from a listed device
/// selects the place one further on, modulo the length of the list.
pub proof fn lemma_next_index_advances(devices: Seq<DeviceSpec>, i: int)
    requires
        distinct_ids(devices),
        0 <= i < devices.len(),
    ensures
        next_index(devices, Some(devices[i])) == Some((i + 1) % (devices.len() as int)),
{
    assert(is_first_with_id(devices, devices[i].id, i));
    lemma_position_of_id(devices, devices[i].id, i);
}

/// Where the identifiers no longer match (a list fetched anew) but the names
/// do and none repeats, the switch advances in the same way.
pub proof fn lemma_next_index_advances_by_name(
    devices: Seq<DeviceSpec>,
    current: DeviceSpec,
    i: int,
)
    requires
        distinct_names(devices),
        0 <= i < devices.len(),
        devices[i].name == current.name,
        forall|j: int| 0 <= j < devices.len() ==> (#[trigger] devices[j]).id != current.id,
    ensures
        next_index(devices, Some(current)) == Some((i + 1) % (devices.len() as int)),
{
    assert(is_first_with_name(devices, current.name, i));
    lemma_position_of_name(devices, current.name, i);
    if exists|k: int| is_first_with_id(devices, current.id, k) {
        let k = choose|k: int| is_first_with_id(devices, current.id, k);
        assert(devices[k].id != current.id);
    }
}

/// A device that is listed neither by identifier nor by name sends the
/// switch to the head of the list.
pub proof fn lemma_next_index_falls_back(devices: Seq<DeviceSpec>, current: DeviceSpec)
    requires
        devices.len() > 0,
        forall|j: int| 0 <= j < devices.len() ==> (#[trigger] devices[j]).id != current.id,
        forall|j: int| 0 <= j < devices.len() ==> (#[trigger] devices[j]).name != current.name,
    ensures
        next_index(devices, Some(current)) == Some(0int),
{
    if exists|k: int| is_first_with_id(devices, current.id, k) {
        let k = choose|k: int| is_first_with_id(devices, current.id, k);
        assert(devices[k].id != current.id);
    }
    if exists|k: int| is_first_with_name(devices, current.name, k) {
        let k = choose|k: int| is_first_with_name(devices, current.name, k);
        assert(devices[k].name != current.name);
    }
}

/// Over a fixed list of `n` devices without repeated identifiers, the
/// selection advances by one place modulo `n` with every switch, so it
/// returns to where it started after `n` switches.
pub proof fn lemma_selection_cycles(devices: Seq<DeviceSpec>, start: int, calls: nat)
    requires
        distinct_ids(devices),
        0 <= start < devices.len(),
    ensures
        index_after(devices, start, calls) == (start + calls) % (devices.len() as int),
        index_after(devices, start, devices.len()) == start,
{
    let n = devices.len() as int;
    lemma_index_after(devices, start, calls);
    lemma_index_after(devices, start, devices.len());
    assert((start + n) % n == start) by (nonlinear_arith)
        requires
            0 <= start < n,
    ;
}

proof fn lemma_index_after(devices: Seq<DeviceSpec>, start: int, calls: nat)
    requires
        distinct_ids(devices),
        0 <= start < devices.len(),
    ensures
        index_after(devices, start, calls) == (start + calls) % (devices.len() as int),
    decreases calls,
{
    let n = devices.len() as int;
    if calls == 0 {
        assert(start % n == start) by (nonlinear_arith)
            requires
                0 <= start < n,
        ;
    } else {
        let before = index_after(devices, start, (calls - 1) as nat);
        lemma_index_after(devices, start, (calls - 1) as nat);
        assert(0 <= before < n) by (nonlinear_arith)
            requires
                before == (start + calls - 1) % n,
                n > 0,
        ;
        lemma_next_index_advances(devices, before);
        assert(((start + calls - 1) % n + 1) % n == (start + calls) % n) by (nonlinear_arith)
            requires
                n > 0,
        ;
    }
}

/// The first place in `devices` that holds the identifier `id`.
pub fn find_by_id(devices: &Vec<AudioDeviceDescriptor>, id: AudioDeviceID) -> (found: Option<usize>)
    ensures
        match found {
            Some(i) => position_of_id(device_specs(devices@), id) == Some(i as int),
            None => position_of_id(device_specs(devices@), id) is None,
        },
{
    let ghost specs = device_specs(devices@);
    let mut i: usize = 0;
    while i < devices.len()
        invariant
            i <= devices.len(),
            specs == device_specs(devices@),
            forall|j: int| 0 <= j < i ==> (#[trigger] specs[j]).id != id,
        decreases devices.len() - i,
    {
        if devices[i].id == id {
            proof {
                assert(specs[i as int] == devices@[i as int]@);
                lemma_position_of_id(specs, id, i as int);
            }
            return Some(i);
        }
        assert(specs[i as int] == devices@[i as int]@);
        i += 1;
    }
    proof {
        if exists|k: int| is_first_with_id(specs, id, k) {
            let k = choose|k: int| is_first_with_id(specs, id, k);
            assert(specs[k].id != id);
        }
    }
    None
}

/// The first place in `devices` that holds the display name `name`.
pub fn find_by_name(devices: &Vec<AudioDeviceDescriptor>, name: &String) -> (found: Option<usize>)
    ensures
        match found {
            Some(i) => position_of_name(device_specs(devices@), name@) == Some(i as int),
            None => position_of_name(device_specs(devices@), name@) is None,
        },
{
    let ghost specs = device_specs(devices@);
    let mut i: usize = 0;
    while i < devices.len()
        invariant
            i <= devices.len(),
            specs == device_specs(devices@),
            forall|j: int| 0 <= j < i ==> (#[trigger] specs[j]).name != name@,
        decreases devices.len() - i,
    {
        if devices[i].name == *name {
            proof {
                assert(specs[i as int] == devices@[i as int]@);
                lemma_position_of_name(specs, name@, i as int);
            }
            return Some(i);
        }
        assert(specs[i as int] == devices@[i as int]@);
        i += 1;
    }
    proof {
        if exists|k: int| is_first_with_name(specs, name@, k) {
            let k = choose|k: int| is_first_with_name(specs, name@, k);
            assert(specs[k].name != name@);
        }
    }
    None
}

/// The place in `devices` that a switch away from `current` selects.
pub fn next_device_index(
    devices: &Vec<AudioDeviceDescriptor>,
    current: Option<&AudioDeviceDescriptor>,
) -> (next: Option<usize>)
    ensures
        match next {
            Some(i) => i < devices.len() && next_index(
                device_specs(devices@),
                match current {
                    Some(d) => Some(d@),
                    None => None,
                },
            ) == Some(i as int),
            None => devices.len() == 0,
        },
{
    let count: usize = devices.len();
    if count == 0 {
        return None;
    }
    let located: Option<usize> = match current {
        Some(device) => match find_by_id(devices, device.id) {
            Some(i) => Some(i),
            None => find_by_name(devices, &device.name),
        },
        None => None,
    };
    match located {
        Some(i) => {
            proof {
                let specs = device_specs(devices@);
                assert(locate(specs, current.unwrap()@) == Some(i as int));
                assert(i < count) by {
                    if position_of_id(specs, current.unwrap()@.id) is Some {
                        assert(is_first_with_id(specs, current.unwrap()@.id, i as int));
                    } else {
                        assert(is_first_with_name(specs, current.unwrap()@.name, i as int));
                    }
                }
            }
            assert((i + 1) % (count as int) == if i + 1 == count {
                0int
            } else {
                i + 1
            }) by (nonlinear_arith)
                requires
                    0 <= i < count,
            ;
            if i + 1 == count {
                Some(0)
            } else {
                Some(i + 1)
            }
        },
        None => Some(0),
    }
}

} // verus!
