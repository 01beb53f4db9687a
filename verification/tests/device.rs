use projectm_sdl::device::{find_by_id, find_by_name, next_device_index, AudioDeviceDescriptor};

fn dev(id: u32, name: &str) -> AudioDeviceDescriptor {
    AudioDeviceDescriptor { id, name: name.to_string() }
}

#[test]
fn find_by_id_gives_first_place() {
    let devices = vec![dev(4, "a"), dev(7, "b"), dev(4, "c"), dev(9, "d")];
    assert_eq!(find_by_id(&devices, 4), Some(0));
    assert_eq!(find_by_id(&devices, 7), Some(1));
    assert_eq!(find_by_id(&devices, 9), Some(3));
    assert_eq!(find_by_id(&devices, 5), None);
    assert_eq!(find_by_id(&Vec::new(), 4), None);
}

#[test]
fn find_by_name_gives_first_place() {
    let devices = vec![dev(1, "Mic"), dev(2, "Line In"), dev(3, "Mic")];
    assert_eq!(find_by_name(&devices, &"Mic".to_string()), Some(0));
    assert_eq!(find_by_name(&devices, &"Line In".to_string()), Some(1));
    assert_eq!(find_by_name(&devices, &"mic".to_string()), None);
    assert_eq!(find_by_name(&devices, &"".to_string()), None);
    assert_eq!(find_by_name(&Vec::new(), &"Mic".to_string()), None);
}

#[test]
fn next_index_of_empty_list_is_none() {
    assert_eq!(next_device_index(&Vec::new(), None), None);
    assert_eq!(next_device_index(&Vec::new(), Some(&dev(1, "Mic"))), None);
}

#[test]
fn next_index_without_current_device_is_head() {
    let devices = vec![dev(1, "a"), dev(2, "b")];
    assert_eq!(next_device_index(&devices, None), Some(0));
}

#[test]
fn next_index_advances_and_wraps() {
    let devices = vec![dev(1, "a"), dev(2, "b"), dev(3, "c")];
    assert_eq!(next_device_index(&devices, Some(&devices[0])), Some(1));
    assert_eq!(next_device_index(&devices, Some(&devices[1])), Some(2));
    assert_eq!(next_device_index(&devices, Some(&devices[2])), Some(0));
}

#[test]
fn next_index_of_single_device_is_itself() {
    let devices = vec![dev(1, "a")];
    assert_eq!(next_device_index(&devices, Some(&devices[0])), Some(0));
    assert_eq!(next_device_index(&devices, Some(&dev(8, "z"))), Some(0));
}

#[test]
fn next_index_uses_name_only_when_id_is_missing() {
    let devices = vec![dev(1, "a"), dev(2, "b"), dev(3, "c")];
    assert_eq!(next_device_index(&devices, Some(&dev(50, "b"))), Some(2));
    assert_eq!(next_device_index(&devices, Some(&dev(1, "b"))), Some(1));
    assert_eq!(next_device_index(&devices, Some(&dev(50, "zz"))), Some(0));
}

#[test]
fn repeated_identifiers_break_the_cycle() {
    let devices = vec![dev(1, "a"), dev(1, "b")];
    assert_eq!(next_device_index(&devices, Some(&devices[0])), Some(1));
    assert_eq!(next_device_index(&devices, Some(&devices[1])), Some(1));
}
