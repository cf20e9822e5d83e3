use doca::device::{Dev, DevInfoList, DevInfoRepList};

const SUCCESS: u32 = 0;
const NO_MEMORY: u32 = 7;

#[test]
fn list_length_matches_reported_count() {
    let entries = vec![0x1000u64, 0x2000, 0x3000];
    let list = DevInfoList::new(SUCCESS, 0x500, entries.clone()).unwrap();
    assert_eq!(list.len(), entries.len());
    for (i, raw) in entries.iter().enumerate() {
        let d = list.get(i);
        assert_ne!(d.raw(), 0);
        assert_eq!(d.raw(), *raw);
    }
}

#[test]
fn empty_enumeration_yields_valid_destructible_list() {
    let list = DevInfoList::new(SUCCESS, 0x500, Vec::new()).unwrap();
    assert_eq!(list.len(), 0);
    assert_eq!(list.destroy(), 0x500);
}

#[test]
fn failed_enumeration_propagates_the_code() {
    let e = DevInfoList::new(NO_MEMORY, 0, Vec::new()).unwrap_err();
    assert_eq!(e.code(), NO_MEMORY);
    assert_eq!(e.description(), "memory allocation failure");
}

#[test]
fn list_destroy_returns_the_array_handle_once() {
    let list = DevInfoList::new(SUCCESS, 0x77aa, vec![0x1u64]).unwrap();
    assert_eq!(list.destroy(), 0x77aa);
}

#[test]
fn open_device_handle_is_nonnull() {
    let list = DevInfoList::new(SUCCESS, 0x500, vec![0x1000u64]).unwrap();
    let info = list.get(0);
    let dev = Dev::new(&info, SUCCESS, 0xbeef).unwrap();
    assert_ne!(dev.raw(), 0);
    assert_eq!(dev.raw(), 0xbeef);
    assert_eq!(dev.close(), 0xbeef);
    assert_eq!(list.destroy(), 0x500);
}

#[test]
fn failed_open_propagates_the_code() {
    let list = DevInfoList::new(SUCCESS, 0x500, vec![0x1000u64]).unwrap();
    let info = list.get(0);
    let e = Dev::new(&info, 18, 0).unwrap_err();
    assert_eq!(e.code(), 18);
    assert_eq!(e.description(), "bad state");
}

#[test]
fn device_info_accessor_is_optional() {
    let list = DevInfoList::new(SUCCESS, 0x500, vec![0x1000u64]).unwrap();
    let dev = Dev::new(&list.get(0), SUCCESS, 0xbeef).unwrap();
    assert!(dev.info(0).is_none());
    let back = dev.info(0x1000).unwrap();
    assert_eq!(back.raw(), 0x1000);
}

#[test]
fn representor_list_has_the_reported_entries() {
    let list = DevInfoList::new(SUCCESS, 0x500, vec![0x1000u64]).unwrap();
    let dev = Dev::new(&list.get(0), SUCCESS, 0xbeef).unwrap();
    let reps = DevInfoRepList::new(&dev, 0x3, SUCCESS, 0x900, vec![0xaa00u64, 0xbb00]).unwrap();
    assert_eq!(reps.len(), 2);
    assert_eq!(reps.get(0).raw(), 0xaa00);
    assert_eq!(reps.get(1).raw(), 0xbb00);
    assert_eq!(reps.destroy(), 0x900);
}

#[test]
fn empty_representor_enumeration_is_valid() {
    let list = DevInfoList::new(SUCCESS, 0x500, vec![0x1000u64]).unwrap();
    let dev = Dev::new(&list.get(0), SUCCESS, 0xbeef).unwrap();
    let reps = DevInfoRepList::new(&dev, 0, SUCCESS, 0x900, Vec::new()).unwrap();
    assert_eq!(reps.len(), 0);
    assert_eq!(reps.destroy(), 0x900);
}

#[test]
fn failed_representor_enumeration_propagates_the_code() {
    let list = DevInfoList::new(SUCCESS, 0x500, vec![0x1000u64]).unwrap();
    let dev = Dev::new(&list.get(0), SUCCESS, 0xbeef).unwrap();
    let e = DevInfoRepList::new(&dev, 0x3, 16, 0, Vec::new()).unwrap_err();
    assert_eq!(e.code(), 16);
    assert_eq!(e.description(), "entry not found");
}
