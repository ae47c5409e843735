use blight::{BlibError, Device, Entry, FileState, BLDIR};
use std::io::{Error, ErrorKind};

const TESTDIR: &str = "testbldir";

fn content(text: &str) -> FileState {
    FileState::Content(text.to_string())
}

fn entry(name: &str, brightness: &str, max: &str) -> Entry {
    Entry { name: name.to_string(), brightness: content(brightness), max_brightness: content(max) }
}

fn test_device(name: &str) -> Device {
    Device::from_parts(name.into(), 50, 100, format!("{TESTDIR}/{name}"))
}

#[test]
fn writing_value() {
    let d = test_device("generic");
    let r = d.write_value(100).unwrap();
    let res = r.trim();
    assert_eq!("100", res, "Result was {res}");
}

#[test]
fn current_value() {
    let current = Device::get_current(&content("50")).unwrap();
    assert_eq!(current.to_string(), "50");
}

#[test]
fn writing_value_too_large() {
    let d = test_device("generic");
    assert!(matches!(
        d.write_value(101),
        Err(BlibError::ValueTooLarge { given: 101, supported: 100 })
    ));
    assert!(matches!(
        d.write_value(u32::MAX),
        Err(BlibError::ValueTooLarge { given: u32::MAX, supported: 100 })
    ));
    assert_eq!(d.write_value(0).unwrap(), "0");
    assert_eq!(d.write_value(50).unwrap(), "50");
}

#[test]
fn write_failure_names_the_device() {
    let d = test_device("generic");
    assert!(d.written(Ok(())).is_ok());
    match d.written(Err(Error::new(ErrorKind::PermissionDenied, "denied"))) {
        Err(BlibError::WriteNewVal { err, dev }) => {
            assert_eq!(dev, "generic");
            assert_eq!(err.kind(), ErrorKind::PermissionDenied);
        }
        other => panic!("unexpected {other:?}"),
    }
}

#[test]
fn getters() {
    let d = test_device("generic");
    assert_eq!(d.name(), "generic");
    assert_eq!(d.current(), 50);
    assert_eq!(d.max(), 100);
    assert_eq!(d.device_path(), "testbldir/generic");
}

#[test]
fn reading_max_and_current() {
    assert_eq!(Device::get_max(&content("255\n")).unwrap(), 255);
    assert!(matches!(Device::get_max(&content("max")), Err(BlibError::ReadMax)));
    assert!(matches!(Device::get_max(&FileState::Missing), Err(BlibError::ReadMax)));
    assert!(matches!(Device::get_max(&FileState::Unreadable), Err(BlibError::ReadMax)));
    assert_eq!(Device::get_current(&content(" 3 ")).unwrap(), 3);
    assert!(matches!(Device::get_current(&content("-3")), Err(BlibError::ReadCurrent)));
    assert!(matches!(Device::get_current(&FileState::Missing), Err(BlibError::ReadCurrent)));
    assert!(matches!(Device::get_current(&FileState::Unreadable), Err(BlibError::ReadCurrent)));
}

#[test]
fn loading_an_entry() {
    let d = Device::load(&entry("intel_backlight", "120\n", "937\n")).unwrap();
    assert_eq!(d.name(), "intel_backlight");
    assert_eq!(d.current(), 120);
    assert_eq!(d.max(), 937);
    assert_eq!(d.device_path(), "/sys/class/backlight/intel_backlight");
    assert_eq!(d.device_path(), format!("{BLDIR}/intel_backlight"));
}

#[test]
fn loading_reads_the_brightness_first() {
    assert!(matches!(Device::load(&entry("a", "x", "y")), Err(BlibError::ReadCurrent)));
    assert!(matches!(Device::load(&entry("a", "1", "y")), Err(BlibError::ReadMax)));
    assert!(matches!(Device::load(&entry("a", "x", "1")), Err(BlibError::ReadCurrent)));
}

#[test]
fn reloading_replaces_brightness_and_max() {
    let mut d = test_device("generic");
    d.reload(&content("73\n"), &content("100\n"));
    assert_eq!(d.current(), 73);
    assert_eq!(d.max(), 100);
    assert_eq!(d.name(), "generic");
    assert_eq!(d.device_path(), "testbldir/generic");
    d.reload(&content(" 12 "), &content("255\n"));
    assert_eq!(d.current(), 12);
    assert_eq!(d.max(), 255);
    assert_eq!(d.name(), "generic");
    assert_eq!(d.device_path(), "testbldir/generic");
}

#[test]
fn reloaded_max_bounds_the_next_write() {
    let mut d = test_device("generic");
    assert!(matches!(d.write_value(200), Err(BlibError::ValueTooLarge { given: 200, supported: 100 })));
    d.reload(&content("50"), &content("255"));
    assert_eq!(d.write_value(200).unwrap(), "200");
    d.reload(&content("50"), &content("60"));
    assert!(matches!(d.write_value(100), Err(BlibError::ValueTooLarge { given: 100, supported: 60 })));
}

#[test]
fn new_detects_a_device() {
    let list = vec![entry("nvidia_0", "1", "10"), entry("generic", "2", "20"), entry("amdgpu_x", "3", "30")];
    let d = Device::new(None, Ok(list)).unwrap();
    assert_eq!(d.name(), "amdgpu_x");
    assert_eq!(d.current(), 3);
    assert_eq!(d.max(), 30);
    assert_eq!(d.device_path(), "/sys/class/backlight/amdgpu_x");
}

#[test]
fn new_takes_the_named_device() {
    let list = vec![entry("nvidia_0", "1", "10"), entry("generic", "2", "20"), entry("amdgpu_x", "3", "30")];
    let d = Device::new(Some("generic".to_string()), Ok(list)).unwrap();
    assert_eq!(d.name(), "generic");
    assert_eq!(d.current(), 2);
    assert_eq!(d.max(), 20);
}

#[test]
fn new_without_a_device() {
    assert!(matches!(Device::new(None, Ok(vec![])), Err(BlibError::NoDeviceFound)));
    let list = vec![entry("generic", "2", "20")];
    assert!(matches!(Device::new(Some("other".to_string()), Ok(list)), Err(BlibError::NoDeviceFound)));
    let list = vec![Entry {
        name: "generic".to_string(),
        brightness: FileState::Missing,
        max_brightness: content("20"),
    }];
    assert!(matches!(Device::new(Some("generic".to_string()), Ok(list)), Err(BlibError::NoDeviceFound)));
}

#[test]
fn new_hands_on_what_went_wrong() {
    let failed = Device::new(None, Err(Error::new(ErrorKind::NotFound, "gone")));
    match failed {
        Err(BlibError::ReadBlDir(e)) => assert_eq!(e.kind(), ErrorKind::NotFound),
        other => panic!("unexpected {other:?}"),
    }
    let list = vec![Entry {
        name: "generic".to_string(),
        brightness: FileState::Unreadable,
        max_brightness: content("20"),
    }];
    assert!(matches!(Device::new(Some("generic".to_string()), Ok(list)), Err(BlibError::ReadCurrent)));
    let list = vec![Entry {
        name: "generic".to_string(),
        brightness: FileState::Missing,
        max_brightness: content("20"),
    }];
    assert!(matches!(Device::new(None, Ok(list)), Err(BlibError::ReadCurrent)));
    let list = vec![Entry {
        name: "generic".to_string(),
        brightness: content("5"),
        max_brightness: FileState::Missing,
    }];
    assert!(matches!(Device::new(None, Ok(list)), Err(BlibError::ReadMax)));
}
