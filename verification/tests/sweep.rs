use blight::{BlibError, Delay, Device, Sweep};
use std::io::{Error, ErrorKind};

const TESTDIR: &str = "testbldir";

fn test_device(name: &str) -> Device {
    Device::from_parts(name.into(), 50, 100, format!("{TESTDIR}/{name}"))
}

/// Carries a sweep out on a file that is held in memory, and returns what
/// was written, in order.
fn run(sweep: &mut Sweep, file: &mut String) -> Vec<u32> {
    let mut written = Vec::new();
    while let Some(v) = sweep.step(Ok(())).unwrap() {
        *file = v.to_string();
        written.push(v);
        assert!(written.len() <= 1_000);
    }
    written
}

fn reload(d: &mut Device, file: &str) {
    d.reload(
        &blight::FileState::Content(file.to_string()),
        &blight::FileState::Content("100".to_string()),
    );
}

#[test]
fn sweeping() {
    let mut file = String::from("50");
    let mut d = test_device("generic");
    run(&mut d.sweep_write(100, Delay::default()), &mut file);
    reload(&mut d, &file);
    assert_eq!(d.current(), 100);
    run(&mut d.sweep_write(0, Delay::default()), &mut file);
    reload(&mut d, &file);
    assert_eq!(d.current(), 0);
}

#[test]
fn sweep_bounds() {
    let mut file = String::from("50");
    let mut d = test_device("generic");
    file = d.write_value(0).unwrap();
    reload(&mut d, &file);
    let written = run(&mut d.sweep_write(u32::MAX, Delay::default()), &mut file);
    assert!(written.is_empty());
    reload(&mut d, &file);
    assert_eq!(d.current(), 0);
}

#[test]
fn sweep_writes_each_step() {
    let d = Device::from_parts("d".into(), 10, 1000, String::new());
    let mut file = String::new();
    let written = run(&mut d.sweep_write(45, Delay::default()), &mut file);
    assert_eq!(written, vec![20, 30, 40, 45]);
    let d = Device::from_parts("d".into(), 45, 1000, String::new());
    let written = run(&mut d.sweep_write(10, Delay::default()), &mut file);
    assert_eq!(written, vec![35, 25, 15, 10]);
    assert_eq!(file, "10");
}

#[test]
fn sweep_down_lands_on_the_target_near_zero() {
    let d = Device::from_parts("d".into(), 5, 1000, String::new());
    let mut file = String::new();
    let written = run(&mut d.sweep_write(3, Delay::default()), &mut file);
    assert_eq!(written, vec![3]);
    let written = run(&mut d.sweep_write(0, Delay::default()), &mut file);
    assert_eq!(written, vec![0]);
}

#[test]
fn sweep_to_where_it_stands_writes_nothing() {
    let d = test_device("generic");
    let mut sweep = d.sweep_write(50, Delay::default());
    assert_eq!(sweep.step(Ok(())).unwrap(), None);
    assert_eq!(sweep.current(), 50);
    assert_eq!(sweep.target(), 50);
}

#[test]
fn sweep_above_max_writes_nothing() {
    let d = test_device("generic");
    let mut sweep = d.sweep_write(101, Delay::default());
    assert_eq!(sweep.step(Ok(())).unwrap(), None);
    assert_eq!(sweep.current(), 50);
}

#[test]
fn sweep_full_range_takes_a_hundred_writes() {
    let d = Device::from_parts("d".into(), 0, 25500, String::new());
    let mut file = String::new();
    let written = run(&mut d.sweep_write(25500, Delay::default()), &mut file);
    assert_eq!(written.len(), 100);
    assert_eq!(written[0], 255);
    assert_eq!(written[99], 25500);
    let d = Device::from_parts("d".into(), 0, u32::MAX, String::new());
    let written = run(&mut d.sweep_write(u32::MAX, Delay::default()), &mut file);
    assert_eq!(written.len(), 101);
    assert_eq!(*written.last().unwrap(), u32::MAX);
}

#[test]
fn sweep_reaches_every_target() {
    for max in [100u32, 101, 199, 250, 1000] {
        for current in [0u32, 1, max / 2, max - 1, max, max + 7] {
            for target in [0u32, 1, max / 3, max - 1, max] {
                let d = Device::from_parts("d".into(), current, max, String::new());
                let mut file = current.to_string();
                let written = run(&mut d.sweep_write(target, Delay::default()), &mut file);
                assert_eq!(file, target.to_string());
                let distance = if current > target { current - target } else { target - current };
                assert!(written.len() as u32 <= distance);
            }
        }
    }
}

#[test]
fn sweep_stops_on_a_failed_write() {
    let d = test_device("generic");
    let mut sweep = d.sweep_write(60, Delay::default());
    assert_eq!(sweep.step(Ok(())).unwrap(), Some(51));
    assert_eq!(sweep.step(Ok(())).unwrap(), Some(52));
    match sweep.step(Err(Error::new(ErrorKind::Other, "full"))) {
        Err(BlibError::SweepError(e)) => assert_eq!(e.kind(), ErrorKind::Other),
        other => panic!("unexpected {other:?}"),
    }
    assert_eq!(sweep.current(), 52);
}

#[test]
fn sweep_keeps_its_delay() {
    let d = test_device("generic");
    let sweep = d.sweep_write(60, Delay::from_millis(40));
    assert_eq!(sweep.delay().secs(), 0);
    assert_eq!(sweep.delay().subsec_nanos(), 40_000_000);
}

#[test]
fn delays() {
    let d = Delay::default();
    assert_eq!((d.secs(), d.subsec_nanos()), (0, 25_000_000));
    let d = Delay::from_millis(2_500);
    assert_eq!((d.secs(), d.subsec_nanos()), (2, 500_000_000));
    let d = Delay::from_millis(u64::MAX);
    assert_eq!((d.secs(), d.subsec_nanos()), (u64::MAX / 1000, 615_000_000));
    assert_eq!(std::time::Duration::new(d.secs(), d.subsec_nanos()), std::time::Duration::from_millis(u64::MAX));
}

#[test]
fn sweep_stalls_where_a_step_is_nothing() {
    let d = Device::from_parts("d".into(), 5, 50, String::new());
    let mut sweep = d.sweep_write(10, Delay::default());
    for _ in 0..20 {
        assert_eq!(sweep.step(Ok(())).unwrap(), Some(5));
    }
    assert_eq!(sweep.current(), 5);
    let mut sweep = d.sweep_write(5, Delay::default());
    assert_eq!(sweep.step(Ok(())).unwrap(), None);
}
