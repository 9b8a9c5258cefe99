use coreaudio_volctl::device::{
    volume_scalar, AudioOutputDevice, MAX_PERCENT, SCALAR_ONE, SCALAR_PER_PERCENT,
};
use coreaudio_volctl::discovery::DiscoveryScan;
use coreaudio_volctl::error::{check_status, AudioError};
use coreaudio_volctl::property::{
    Property, PropertyAddress, ELEMENT_MASTER, SCOPE_GLOBAL, SCOPE_OUTPUT,
    SELECTOR_DEFAULT_OUTPUT_DEVICE, SELECTOR_MUTE, SELECTOR_VOLUME_SCALAR,
};

/// Drives one discovery scan against a simulated device: `pattern[e]` says
/// whether element `e` has the volume property; elements past the pattern
/// are absent. Returns the finished scan and how many probes it made.
fn drive_scan(pattern: &[bool]) -> (DiscoveryScan, u32) {
    let mut scan = DiscoveryScan::new();
    let mut probes: u32 = 0;
    let mut element: usize = 0;
    while !scan.is_done() {
        let present = element < pattern.len() && pattern[element];
        scan.record(present);
        probes += 1;
        element += 1;
    }
    (scan, probes)
}

fn device_from_pattern(device_id: u32, pattern: &[bool]) -> AudioOutputDevice {
    let (scan, _) = drive_scan(pattern);
    AudioOutputDevice::bind(device_id, scan)
}

#[test]
fn discovery_skips_single_miss() {
    // Elements 0, 2, 3 exist and element 1 is missing: one miss out of the
    // first four probes does not end the scan, so all three channels are
    // found before the third miss stops it.
    let (scan, probes) = drive_scan(&[true, false, true, true]);
    let dev = AudioOutputDevice::bind(9, scan);
    assert_eq!(dev.channel_count(), 3);
    assert_eq!(dev.channel_at(0), 0);
    assert_eq!(dev.channel_at(1), 2);
    assert_eq!(dev.channel_at(2), 3);
    // misses at elements 1, 4, 5
    assert_eq!(probes, 6);
}

#[test]
fn discovery_probe_count_bounded() {
    // A device with two contiguous channels costs channel count + 3 probes.
    let (scan, probes) = drive_scan(&[true, true]);
    assert_eq!(probes, 2 + 3);
    let dev = AudioOutputDevice::bind(1, scan);
    assert_eq!(dev.channel_count(), 2);
    // ascending, no duplicates
    assert!(dev.channel_at(0) < dev.channel_at(1));
}

#[test]
fn discovery_empty_device() {
    let (scan, probes) = drive_scan(&[]);
    assert_eq!(probes, 3);
    let dev = AudioOutputDevice::bind(1, scan);
    assert_eq!(dev.channel_count(), 0);
}

#[test]
fn discovery_probe_addresses_walk_elements() {
    let mut scan = DiscoveryScan::new();
    let a0 = scan.probe_address();
    assert_eq!(a0.selector, SELECTOR_VOLUME_SCALAR);
    assert_eq!(a0.scope, SCOPE_OUTPUT);
    assert_eq!(a0.element, 0);
    scan.record(true);
    let a1 = scan.probe_address();
    assert_eq!(a1.element, 1);
    scan.record(false);
    assert_eq!(scan.probe_address().element, 2);
}

#[test]
fn get_volume_no_channels_is_error() {
    let dev = device_from_pattern(1, &[]);
    assert_eq!(dev.get_volume(&vec![]), Err(AudioError::NoChannels));
}

#[test]
fn volume_round_trip_exact() {
    let dev = device_from_pattern(1, &[true, true]);
    let requests = dev.set_volume_requests(37);
    assert_eq!(requests.len(), 2);
    let mut scalars: Vec<u32> = Vec::new();
    for r in &requests {
        assert_eq!(r.address.selector, SELECTOR_VOLUME_SCALAR);
        assert_eq!(r.value, 37 * SCALAR_PER_PERCENT);
        scalars.push(r.value);
    }
    assert_eq!(dev.get_volume(&scalars), Ok(37));
}

#[test]
fn volume_round_trip_within_one_percent() {
    let dev = device_from_pattern(1, &[true, true]);
    let p = 37 * SCALAR_PER_PERCENT;
    // both channels read back just under one percent-step low: one percent off
    assert_eq!(dev.get_volume(&vec![p - 9_999, p - 9_999]), Ok(36));
    // symmetric jitter cancels out
    assert_eq!(dev.get_volume(&vec![p - 1, p + 1]), Ok(37));
}

#[test]
fn set_volume_clamps_high() {
    let dev = device_from_pattern(1, &[true, true, true]);
    assert_eq!(dev.set_volume_requests(150), dev.set_volume_requests(100));
    assert_eq!(dev.set_volume_requests(255), dev.set_volume_requests(MAX_PERCENT));
}

#[test]
fn set_volume_zero_is_minimum() {
    let dev = device_from_pattern(1, &[true, true]);
    let requests = dev.set_volume_requests(0);
    let mut scalars: Vec<u32> = Vec::new();
    for r in &requests {
        assert_eq!(r.value, 0);
        scalars.push(r.value);
    }
    assert_eq!(dev.get_volume(&scalars), Ok(0));
}

#[test]
fn set_volume_request_addresses() {
    let dev = device_from_pattern(1, &[true, false, true, true]);
    let requests = dev.set_volume_requests(50);
    assert_eq!(requests.len(), 3);
    let elements: Vec<u32> = requests.iter().map(|r| r.address.element).collect();
    assert_eq!(elements, vec![0, 2, 3]);
    for r in &requests {
        assert_eq!(r.address.selector, SELECTOR_VOLUME_SCALAR);
        assert_eq!(r.address.scope, SCOPE_OUTPUT);
    }
}

#[test]
fn volume_scalar_values() {
    assert_eq!(volume_scalar(0), 0);
    assert_eq!(volume_scalar(1), SCALAR_PER_PERCENT);
    assert_eq!(volume_scalar(100), SCALAR_ONE);
    assert_eq!(volume_scalar(200), SCALAR_ONE);
}

#[test]
fn average_truncates() {
    let dev = device_from_pattern(1, &[true, true]);
    // one channel at full volume, one silent: 50 exactly
    assert_eq!(dev.get_volume(&vec![SCALAR_ONE, 0]), Ok(50));
    // just below full volume truncates down
    let one = device_from_pattern(1, &[true]);
    assert_eq!(one.get_volume(&vec![SCALAR_ONE - 1]), Ok(99));
    assert_eq!(one.get_volume(&vec![SCALAR_ONE]), Ok(100));
}

#[test]
fn mute_round_trip() {
    let dev = device_from_pattern(1, &[true, true]);
    let on = dev.set_mute_requests(true);
    assert_eq!(on.len(), 2);
    for r in &on {
        assert_eq!(r.address.selector, SELECTOR_MUTE);
        assert_eq!(r.value, 1);
    }
    assert!(dev.is_muted(on[0].value));
    let off = dev.set_mute_requests(false);
    for r in &off {
        assert_eq!(r.value, 0);
    }
    assert!(!dev.is_muted(off[0].value));
}

#[test]
fn mute_fallback_rescues_master() {
    // Per-channel writes on channels 0 and 1 both fail, but the master-scope
    // fallback is offered, and a zero status from it means overall success.
    let dev = device_from_pattern(1, &[true, true]);
    let fallback = dev.set_mute_fallback(true, &vec![-4, -4]);
    let req = fallback.expect("a master-scope fallback write");
    assert_eq!(req.address.selector, SELECTOR_MUTE);
    assert_eq!(req.address.element, ELEMENT_MASTER);
    assert_eq!(req.value, 1);
    assert_eq!(check_status(0), Ok(()));
}

#[test]
fn mute_no_fallback_when_all_succeed() {
    let dev = device_from_pattern(1, &[true, true]);
    assert_eq!(dev.set_mute_fallback(true, &vec![0, 0]), None);
}

#[test]
fn mute_fallback_on_partial_failure() {
    let dev = device_from_pattern(1, &[true, true]);
    let fallback = dev.set_mute_fallback(false, &vec![0, 7]);
    let req = fallback.expect("a master-scope fallback write");
    assert_eq!(req.value, 0);
}

#[test]
fn fresh_controller_is_default() {
    let (scan, _) = drive_scan(&[true]);
    let dev = AudioOutputDevice::bind(42, scan);
    assert_eq!(dev.device_id(), 42);
    assert!(dev.is_default(42));
    assert!(!dev.is_default(7));
}

#[test]
fn check_status_passthrough() {
    assert_eq!(check_status(0), Ok(()));
    assert_eq!(check_status(-50), Err(AudioError::Platform(-50)));
    assert_eq!(check_status(1), Err(AudioError::Platform(1)));
}

#[test]
fn property_addresses() {
    let vol = Property::Volume.address();
    assert_eq!(
        vol,
        PropertyAddress { selector: SELECTOR_VOLUME_SCALAR, scope: SCOPE_OUTPUT, element: 0 }
    );
    let mute = Property::Mute.address();
    assert_eq!(
        mute,
        PropertyAddress { selector: SELECTOR_MUTE, scope: SCOPE_OUTPUT, element: 0 }
    );
    let def = Property::GetDefaultOutputDevice.address();
    assert_eq!(
        def,
        PropertyAddress {
            selector: SELECTOR_DEFAULT_OUTPUT_DEVICE,
            scope: SCOPE_GLOBAL,
            element: ELEMENT_MASTER,
        }
    );
    let custom = PropertyAddress { selector: 11, scope: 22, element: 33 };
    assert_eq!(Property::Custom(custom).address(), custom);
    assert_eq!(custom.with_element(5).element, 5);
    assert_eq!(custom.with_element(5).selector, 11);
}

#[test]
fn read_addresses() {
    let dev = device_from_pattern(1, &[true, false, true]);
    let a = dev.volume_read_address(1);
    assert_eq!(a.selector, SELECTOR_VOLUME_SCALAR);
    assert_eq!(a.element, 2);
    let m = dev.mute_read_address();
    assert_eq!(m.selector, SELECTOR_MUTE);
    assert_eq!(m.element, ELEMENT_MASTER);
}
