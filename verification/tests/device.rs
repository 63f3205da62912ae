use water_monitor::CacheGuard;
use water_monitor::EndpointInfo;
use water_monitor::OK_BIT;
use water_monitor::Params;
use water_monitor::REFRESH_INTERVAL;
use water_monitor::Readings;
use water_monitor::SensorError;
use water_monitor::bytes_to_float_bits;
use water_monitor::locate;
use water_monitor::readings_request;

fn channel_field(ok: bool, value: f32) -> [u8; 5] {
    let bits = value.to_bits().to_be_bytes();
    let marker = if ok { OK_BIT } else { 0 };
    [marker, bits[0], bits[1], bits[2], bits[3]]
}

fn build_buffer(fields: [[u8; 5]; 4]) -> Vec<u8> {
    let mut buf = Vec::new();
    for f in fields {
        buf.extend_from_slice(&f);
    }
    buf
}

#[test]
fn readings_example_alternating_validity() {
    // Validity [OK, not-OK, OK, not-OK] with measurements 25.3 and 7.1.
    let buf = build_buffer([
        channel_field(true, 25.3),
        channel_field(false, 1.0),
        channel_field(true, 7.1),
        channel_field(false, 2.0),
    ]);
    let r = Readings::from_bytes(&buf);
    assert_eq!(r.T, Ok(25.3f32.to_bits()));
    assert_eq!(r.pH, Err(SensorError::BadMeasurement));
    assert_eq!(r.ORP, Ok(7.1f32.to_bits()));
    assert_eq!(r.ec, Err(SensorError::BadMeasurement));
    assert_eq!(f32::from_bits(r.T.unwrap()), 25.3);
    assert_eq!(f32::from_bits(r.ORP.unwrap()), 7.1);
}

#[test]
fn readings_all_sixteen_validity_patterns() {
    for mask in 0u32..16 {
        let values = [4.25f32, -0.5, 1000.0, 0.015625];
        let fields = [
            channel_field(mask & 1 != 0, values[0]),
            channel_field(mask & 2 != 0, values[1]),
            channel_field(mask & 4 != 0, values[2]),
            channel_field(mask & 8 != 0, values[3]),
        ];
        let r = Readings::from_bytes(&build_buffer(fields));
        let channels = [r.T, r.pH, r.ORP, r.ec];
        for (i, ch) in channels.iter().enumerate() {
            if mask & (1 << i) != 0 {
                assert_eq!(*ch, Ok(values[i].to_bits()));
            } else {
                assert_eq!(*ch, Err(SensorError::BadMeasurement));
            }
        }
    }
}

#[test]
fn readings_validity_needs_exact_marker() {
    // Any byte other than the OK marker, not only zero, voids the channel.
    let mut buf = build_buffer([
        channel_field(true, 1.5),
        channel_field(true, 1.5),
        channel_field(true, 1.5),
        channel_field(true, 1.5),
    ]);
    buf[5] = OK_BIT.wrapping_add(1);
    buf[10] = 255;
    let r = Readings::from_bytes(&buf);
    assert_eq!(r.T, Ok(1.5f32.to_bits()));
    assert_eq!(r.pH, Err(SensorError::BadMeasurement));
    assert_eq!(r.ORP, Err(SensorError::BadMeasurement));
    assert_eq!(r.ec, Ok(1.5f32.to_bits()));
}

#[test]
fn readings_default_is_not_connected() {
    let r = Readings::default();
    assert_eq!(r.T, Err(SensorError::NotConnected));
    assert_eq!(r.pH, Err(SensorError::NotConnected));
    assert_eq!(r.ORP, Err(SensorError::NotConnected));
    assert_eq!(r.ec, Err(SensorError::NotConnected));
}

#[test]
fn float_bits_round_trip_big_endian() {
    let x = -273.15f32;
    let bytes = x.to_bits().to_be_bytes();
    assert_eq!(bytes_to_float_bits(&bytes), x.to_bits());
    assert_eq!(f32::from_bits(bytes_to_float_bits(&bytes)), x);
    assert_eq!(bytes_to_float_bits(&[0x01, 0x02, 0x03, 0x04]), 0x01020304);
}

#[test]
fn request_frame_bytes() {
    assert_eq!(readings_request(), vec![100, 150, 200]);
}

#[test]
fn params_from_bytes_reads_sequential_words() {
    let mut buf = Vec::new();
    for i in 0..19u32 {
        let v = (i as f32) * 0.75 - 3.0;
        buf.extend_from_slice(&v.to_bits().to_be_bytes());
    }
    let p = Params::from_bytes(&buf);
    assert_eq!(f32::from_bits(p.s_x), -3.0);
    assert_eq!(f32::from_bits(p.s_y), -2.25);
    assert_eq!(f32::from_bits(p.s_yaw), 1.5);
    assert_eq!(f32::from_bits(p.a_yaw), 10.5);
}

fn endpoint(name: &str, serial: Option<&str>) -> EndpointInfo {
    EndpointInfo { port_name: name.to_string(), usb_serial: serial.map(|s| s.to_string()) }
}

#[test]
fn locate_finds_the_single_match() {
    let ports = vec![
        endpoint("/dev/ttyS0", None),
        endpoint("/dev/ttyUSB0", Some("OTHER")),
        endpoint("/dev/ttyUSB1", Some("WM")),
        endpoint("/dev/ttyUSB2", Some("WM2")),
    ];
    assert_eq!(locate(&ports), Some(2));
    assert_eq!(ports[2].port_name, "/dev/ttyUSB1");
}

#[test]
fn locate_returns_first_of_several_matches() {
    let ports = vec![
        endpoint("/dev/ttyUSB0", Some("WM")),
        endpoint("/dev/ttyUSB1", Some("WM")),
    ];
    assert_eq!(locate(&ports), Some(0));
}

#[test]
fn locate_reports_no_match() {
    assert_eq!(locate(&vec![]), None);
    let ports = vec![
        endpoint("/dev/ttyS0", None),
        endpoint("/dev/ttyUSB0", Some("wm")),
        endpoint("/dev/ttyUSB1", Some("W")),
    ];
    assert_eq!(locate(&ports), None);
}

fn sample_readings(t: f32) -> Readings {
    Readings {
        T: Ok(t.to_bits()),
        pH: Ok(7.0f32.to_bits()),
        ORP: Err(SensorError::BusFault),
        ec: Ok(0.5f32.to_bits()),
    }
}

#[test]
fn cache_serves_default_before_first_success() {
    let g = CacheGuard::new(1_000);
    assert_eq!(g.current().T, Err(SensorError::NotConnected));
    assert!(!g.needs_refresh(1_000 + REFRESH_INTERVAL - 1));
    assert!(g.needs_refresh(1_000 + REFRESH_INTERVAL));
}

#[test]
fn cache_gates_two_close_calls_to_one_round_trip() {
    let mut g = CacheGuard::new(0);
    // First call, long past the interval: stale, so one round-trip runs.
    assert!(g.needs_refresh(1_000));
    let got = g.apply_refresh(1_000, Some(sample_readings(21.0)));
    assert_eq!(got.T, Ok(21.0f32.to_bits()));
    // Second call 50 ms later: fresh, no hardware access.
    assert!(!g.needs_refresh(1_050));
    assert_eq!(g.current().T, Ok(21.0f32.to_bits()));
    // A call 250 ms after the refresh is stale again: a second round-trip.
    assert!(g.needs_refresh(1_250));
}

#[test]
fn cache_failed_refresh_keeps_value_and_clock() {
    let mut g = CacheGuard::new(0);
    g.apply_refresh(500, Some(sample_readings(18.5)));
    assert!(g.needs_refresh(800));
    // The refresh attempt fails: the old value is served unchanged.
    let got = g.apply_refresh(800, None);
    assert_eq!(got, g.current());
    assert_eq!(got.T, Ok(18.5f32.to_bits()));
    // The staleness clock still reads from the last success, so the guard
    // is still stale and the next call may retry at once.
    assert!(g.needs_refresh(801));
}
