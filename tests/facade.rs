use urg_py::cursor::UrgPayloadIterator;
use urg_py::error::{ErrorKind, UrgError};
use urg_py::handle::{Endpoint, IpAddress, MultiScanRequest, ScanRequest, Urg, INVALID_ADDRESS};
use urg_py::records::{
    RawSensorParams, RawStatusInfo, RawVersionInfo, UrgPayload, UrgSensorParams, UrgStatusInfo,
    UrgVersionInfo,
};
use urg_py::text::decode_field;

fn handle() -> Urg {
    let endpoint = Urg::endpoint(Some(IpAddress::V4 { octets: [192, 168, 0, 10] }), 10940).unwrap();
    Urg::open(endpoint, Ok(())).unwrap()
}

fn raw_version() -> RawVersionInfo {
    RawVersionInfo {
        vendor_info: b"Hokuyo Automatic Co., Ltd.".to_vec(),
        product_info: b"UST-10LX".to_vec(),
        firmware_version: b"1.2.3".to_vec(),
        protocol_version: b"SCIP 2.2".to_vec(),
        serial_number: b"H1234567".to_vec(),
    }
}

fn raw_params() -> RawSensorParams {
    RawSensorParams {
        sensor_model: b"UST-10LX".to_vec(),
        min_distance_mm: 20,
        max_distance_mm: 30000,
        angular_resolution_bits: 0.25f32.to_bits(),
        start_step: 0,
        end_step: 1080,
        front_dir_step: 540,
        std_scan_speed_rpm: 2400,
    }
}

fn raw_status() -> RawStatusInfo {
    RawStatusInfo {
        sensor_model: b"UST-10LX".to_vec(),
        laser_status: b"ON".to_vec(),
        scanning_speed_rpm: 2400,
        measurement_mode: b"Normal".to_vec(),
        communication_speed: b"100M".to_vec(),
        time_stamp: 987654,
        sensor_status: b"Sensor works well.".to_vec(),
    }
}

fn frame(time_stamp: u32, distance: Vec<u32>, intensity: Vec<u32>) -> UrgPayload {
    UrgPayload { time_stamp, distance, intensity }
}

#[test]
fn open_valid_address_succeeds() {
    let address = IpAddress::V6 { segments: [0, 0, 0, 0, 0, 0, 0, 1] };
    let endpoint = Urg::endpoint(Some(address), 10940).unwrap();
    assert_eq!(endpoint.port, 10940);
    let urg = Urg::open(endpoint, Ok(())).unwrap();
    assert_eq!(urg.endpoint.port, 10940);
    assert!(matches!(urg.endpoint.address, IpAddress::V6 { segments } if segments[7] == 1));
}

#[test]
fn open_malformed_address_is_connection_error() {
    let err = Urg::endpoint(None, 10940).unwrap_err();
    assert_eq!(err.kind(), ErrorKind::Connection);
    assert_eq!(err.message(), INVALID_ADDRESS);
}

#[test]
fn open_refused_by_driver_is_connection_error() {
    let endpoint = Urg::endpoint(Some(IpAddress::V4 { octets: [127, 0, 0, 1] }), 1).unwrap();
    let err = Urg::open(endpoint, Err("connection refused".to_string())).unwrap_err();
    assert_eq!(err, UrgError::Connection { message: "connection refused".to_string() });
}

#[test]
fn requests_forward_arguments_unchanged() {
    let urg = handle();
    assert_eq!(
        urg.get_distance(0, 1080, 1),
        ScanRequest { start_step: 0, end_step: 1080, cluster_count: 1, with_intensity: false }
    );
    assert_eq!(
        urg.get_distance_intensity(10, 20, 3),
        ScanRequest { start_step: 10, end_step: 20, cluster_count: 3, with_intensity: true }
    );
    assert_eq!(
        urg.get_distance_multi(1, 2, 3, 4, 5),
        MultiScanRequest {
            scan: ScanRequest { start_step: 1, end_step: 2, cluster_count: 3, with_intensity: false },
            scan_skip_count: 4,
            num_of_scan: 5,
        }
    );
    assert_eq!(
        urg.get_distance_intensity_multi(6, 7, 8, 9, 10),
        MultiScanRequest {
            scan: ScanRequest { start_step: 6, end_step: 7, cluster_count: 8, with_intensity: true },
            scan_skip_count: 9,
            num_of_scan: 10,
        }
    );
}

#[test]
fn decode_field_valid_and_invalid() {
    assert_eq!(decode_field(b"caf\xc3\xa9".to_vec()).unwrap(), "café");
    assert_eq!(decode_field(Vec::new()).unwrap(), "");
    let err = decode_field(b"foo\xFFbar".to_vec()).unwrap_err();
    assert_eq!(err.kind(), ErrorKind::TextDecode);
    assert!(!err.message().is_empty());
}

#[test]
fn version_info_decodes_every_field() {
    let v: UrgVersionInfo = handle().get_version_info(Ok(raw_version())).unwrap();
    assert_eq!(v.vendor_info, "Hokuyo Automatic Co., Ltd.");
    assert_eq!(v.product_info, "UST-10LX");
    assert_eq!(v.firmware_version, "1.2.3");
    assert_eq!(v.protocol_version, "SCIP 2.2");
    assert_eq!(v.serial_number, "H1234567");
}

#[test]
fn version_info_invalid_text_fails_whole_record() {
    let mut raw = raw_version();
    raw.serial_number = vec![0xC3, 0x28];
    let err = handle().get_version_info(Ok(raw)).unwrap_err();
    assert_eq!(err.kind(), ErrorKind::TextDecode);
    let mut raw = raw_version();
    raw.vendor_info = vec![0x80];
    assert_eq!(UrgVersionInfo::try_from(raw).unwrap_err().kind(), ErrorKind::TextDecode);
}

#[test]
fn version_info_driver_failure_passes_message() {
    let err = handle().get_version_info(Err("timeout".to_string())).unwrap_err();
    assert_eq!(err, UrgError::Driver { message: "timeout".to_string() });
}

#[test]
fn sensor_params_copies_numbers() {
    let p: UrgSensorParams = handle().get_sensor_params(Ok(raw_params())).unwrap();
    assert_eq!(p.sensor_model, "UST-10LX");
    assert_eq!(p.min_distance_mm, 20);
    assert_eq!(p.max_distance_mm, 30000);
    assert_eq!(f32::from_bits(p.angular_resolution_bits), 0.25f32);
    assert_eq!(p.start_step, 0);
    assert_eq!(p.end_step, 1080);
    assert_eq!(p.front_dir_step, 540);
    assert_eq!(p.std_scan_speed_rpm, 2400);
}

#[test]
fn sensor_params_invalid_model_is_decode_error() {
    let mut raw = raw_params();
    raw.sensor_model = vec![b'U', 0xFF];
    let err = handle().get_sensor_params(Ok(raw)).unwrap_err();
    assert_eq!(err.kind(), ErrorKind::TextDecode);
    let err = handle().get_sensor_params(Err("no answer".to_string())).unwrap_err();
    assert_eq!(err.kind(), ErrorKind::Driver);
}

#[test]
fn status_info_decodes_every_field() {
    let s: UrgStatusInfo = handle().get_status_info(Ok(raw_status())).unwrap();
    assert_eq!(s.sensor_model, "UST-10LX");
    assert_eq!(s.laser_status, "ON");
    assert_eq!(s.scanning_speed_rpm, 2400);
    assert_eq!(s.measurement_mode, "Normal");
    assert_eq!(s.communication_speed, "100M");
    assert_eq!(s.time_stamp, 987654);
    assert_eq!(s.sensor_status, "Sensor works well.");
}

#[test]
fn status_info_invalid_text_is_decode_error() {
    let mut raw = raw_status();
    raw.measurement_mode = vec![0xE2, 0x82];
    assert_eq!(UrgStatusInfo::try_from(raw).unwrap_err().kind(), ErrorKind::TextDecode);
    let err = handle().get_status_info(Err("busy".to_string())).unwrap_err();
    assert_eq!(err, UrgError::Driver { message: "busy".to_string() });
}

#[test]
fn capture_control_forwards_driver_answer() {
    let mut urg = handle();
    assert_eq!(urg.start_capture(Ok(())), Ok(()));
    assert_eq!(
        urg.stop_capture(Err("not capturing".to_string())),
        Err(UrgError::Driver { message: "not capturing".to_string() })
    );
    assert_eq!(urg.stop_capture(Ok(())), Ok(()));
    assert_eq!(urg.endpoint.port, 10940);
}

#[test]
fn get_distance_example_frame() {
    let urg = handle();
    let request = urg.get_distance(0, 1080, 1);
    let reply = frame(123456, vec![1000, 1002, 1004], vec![]);
    let p = urg.scan_result(request, Ok(reply)).unwrap();
    assert_eq!(p.time_stamp, 123456);
    assert_eq!(p.distance, vec![1000, 1002, 1004]);
    assert!(p.intensity.is_empty());
}

#[test]
fn distance_intensity_frame_is_parallel() {
    let urg = handle();
    let request = urg.get_distance_intensity(0, 2, 1);
    let p = urg.scan_result(request, Ok(frame(7, vec![1, 2, 3], vec![40, 50, 60]))).unwrap();
    assert_eq!(p.distance.len(), p.intensity.len());
    assert_eq!(p.intensity, vec![40, 50, 60]);
}

#[test]
fn scan_driver_failure_is_driver_error() {
    let urg = handle();
    let request = urg.get_distance(0, 1080, 1);
    let err = urg.scan_result(request, Err("checksum mismatch".to_string())).unwrap_err();
    assert_eq!(err, UrgError::Driver { message: "checksum mismatch".to_string() });
}

#[test]
fn multi_scan_yields_frames_in_order_then_ends() {
    let urg = handle();
    let request = urg.get_distance_multi(0, 1080, 1, 0, 3);
    let mut cursor: UrgPayloadIterator = urg.multi_scan_result(request, Ok(())).unwrap();
    assert_eq!(cursor.request(), request);
    let mut stamps = Vec::new();
    for t in [10u32, 20, 30] {
        assert!(!cursor.is_finished());
        let out = cursor.next(Some(Ok(frame(t, vec![t], vec![])))).unwrap().unwrap();
        stamps.push(out.time_stamp);
    }
    assert_eq!(stamps, vec![10, 20, 30]);
    assert!(cursor.next(None).is_none());
    assert!(cursor.is_finished());
    assert!(cursor.next(Some(Ok(frame(40, vec![], vec![])))).is_none());
    assert!(cursor.next(None).is_none());
}

#[test]
fn multi_scan_failure_is_fatal() {
    let urg = handle();
    let request = urg.get_distance_intensity_multi(0, 10, 1, 1, 5);
    let mut cursor = urg.multi_scan_result(request, Ok(())).unwrap();
    assert!(cursor.next(Some(Ok(frame(1, vec![5], vec![6])))).is_some());
    let out = cursor.next(Some(Err("timeout".to_string()))).unwrap();
    assert_eq!(out.unwrap_err(), UrgError::Driver { message: "timeout".to_string() });
    assert!(cursor.is_finished());
    assert!(cursor.next(Some(Ok(frame(2, vec![5], vec![6])))).is_none());
}

#[test]
fn multi_scan_refused_is_driver_error() {
    let urg = handle();
    let request = urg.get_distance_multi(0, 1080, 1, 0, 3);
    let err = urg.multi_scan_result(request, Err("bad request".to_string())).unwrap_err();
    assert_eq!(err.kind(), ErrorKind::Driver);
    assert_eq!(err.message(), "bad request");
}
