use vstd::prelude::*;
use crate::error::UrgError;
use crate::text::{decode_field, is_text, text_of};

verus! {

/// Identification record as the driver returns it: every field raw bytes.
#[derive(Debug, Clone)]
pub struct RawVersionInfo {
    pub vendor_info: Vec<u8>,
    pub product_info: Vec<u8>,
    pub firmware_version: Vec<u8>,
    pub protocol_version: Vec<u8>,
    pub serial_number: Vec<u8>,
}

/// Identification record with every field validated as text.
#[derive(Debug, Clone)]
pub struct UrgVersionInfo {
    pub vendor_info: String,
    pub product_info: String,
    pub firmware_version: String,
    pub protocol_version: String,
    pub serial_number: String,
}

impl RawVersionInfo {
    /// Every text field of the record is valid UTF-8.
    pub open spec fn is_text(&self) -> bool {
        &&& is_text(self.vendor_info@)
        &&& is_text(self.product_info@)
        &&& is_text(self.firmware_version@)
        &&& is_text(self.protocol_version@)
        &&& is_text(self.serial_number@)
    }
}

impl UrgVersionInfo {
    /// Each field is the decoded text of the matching raw field.
    pub open spec fn decodes(&self, raw: RawVersionInfo) -> bool {
        &&& self.vendor_info@ == text_of(raw.vendor_info@)
        &&& self.product_info@ == text_of(raw.product_info@)
        &&& self.firmware_version@ == text_of(raw.firmware_version@)
        &&& self.protocol_version@ == text_of(raw.protocol_version@)
        &&& self.serial_number@ == text_of(raw.serial_number@)
    }

    /// Decodes a driver record; fails as a whole if any field is not text.
    pub fn try_from(value: RawVersionInfo) -> (r: Result<UrgVersionInfo, UrgError>)
        ensures
            r is Ok <==> value.is_text(),
            r is Ok ==> r->Ok_0.decodes(value),
            r is Err ==> r->Err_0 is TextDecode,
    {
        let RawVersionInfo {
            vendor_info,
            product_info,
            firmware_version,
            protocol_version,
            serial_number,
        } = value;
        let vendor_info = decode_field(vendor_info)?;
        let product_info = decode_field(product_info)?;
        let firmware_version = decode_field(firmware_version)?;
        let protocol_version = decode_field(protocol_version)?;
        let serial_number = decode_field(serial_number)?;
        Ok(UrgVersionInfo {
            vendor_info,
            product_info,
            firmware_version,
            protocol_version,
            serial_number,
        })
    }
}

/// Sensor parameters as the driver returns them. The angular resolution is a
/// 32-bit float carried as its IEEE-754 bit pattern, untouched.
#[derive(Debug, Clone)]
pub struct RawSensorParams {
    pub sensor_model: Vec<u8>,
    pub min_distance_mm: u32,
    pub max_distance_mm: u32,
    pub angular_resolution_bits: u32,
    pub start_step: u32,
    pub end_step: u32,
    pub front_dir_step: u32,
    pub std_scan_speed_rpm: u32,
}

/// Sensor parameters with the model name validated as text.
#[derive(Debug, Clone)]
pub struct UrgSensorParams {
    pub sensor_model: String,
    pub min_distance_mm: u32,
    pub max_distance_mm: u32,
    pub angular_resolution_bits: u32,
    pub start_step: u32,
    pub end_step: u32,
    pub front_dir_step: u32,
    pub std_scan_speed_rpm: u32,
}

impl RawSensorParams {
    /// The model name is valid UTF-8.
    pub open spec fn is_text(&self) -> bool {
        is_text(self.sensor_model@)
    }
}

impl UrgSensorParams {
    /// The model name is the decoded raw one; every number is copied as is.
    pub open spec fn decodes(&self, raw: RawSensorParams) -> bool {
        &&& self.sensor_model@ == text_of(raw.sensor_model@)
        &&& self.min_distance_mm == raw.min_distance_mm
        &&& self.max_distance_mm == raw.max_distance_mm
        &&& self.angular_resolution_bits == raw.angular_resolution_bits
        &&& self.start_step == raw.start_step
        &&& self.end_step == raw.end_step
        &&& self.front_dir_step == raw.front_dir_step
        &&& self.std_scan_speed_rpm == raw.std_scan_speed_rpm
    }

    /// Decodes a driver record; fails if the model name is not text.
    pub fn try_from(value: RawSensorParams) -> (r: Result<UrgSensorParams, UrgError>)
        ensures
            r is Ok <==> value.is_text(),
            r is Ok ==> r->Ok_0.decodes(value),
            r is Err ==> r->Err_0 is TextDecode,
    {
        let RawSensorParams {
            sensor_model,
            min_distance_mm,
            max_distance_mm,
            angular_resolution_bits,
            start_step,
            end_step,
            front_dir_step,
            std_scan_speed_rpm,
        } = value;
        let sensor_model = decode_field(sensor_model)?;
        Ok(UrgSensorParams {
            sensor_model,
            min_distance_mm,
            max_distance_mm,
            angular_resolution_bits,
            start_step,
            end_step,
            front_dir_step,
            std_scan_speed_rpm,
        })
    }
}

/// Status record as the driver returns it.
#[derive(Debug, Clone)]
pub struct RawStatusInfo {
    pub sensor_model: Vec<u8>,
    pub laser_status: Vec<u8>,
    pub scanning_speed_rpm: u32,
    pub measurement_mode: Vec<u8>,
    pub communication_speed: Vec<u8>,
    pub time_stamp: u32,
    pub sensor_status: Vec<u8>,
}

/// Status record with every text field validated.
#[derive(Debug, Clone)]
pub struct UrgStatusInfo {
    pub sensor_model: String,
    pub laser_status: String,
    pub scanning_speed_rpm: u32,
    pub measurement_mode: String,
    pub communication_speed: String,
    pub time_stamp: u32,
    pub sensor_status: String,
}

impl RawStatusInfo {
    /// Every text field of the record is valid UTF-8.
    pub open spec fn is_text(&self) -> bool {
        &&& is_text(self.sensor_model@)
        &&& is_text(self.laser_status@)
        &&& is_text(self.measurement_mode@)
        &&& is_text(self.communication_speed@)
        &&& is_text(self.sensor_status@)
    }
}

impl UrgStatusInfo {
    /// Each text field is the decoded raw one; every number is copied as is.
    pub open spec fn decodes(&self, raw: RawStatusInfo) -> bool {
        &&& self.sensor_model@ == text_of(raw.sensor_model@)
        &&& self.laser_status@ == text_of(raw.laser_status@)
        &&& self.scanning_speed_rpm == raw.scanning_speed_rpm
        &&& self.measurement_mode@ == text_of(raw.measurement_mode@)
        &&& self.communication_speed@ == text_of(raw.communication_speed@)
        &&& self.time_stamp == raw.time_stamp
        &&& self.sensor_status@ == text_of(raw.sensor_status@)
    }

    /// Decodes a driver record; fails as a whole if any text field is not text.
    pub fn try_from(value: RawStatusInfo) -> (r: Result<UrgStatusInfo, UrgError>)
        ensures
            r is Ok <==> value.is_text(),
            r is Ok ==> r->Ok_0.decodes(value),
            r is Err ==> r->Err_0 is TextDecode,
    {
        let RawStatusInfo {
            sensor_model,
            laser_status,
            scanning_speed_rpm,
            measurement_mode,
            communication_speed,
            time_stamp,
            sensor_status,
        } = value;
        let sensor_model = decode_field(sensor_model)?;
        let laser_status = decode_field(laser_status)?;
        let measurement_mode = decode_field(measurement_mode)?;
        let communication_speed = decode_field(communication_speed)?;
        let sensor_status = decode_field(sensor_status)?;
        Ok(UrgStatusInfo {
            sensor_model,
            laser_status,
            scanning_speed_rpm,
            measurement_mode,
            communication_speed,
            time_stamp,
            sensor_status,
        })
    }
}

/// One scan frame: the device clock at capture and the readings. `intensity`
/// is empty when intensities were not asked for.
#[derive(Debug, Clone)]
pub struct UrgPayload {
    pub time_stamp: u32,
    pub distance: Vec<u32>,
    pub intensity: Vec<u32>,
}

impl UrgPayload {
    /// The frame has the shape a request asks for: parallel readings when
    /// intensities were asked for, no intensities otherwise.
    pub open spec fn shaped_for(&self, with_intensity: bool) -> bool {
        if with_intensity {
            self.intensity@.len() == self.distance@.len()
        } else {
            self.intensity@.len() == 0
        }
    }
}

} // verus!
