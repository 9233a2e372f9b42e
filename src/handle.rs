use vstd::prelude::*;
use crate::error::UrgError;
use crate::cursor::UrgPayloadIterator;
use crate::records::{
    RawSensorParams, RawStatusInfo, RawVersionInfo, UrgPayload, UrgSensorParams, UrgStatusInfo,
    UrgVersionInfo,
};

verus! {

/// A parsed network address: four octets, or eight 16-bit segments.
#[derive(Debug, Clone, Copy)]
pub enum IpAddress {
    V4 { octets: [u8; 4] },
    V6 { segments: [u16; 8] },
}

/// Where a handle is connected.
#[derive(Debug, Clone, Copy)]
pub struct Endpoint {
    pub address: IpAddress,
    pub port: u16,
}

/// Arguments of one scan request, handed to the driver unchanged.
#[derive(Debug, Clone, Copy, PartialEq, Eq, Structural)]
pub struct ScanRequest {
    pub start_step: u32,
    pub end_step: u32,
    pub cluster_count: u32,
    pub with_intensity: bool,
}

/// Arguments of one multi-scan request, handed to the driver unchanged.
#[derive(Debug, Clone, Copy, PartialEq, Eq, Structural)]
pub struct MultiScanRequest {
    pub scan: ScanRequest,
    pub scan_skip_count: u32,
    pub num_of_scan: u32,
}

/// The message of a malformed address.
pub const INVALID_ADDRESS: &'static str = "invalid IP address syntax";

/// An open connection to one sensor.
///
/// The handle holds no capture state: starting and stopping capture are
/// forwarded as they come, and the driver decides what is legal.
#[derive(Debug, Clone, Copy)]
pub struct Urg {
    pub endpoint: Endpoint,
}

/// What opening yields, given the driver's answer to the connection attempt.
pub open spec fn opened(endpoint: Endpoint, connected: Result<(), String>) -> Result<Urg, UrgError> {
    match connected {
        Ok(()) => Ok(Urg { endpoint }),
        Err(m) => Err(UrgError::Connection { message: m }),
    }
}

/// What a driver call with no result yields: success, or the driver's
/// failure passed on verbatim.
pub open spec fn forwarded(reply: Result<(), String>) -> Result<(), UrgError> {
    match reply {
        Ok(()) => Ok(()),
        Err(m) => Err(UrgError::Driver { message: m }),
    }
}

/// What a single scan yields: the driver's frame untouched, or its failure.
pub open spec fn scanned(reply: Result<UrgPayload, String>) -> Result<UrgPayload, UrgError> {
    match reply {
        Ok(p) => Ok(p),
        Err(m) => Err(UrgError::Driver { message: m }),
    }
}

/// The scan request for the given arguments, unchanged.
pub open spec fn scan_request(
    with_intensity: bool,
    start_step: u32,
    end_step: u32,
    cluster_count: u32,
) -> ScanRequest {
    ScanRequest { start_step, end_step, cluster_count, with_intensity }
}

/// The multi-scan request for the given arguments, unchanged.
pub open spec fn multi_scan_request(
    with_intensity: bool,
    start_step: u32,
    end_step: u32,
    cluster_count: u32,
    scan_skip_count: u32,
    num_of_scan: u32,
) -> MultiScanRequest {
    MultiScanRequest {
        scan: scan_request(with_intensity, start_step, end_step, cluster_count),
        scan_skip_count,
        num_of_scan,
    }
}

impl Urg {
    /// The endpoint to connect to, or a connection failure for an address
    /// that did not parse.
    pub fn endpoint(address: Option<IpAddress>, port: u16) -> (r: Result<Endpoint, UrgError>)
        ensures
            address is None ==> r is Err && r->Err_0 is Connection
                && r->Err_0.message_spec() == INVALID_ADDRESS@,
            address is Some ==> r == Ok::<Endpoint, UrgError>(
                Endpoint { address: address->Some_0, port },
            ),
    {
        match address {
            None => Err(UrgError::Connection { message: INVALID_ADDRESS.to_string() }),
            Some(a) => Ok(Endpoint { address: a, port }),
        }
    }

    /// The handle once the driver has answered the connection attempt; a
    /// failed attempt is a connection failure with the driver's message.
    pub fn open(endpoint: Endpoint, connected: Result<(), String>) -> (r: Result<Urg, UrgError>)
        ensures
            r == opened(endpoint, connected),
    {
        match connected {
            Ok(()) => Ok(Urg { endpoint }),
            Err(message) => Err(UrgError::Connection { message }),
        }
    }

    /// The identification record from the driver's answer to the query.
    pub fn get_version_info(&self, reply: Result<RawVersionInfo, String>) -> (r: Result<
        UrgVersionInfo,
        UrgError,
    >)
        ensures
            reply is Err ==> r == Err::<UrgVersionInfo, UrgError>(
                UrgError::Driver { message: reply->Err_0 },
            ),
            reply is Ok ==> (r is Ok <==> reply->Ok_0.is_text()),
            reply is Ok && r is Ok ==> r->Ok_0.decodes(reply->Ok_0),
            reply is Ok && r is Err ==> r->Err_0 is TextDecode,
    {
        match reply {
            Ok(raw) => UrgVersionInfo::try_from(raw),
            Err(message) => Err(UrgError::Driver { message }),
        }
    }

    /// The sensor parameters from the driver's answer to the query.
    pub fn get_sensor_params(&self, reply: Result<RawSensorParams, String>) -> (r: Result<
        UrgSensorParams,
        UrgError,
    >)
        ensures
            reply is Err ==> r == Err::<UrgSensorParams, UrgError>(
                UrgError::Driver { message: reply->Err_0 },
            ),
            reply is Ok ==> (r is Ok <==> reply->Ok_0.is_text()),
            reply is Ok && r is Ok ==> r->Ok_0.decodes(reply->Ok_0),
            reply is Ok && r is Err ==> r->Err_0 is TextDecode,
    {
        match reply {
            Ok(raw) => UrgSensorParams::try_from(raw),
            Err(message) => Err(UrgError::Driver { message }),
        }
    }

    /// The status record from the driver's answer to the query.
    pub fn get_status_info(&self, reply: Result<RawStatusInfo, String>) -> (r: Result<
        UrgStatusInfo,
        UrgError,
    >)
        ensures
            reply is Err ==> r == Err::<UrgStatusInfo, UrgError>(
                UrgError::Driver { message: reply->Err_0 },
            ),
            reply is Ok ==> (r is Ok <==> reply->Ok_0.is_text()),
            reply is Ok && r is Ok ==> r->Ok_0.decodes(reply->Ok_0),
            reply is Ok && r is Err ==> r->Err_0 is TextDecode,
    {
        match reply {
            Ok(raw) => UrgStatusInfo::try_from(raw),
            Err(message) => Err(UrgError::Driver { message }),
        }
    }

    /// The outcome of starting continuous capture, given the driver's answer.
    pub fn start_capture(&mut self, reply: Result<(), String>) -> (r: Result<(), UrgError>)
        ensures
            r == forwarded(reply),
            final(self).endpoint == old(self).endpoint,
    {
        match reply {
            Ok(()) => Ok(()),
            Err(message) => Err(UrgError::Driver { message }),
        }
    }

    /// The outcome of stopping continuous capture, given the driver's answer.
    pub fn stop_capture(&mut self, reply: Result<(), String>) -> (r: Result<(), UrgError>)
        ensures
            r == forwarded(reply),
            final(self).endpoint == old(self).endpoint,
    {
        match reply {
            Ok(()) => Ok(()),
            Err(message) => Err(UrgError::Driver { message }),
        }
    }

    /// The request for one distance scan.
    pub fn get_distance(&self, start_step: u32, end_step: u32, cluster_count: u32) -> (r:
        ScanRequest)
        ensures
            r == scan_request(false, start_step, end_step, cluster_count),
    {
        ScanRequest { start_step, end_step, cluster_count, with_intensity: false }
    }

    /// The request for one distance and intensity scan.
    pub fn get_distance_intensity(&self, start_step: u32, end_step: u32, cluster_count: u32) -> (r:
        ScanRequest)
        ensures
            r == scan_request(true, start_step, end_step, cluster_count),
    {
        ScanRequest { start_step, end_step, cluster_count, with_intensity: true }
    }

    /// The request for a multi-scan of distances.
    pub fn get_distance_multi(
        &self,
        start_step: u32,
        end_step: u32,
        cluster_count: u32,
        scan_skip_count: u32,
        num_of_scan: u32,
    ) -> (r: MultiScanRequest)
        ensures
            r == multi_scan_request(
                false,
                start_step,
                end_step,
                cluster_count,
                scan_skip_count,
                num_of_scan,
            ),
    {
        MultiScanRequest {
            scan: ScanRequest { start_step, end_step, cluster_count, with_intensity: false },
            scan_skip_count,
            num_of_scan,
        }
    }

    /// The request for a multi-scan of distances and intensities.
    pub fn get_distance_intensity_multi(
        &self,
        start_step: u32,
        end_step: u32,
        cluster_count: u32,
        scan_skip_count: u32,
        num_of_scan: u32,
    ) -> (r: MultiScanRequest)
        ensures
            r == multi_scan_request(
                true,
                start_step,
                end_step,
                cluster_count,
                scan_skip_count,
                num_of_scan,
            ),
    {
        MultiScanRequest {
            scan: ScanRequest { start_step, end_step, cluster_count, with_intensity: true },
            scan_skip_count,
            num_of_scan,
        }
    }

    /// The frame of a single scan, from the driver's answer to the request.
    /// The frame is handed on untouched, so it keeps the shape the request
    /// asked for whenever the driver's frame has it.
    pub fn scan_result(&self, request: ScanRequest, reply: Result<UrgPayload, String>) -> (r:
        Result<UrgPayload, UrgError>)
        ensures
            r == scanned(reply),
            reply is Ok && reply->Ok_0.shaped_for(request.with_intensity) ==> r is Ok
                && r->Ok_0.shaped_for(request.with_intensity),
    {
        match reply {
            Ok(p) => Ok(p),
            Err(message) => Err(UrgError::Driver { message }),
        }
    }

    /// The cursor over a multi-scan's frames, once the driver has accepted the
    /// request; a refusal is a driver failure.
    pub fn multi_scan_result(&self, request: MultiScanRequest, reply: Result<(), String>) -> (r:
        Result<UrgPayloadIterator, UrgError>)
        ensures
            reply is Ok ==> r is Ok && r->Ok_0.request_spec() == request
                && !r->Ok_0.finished_spec(),
            reply is Err ==> r == Err::<UrgPayloadIterator, UrgError>(
                UrgError::Driver { message: reply->Err_0 },
            ),
    {
        match reply {
            Ok(()) => Ok(UrgPayloadIterator::new(request)),
            Err(message) => Err(UrgError::Driver { message }),
        }
    }
}

/// Opening a well-formed address succeeds whenever the driver connects, the
/// handle is bound to that address and port, and every request it makes
/// carries its arguments to the driver unchanged.
pub proof fn lemma_open_forwards_arguments(
    address: IpAddress,
    port: u16,
    with_intensity: bool,
    start_step: u32,
    end_step: u32,
    cluster_count: u32,
    scan_skip_count: u32,
    num_of_scan: u32,
)
    ensures
        opened(Endpoint { address, port }, Ok(())) is Ok,
        opened(Endpoint { address, port }, Ok(()))->Ok_0.endpoint.address == address,
        opened(Endpoint { address, port }, Ok(()))->Ok_0.endpoint.port == port,
        ({
            let r = scan_request(with_intensity, start_step, end_step, cluster_count);
            &&& r.start_step == start_step
            &&& r.end_step == end_step
            &&& r.cluster_count == cluster_count
            &&& r.with_intensity == with_intensity
        }),
        ({
            let m = multi_scan_request(
                with_intensity,
                start_step,
                end_step,
                cluster_count,
                scan_skip_count,
                num_of_scan,
            );
            &&& m.scan == scan_request(with_intensity, start_step, end_step, cluster_count)
            &&& m.scan_skip_count == scan_skip_count
            &&& m.num_of_scan == num_of_scan
        }),
{
}

} // verus!
