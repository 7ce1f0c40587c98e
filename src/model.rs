//! Plain data carried through the pipeline: identifiers, sensor readings,
//! device health snapshots and the batch that ships them upstream.
//!
//! Identifiers hold the 128-bit value of a ULID; timestamps are milliseconds
//! since the Unix epoch.

use vstd::prelude::*;

verus! {

#[derive(Clone, Copy, Debug, PartialEq, Eq, Structural, Hash)]
pub struct DeviceId(pub u128);

#[derive(Clone, Copy, Debug, PartialEq, Eq, Structural, Hash)]
pub struct ReadingId(pub u128);

#[derive(Clone, Copy, Debug, PartialEq, Eq, Structural, Hash)]
pub struct StatusId(pub u128);

#[derive(Clone, Copy, Debug, PartialEq, Eq, Structural, Hash)]
pub struct DispatcherId(pub u128);

#[derive(Clone, Copy, Debug, PartialEq, Eq, Structural, Hash)]
pub struct BatchId(pub u128);

#[derive(Clone, Copy, Debug, PartialEq, Eq, Structural, Hash)]
pub struct SensorId(pub u128);

/// A geospatial cell index.
#[derive(Clone, Copy, Debug, PartialEq, Eq, Structural, Hash)]
pub struct H3Cell(pub u64);

/// A value between 0 and 100.
#[derive(Clone, Copy, Debug, PartialEq, Eq, Structural, Hash)]
pub struct Percentage(pub u8);

#[derive(Clone, Copy, Debug, PartialEq, Eq, Structural)]
pub enum DeviceKind {
    Sensor,
}

#[derive(Clone, Copy, Debug, PartialEq, Eq, Structural)]
pub enum DeviceState {
    Active,
    Suspended,
}

#[derive(Clone, Copy, Debug, PartialEq, Eq, Structural)]
pub enum DispatcherState {
    Active,
    Suspended,
}

#[derive(Clone, Copy, Debug, PartialEq, Eq, Structural)]
pub enum QualityStatus {
    Good,
    Suspect,
    Bad,
}

#[derive(Clone, Copy, Debug, PartialEq, Eq, Structural)]
pub enum MetricUnit {
    Percent,
    Celsius,
    Mm,
}

#[derive(Clone, Copy, Debug, PartialEq, Eq, Structural)]
pub enum SensorMetricKind {
    SoilMoisture,
    SoilTemp,
    AirTemp,
    Humidity,
    Rainfall,
}

/// A measured value. Temperatures are in hundredths of a degree Celsius,
/// rainfall in hundredths of a millimetre.
#[derive(Clone, Copy, Debug, PartialEq, Eq, Structural)]
pub enum SensorMetric {
    SoilMoisture { value: Percentage },
    SoilTemp { centi_celsius: i32 },
    AirTemp { centi_celsius: i32 },
    Humidity { value: Percentage },
    Rainfall { centi_mm: u32 },
}

impl SensorMetric {
    pub open spec fn spec_kind(self) -> SensorMetricKind {
        match self {
            SensorMetric::SoilMoisture { .. } => SensorMetricKind::SoilMoisture,
            SensorMetric::SoilTemp { .. } => SensorMetricKind::SoilTemp,
            SensorMetric::AirTemp { .. } => SensorMetricKind::AirTemp,
            SensorMetric::Humidity { .. } => SensorMetricKind::Humidity,
            SensorMetric::Rainfall { .. } => SensorMetricKind::Rainfall,
        }
    }

    /// Which kind of quantity this metric measures.
    pub fn kind(&self) -> (r: SensorMetricKind)
        ensures
            r == self.spec_kind(),
    {
        match self {
            SensorMetric::SoilMoisture { .. } => SensorMetricKind::SoilMoisture,
            SensorMetric::SoilTemp { .. } => SensorMetricKind::SoilTemp,
            SensorMetric::AirTemp { .. } => SensorMetricKind::AirTemp,
            SensorMetric::Humidity { .. } => SensorMetricKind::Humidity,
            SensorMetric::Rainfall { .. } => SensorMetricKind::Rainfall,
        }
    }
}

/// An immutable measurement taken at the edge.
#[derive(Clone, Copy, Debug, PartialEq, Eq, Structural)]
pub struct SensorReading {
    pub id: ReadingId,
    pub device_id: DeviceId,
    pub dispatcher_id: DispatcherId,
    pub sensor_id: SensorId,
    pub metric: SensorMetric,
    pub location: H3Cell,
    pub confidence: Percentage,
    pub timestamp: i64,
}

#[derive(Clone, Copy, Debug, PartialEq, Eq, Structural)]
pub enum DeviceErrorCode {
    LowBattery,
    SensorFault,
    RadioFault,
    Unknown,
}

#[derive(Clone, Debug)]
pub struct DeviceError {
    pub code: DeviceErrorCode,
    pub message: Option<String>,
}

impl DeviceError {
    /// An exact copy of this error.
    pub fn duplicate(&self) -> (r: DeviceError)
        ensures
            r == *self,
    {
        let message = match &self.message {
            Some(m) => Some(m.clone()),
            None => None,
        };
        DeviceError { code: self.code, message }
    }
}

/// An immutable health snapshot of a device.
#[derive(Clone, Debug)]
pub struct DeviceStatus {
    pub id: StatusId,
    pub device_id: DeviceId,
    pub dispatcher_id: DispatcherId,
    pub battery_percent: Percentage,
    pub uptime_seconds: u64,
    pub signal_rssi: i64,
    pub errors: Vec<DeviceError>,
    pub timestamp: i64,
}

/// An exact copy of a list of device errors.
pub fn duplicate_errors(errors: &Vec<DeviceError>) -> (r: Vec<DeviceError>)
    ensures
        r@ == errors@,
{
    let mut r: Vec<DeviceError> = Vec::new();
    let mut i: usize = 0;
    while i < errors.len()
        invariant
            i <= errors.len(),
            r@ == errors@.subrange(0, i as int),
        decreases errors.len() - i,
    {
        r.push(errors[i].duplicate());
        i = i + 1;
    }
    assert(errors@.subrange(0, errors.len() as int) == errors@);
    r
}

/// What a device status says, with its errors as a sequence.
pub struct DeviceStatusView {
    pub id: StatusId,
    pub device_id: DeviceId,
    pub dispatcher_id: DispatcherId,
    pub battery_percent: Percentage,
    pub uptime_seconds: u64,
    pub signal_rssi: i64,
    pub errors: Seq<DeviceError>,
    pub timestamp: i64,
}

impl View for DeviceStatus {
    type V = DeviceStatusView;

    open spec fn view(&self) -> DeviceStatusView {
        DeviceStatusView {
            id: self.id,
            device_id: self.device_id,
            dispatcher_id: self.dispatcher_id,
            battery_percent: self.battery_percent,
            uptime_seconds: self.uptime_seconds,
            signal_rssi: self.signal_rssi,
            errors: self.errors@,
            timestamp: self.timestamp,
        }
    }
}

impl View for SensorReading {
    type V = SensorReading;

    open spec fn view(&self) -> SensorReading {
        *self
    }
}

/// A registered gateway.
#[derive(Clone, Copy, Debug, PartialEq, Eq, Structural)]
pub struct Dispatcher {
    pub id: DispatcherId,
    pub location: H3Cell,
    pub state: DispatcherState,
    pub provisioned_at: i64,
}

/// A group of pending records shipped upstream together.
#[derive(Clone, Debug)]
pub struct BatchUploadRequest {
    pub id: BatchId,
    pub dispatcher_id: DispatcherId,
    pub readings: Vec<SensorReading>,
    pub statuses: Vec<DeviceStatus>,
    pub timestamp: i64,
}

/// Upstream's acknowledgement of a batch, echoing its id.
#[derive(Clone, Copy, Debug, PartialEq, Eq, Structural)]
pub struct BatchUploadResponse {
    pub id: BatchId,
}

/// A gateway announcing itself upstream.
#[derive(Clone, Copy, Debug, PartialEq, Eq, Structural)]
pub struct HelloRequest {
    pub dispatcher_id: DispatcherId,
    pub location: H3Cell,
}

#[derive(Clone, Copy, Debug, PartialEq, Eq, Structural)]
pub enum HelloRejectionReason {
    UnknownDispatcher,
}

#[derive(Clone, Copy, Debug, PartialEq, Eq, Structural)]
pub enum HelloResponse {
    Accepted { dispatcher_id: DispatcherId },
    Rejected { reason: HelloRejectionReason },
}

} // verus!
