//! Simulated edge devices: how a device with stable ids turns random draws
//! into a sensor reading or a health status. Drawing the numbers is left to
//! the caller.

use vstd::prelude::*;
use crate::model::{
    DeviceError, DeviceErrorCode, DeviceId, DeviceStatus, DispatcherId, H3Cell, Percentage,
    ReadingId, SensorId, SensorMetric, SensorReading, StatusId,
};

verus! {

/// The draws one simulated reading is made from.
pub struct ReadingDraw {
    /// Which of the device's sensors reads.
    pub sensor_index: usize,
    pub moisture_percent: u8,
    pub soil_centi_celsius: i32,
    pub air_centi_celsius: i32,
    pub humidity_percent: u8,
    pub rain_centi_mm: u32,
    pub confidence: u8,
}

/// The draws one simulated status is made from.
pub struct StatusDraw {
    pub battery_percent: u8,
    pub uptime_seconds: u64,
    pub signal_rssi: i64,
    /// Whether the status reports a low battery.
    pub low_battery: bool,
}

/// A simulated device: its id and one sensor per metric kind, in the order
/// soil moisture, soil temperature, air temperature, humidity, rainfall.
pub struct MockDevice {
    pub device_id: DeviceId,
    pub sensor_ids: Vec<SensorId>,
}

/// The metric a draw gives for the sensor it picks: the drawn value of
/// that sensor's kind.
pub open spec fn metric_of(draw: ReadingDraw) -> SensorMetric {
    if draw.sensor_index == 0 {
        SensorMetric::SoilMoisture { value: Percentage(draw.moisture_percent) }
    } else if draw.sensor_index == 1 {
        SensorMetric::SoilTemp { centi_celsius: draw.soil_centi_celsius }
    } else if draw.sensor_index == 2 {
        SensorMetric::AirTemp { centi_celsius: draw.air_centi_celsius }
    } else if draw.sensor_index == 3 {
        SensorMetric::Humidity { value: Percentage(draw.humidity_percent) }
    } else {
        SensorMetric::Rainfall { centi_mm: draw.rain_centi_mm }
    }
}

impl MockDevice {
    /// The reading with id `id` that `draw` describes, taken at `now`.
    pub fn reading_from(
        &self,
        draw: &ReadingDraw,
        id: ReadingId,
        dispatcher_id: DispatcherId,
        location: H3Cell,
        now: i64,
    ) -> (r: SensorReading)
        requires
            draw.sensor_index < self.sensor_ids@.len(),
        ensures
            r == (SensorReading {
                id,
                device_id: self.device_id,
                dispatcher_id,
                sensor_id: self.sensor_ids@[draw.sensor_index as int],
                metric: metric_of(*draw),
                location,
                confidence: Percentage(draw.confidence),
                timestamp: now,
            }),
    {
        let metric = if draw.sensor_index == 0 {
            SensorMetric::SoilMoisture { value: Percentage(draw.moisture_percent) }
        } else if draw.sensor_index == 1 {
            SensorMetric::SoilTemp { centi_celsius: draw.soil_centi_celsius }
        } else if draw.sensor_index == 2 {
            SensorMetric::AirTemp { centi_celsius: draw.air_centi_celsius }
        } else if draw.sensor_index == 3 {
            SensorMetric::Humidity { value: Percentage(draw.humidity_percent) }
        } else {
            SensorMetric::Rainfall { centi_mm: draw.rain_centi_mm }
        };
        SensorReading {
            id,
            device_id: self.device_id,
            dispatcher_id,
            sensor_id: self.sensor_ids[draw.sensor_index],
            metric,
            location,
            confidence: Percentage(draw.confidence),
            timestamp: now,
        }
    }

    /// The status with id `id` that `draw` describes, taken at `now`: it
    /// carries one low-battery error when the draw says so, else none.
    pub fn status_from(
        &self,
        draw: &StatusDraw,
        id: StatusId,
        dispatcher_id: DispatcherId,
        now: i64,
    ) -> (r: DeviceStatus)
        ensures
            r.id == id,
            r.device_id == self.device_id,
            r.dispatcher_id == dispatcher_id,
            r.battery_percent == Percentage(draw.battery_percent),
            r.uptime_seconds == draw.uptime_seconds,
            r.signal_rssi == draw.signal_rssi,
            r.timestamp == now,
            r.errors@.len() == if draw.low_battery {
                1int
            } else {
                0int
            },
            draw.low_battery ==> r.errors@[0].code == DeviceErrorCode::LowBattery
                && r.errors@[0].message is Some,
    {
        let mut errors: Vec<DeviceError> = Vec::new();
        if draw.low_battery {
            errors.push(
                DeviceError {
                    code: DeviceErrorCode::LowBattery,
                    message: Some("Battery below 20%".to_string()),
                },
            );
        }
        DeviceStatus {
            id,
            device_id: self.device_id,
            dispatcher_id,
            battery_percent: Percentage(draw.battery_percent),
            uptime_seconds: draw.uptime_seconds,
            signal_rssi: draw.signal_rssi,
            errors,
            timestamp: now,
        }
    }
}

} // verus!
