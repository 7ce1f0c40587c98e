//! The compact uplink packet an edge device sends for one reading: 11 bytes,
//! with the device address and the value little-endian.

use vstd::prelude::*;

verus! {

/// Why a sensor could not produce a reading.
#[derive(Clone, Copy, Debug, PartialEq, Eq, Structural)]
pub enum SensorError {
    Timeout,
    InvalidData,
}

/// Why the uplink refused a device.
#[derive(Clone, Copy, Debug, PartialEq, Eq, Structural)]
pub enum UplinkError {
    InvalidAuth,
}

/// One reading as sent over the uplink.
#[derive(Clone, Copy, Debug, PartialEq, Eq, Structural)]
pub struct Reading {
    reading_id: u8,
    metric: u8,
    sensor_id: u8,
    device_id: u32,
    value: u32,
}

/// The 4-byte little-endian form of `n`.
pub open spec fn le_bytes(n: u32) -> Seq<u8> {
    seq![n as u8, (n >> 8u32) as u8, (n >> 16u32) as u8, (n >> 24u32) as u8]
}

impl Reading {
    /// The size of an encoded reading.
    pub const BYTE_LEN: usize = 11;

    pub closed spec fn spec_reading_id(&self) -> u8 {
        self.reading_id
    }

    pub closed spec fn spec_metric(&self) -> u8 {
        self.metric
    }

    pub closed spec fn spec_sensor_id(&self) -> u8 {
        self.sensor_id
    }

    pub closed spec fn spec_device_id(&self) -> u32 {
        self.device_id
    }

    pub closed spec fn spec_value(&self) -> u32 {
        self.value
    }

    /// The encoded form: reading id, metric code and sensor id, one byte
    /// each, then the device address and the value, little-endian.
    pub open spec fn spec_bytes(&self) -> Seq<u8> {
        seq![self.spec_reading_id(), self.spec_metric(), self.spec_sensor_id()] + le_bytes(
            self.spec_device_id(),
        ) + le_bytes(self.spec_value())
    }

    pub fn new(reading_id: u8, metric: u8, sensor_id: u8, device_id: u32, value: u32) -> (r:
        Reading)
        ensures
            r.spec_reading_id() == reading_id,
            r.spec_metric() == metric,
            r.spec_sensor_id() == sensor_id,
            r.spec_device_id() == device_id,
            r.spec_value() == value,
    {
        Reading { reading_id, metric, sensor_id, device_id, value }
    }

    /// The 11 bytes of this reading.
    pub fn to_bytes(&self) -> (r: [u8; 11])
        ensures
            r@ == self.spec_bytes(),
    {
        let mut buf = [0u8; 11];
        buf[0] = self.reading_id;
        buf[1] = self.metric;
        buf[2] = self.sensor_id;
        buf[3] = self.device_id as u8;
        buf[4] = (self.device_id >> 8u32) as u8;
        buf[5] = (self.device_id >> 16u32) as u8;
        buf[6] = (self.device_id >> 24u32) as u8;
        buf[7] = self.value as u8;
        buf[8] = (self.value >> 8u32) as u8;
        buf[9] = (self.value >> 16u32) as u8;
        buf[10] = (self.value >> 24u32) as u8;
        assert(buf@ =~= self.spec_bytes());
        buf
    }
}

} // verus!
