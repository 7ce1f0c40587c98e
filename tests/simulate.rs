use ersha::model::{DeviceErrorCode, DeviceId, DispatcherId, H3Cell, Percentage, ReadingId, SensorId, SensorMetric, StatusId};
use ersha::simulate::{MockDevice, ReadingDraw, StatusDraw};

fn device() -> MockDevice {
    MockDevice { device_id: DeviceId(1), sensor_ids: (10u128..15).map(SensorId).collect() }
}

fn draw(sensor_index: usize) -> ReadingDraw {
    ReadingDraw {
        sensor_index,
        moisture_percent: 40,
        soil_centi_celsius: 2000,
        air_centi_celsius: 3100,
        humidity_percent: 70,
        rain_centi_mm: 120,
        confidence: 90,
    }
}

#[test]
fn each_sensor_reports_its_own_draw() {
    let d = device();
    let metrics: Vec<SensorMetric> =
        (0..5).map(|i| d.reading_from(&draw(i), ReadingId(7), DispatcherId(2), H3Cell(3), 99).metric).collect();
    assert_eq!(
        metrics,
        vec![
            SensorMetric::SoilMoisture { value: Percentage(40) },
            SensorMetric::SoilTemp { centi_celsius: 2000 },
            SensorMetric::AirTemp { centi_celsius: 3100 },
            SensorMetric::Humidity { value: Percentage(70) },
            SensorMetric::Rainfall { centi_mm: 120 },
        ]
    );
    let r = d.reading_from(&draw(3), ReadingId(7), DispatcherId(2), H3Cell(3), 99);
    assert_eq!((r.sensor_id, r.confidence, r.timestamp), (SensorId(13), Percentage(90), 99));
}

#[test]
fn low_battery_status_carries_one_error() {
    let d = device();
    let s = d.status_from(
        &StatusDraw { battery_percent: 15, uptime_seconds: 4000, signal_rssi: -60, low_battery: true },
        StatusId(4),
        DispatcherId(2),
        5,
    );
    assert_eq!(s.errors.len(), 1);
    assert_eq!(s.errors[0].code, DeviceErrorCode::LowBattery);
    let quiet = d.status_from(
        &StatusDraw { battery_percent: 80, uptime_seconds: 4000, signal_rssi: -60, low_battery: false },
        StatusId(5),
        DispatcherId(2),
        5,
    );
    assert!(quiet.errors.is_empty());
}
