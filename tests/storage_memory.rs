use ersha::model::{
    DeviceError, DeviceErrorCode, DeviceId, DeviceStatus, DispatcherId, H3Cell, Percentage,
    ReadingId, SensorId, SensorMetric, SensorReading, StatusId,
};
use ersha::queue::{StorageError, StorageState, Stored};
use ersha::storage::MemoryStorage;

fn fresh() -> u128 {
    ulid::Ulid::new().0
}

fn reading_with_id(id: u128) -> SensorReading {
    SensorReading {
        id: ReadingId(id),
        device_id: DeviceId(fresh()),
        dispatcher_id: DispatcherId(fresh()),
        sensor_id: SensorId(fresh()),
        metric: SensorMetric::SoilMoisture { value: Percentage(42) },
        location: H3Cell(123),
        confidence: Percentage(95),
        timestamp: jiff::Timestamp::now().as_millisecond(),
    }
}

fn dummy_reading() -> SensorReading {
    reading_with_id(fresh())
}

fn dummy_status() -> DeviceStatus {
    DeviceStatus {
        id: StatusId(fresh()),
        device_id: DeviceId(fresh()),
        dispatcher_id: DispatcherId(fresh()),
        battery_percent: Percentage(85),
        uptime_seconds: 3600,
        signal_rssi: -65,
        errors: Vec::new(),
        timestamp: jiff::Timestamp::now().as_millisecond(),
    }
}

#[test]
fn memory_sensor_reading_lifecycle() {
    let mut storage = MemoryStorage::new();
    let reading = dummy_reading();
    let reading_id = reading.id;

    storage.store_sensor_reading(reading).unwrap();
    assert_eq!(storage.fetch_pending_sensor_readings().len(), 1);

    storage.mark_sensor_readings_uploaded(&[reading_id]);
    assert_eq!(storage.fetch_pending_sensor_readings().len(), 0);
}

#[test]
fn memory_device_status_lifecycle() {
    let mut storage = MemoryStorage::new();
    let status = dummy_status();
    let status_id = status.id;

    storage.store_device_status(status).unwrap();
    assert_eq!(storage.fetch_pending_device_statuses().len(), 1);

    storage.mark_device_statuses_uploaded(&[status_id]);
    assert_eq!(storage.fetch_pending_device_statuses().len(), 0);
}

#[test]
fn memory_mixed_events() {
    let mut storage = MemoryStorage::new();
    storage.store_sensor_reading(dummy_reading()).unwrap();
    storage.store_device_status(dummy_status()).unwrap();

    assert_eq!(storage.fetch_pending_sensor_readings().len(), 1);
    assert_eq!(storage.fetch_pending_device_statuses().len(), 1);
}

#[test]
fn memory_batch_sensor_readings() {
    let mut storage = MemoryStorage::new();
    let readings = vec![dummy_reading(), dummy_reading(), dummy_reading()];
    storage.store_sensor_readings_batch(readings).unwrap();
    assert_eq!(storage.fetch_pending_sensor_readings().len(), 3);
}

#[test]
fn memory_batch_device_statuses() {
    let mut storage = MemoryStorage::new();
    let statuses = vec![dummy_status(), dummy_status()];
    storage.store_device_statuses_batch(statuses).unwrap();
    assert_eq!(storage.fetch_pending_device_statuses().len(), 2);
}

#[test]
fn memory_get_stats() {
    let mut storage = MemoryStorage::new();

    let stats = storage.get_stats();
    assert_eq!(stats.sensor_readings_total, 0);
    assert_eq!(stats.device_statuses_total, 0);

    storage.store_sensor_reading(dummy_reading()).unwrap();
    storage.store_sensor_reading(dummy_reading()).unwrap();
    storage.store_device_status(dummy_status()).unwrap();

    let stats = storage.get_stats();
    assert_eq!(stats.sensor_readings_total, 2);
    assert_eq!(stats.sensor_readings_pending, 2);
    assert_eq!(stats.sensor_readings_uploaded, 0);
    assert_eq!(stats.device_statuses_total, 1);
    assert_eq!(stats.device_statuses_pending, 1);
    assert_eq!(stats.device_statuses_uploaded, 0);

    let reading = dummy_reading();
    let reading_id = reading.id;
    storage.store_sensor_reading(reading).unwrap();
    storage.mark_sensor_readings_uploaded(&[reading_id]);

    let stats = storage.get_stats();
    assert_eq!(stats.sensor_readings_total, 3);
    assert_eq!(stats.sensor_readings_pending, 2);
    assert_eq!(stats.sensor_readings_uploaded, 1);
}

#[test]
fn memory_cleanup_uploaded() {
    let mut storage = MemoryStorage::new();
    let reading1 = dummy_reading();
    let reading2 = dummy_reading();
    let reading3 = dummy_reading();
    let id1 = reading1.id;
    let id2 = reading2.id;

    storage.store_sensor_reading(reading1).unwrap();
    storage.store_sensor_reading(reading2).unwrap();
    storage.store_sensor_reading(reading3).unwrap();
    storage.store_device_status(dummy_status()).unwrap();

    storage.mark_sensor_readings_uploaded(&[id1, id2]);

    let stats_before = storage.get_stats();
    assert_eq!(stats_before.sensor_readings_total, 3);
    assert_eq!(stats_before.sensor_readings_uploaded, 2);

    let cleanup = storage.cleanup_uploaded(0);
    assert_eq!(cleanup.sensor_readings_deleted, 2);
    assert_eq!(cleanup.device_statuses_deleted, 0);

    let stats_after = storage.get_stats();
    assert_eq!(stats_after.sensor_readings_total, 1);
    assert_eq!(stats_after.sensor_readings_pending, 1);
    assert_eq!(stats_after.sensor_readings_uploaded, 0);
}

#[test]
fn memory_zero_duration_cleanup() {
    let mut storage = MemoryStorage::new();
    let reading = dummy_reading();
    let reading_id = reading.id;
    storage.store_sensor_reading(reading).unwrap();
    storage.mark_sensor_readings_uploaded(&[reading_id]);

    let cleanup = storage.cleanup_uploaded(0);
    assert_eq!(cleanup.sensor_readings_deleted, 1);
    assert_eq!(cleanup.device_statuses_deleted, 0);

    let stats = storage.get_stats();
    assert_eq!(stats.sensor_readings_total, 0);
    assert_eq!(stats.sensor_readings_uploaded, 0);
}

#[test]
fn memory_batch_mark_uploaded() {
    let mut storage = MemoryStorage::new();
    let reading1 = dummy_reading();
    let reading2 = dummy_reading();
    let reading3 = dummy_reading();
    let id1 = reading1.id;
    let id2 = reading2.id;
    let id3 = reading3.id;

    storage.store_sensor_reading(reading1).unwrap();
    storage.store_sensor_reading(reading2).unwrap();
    storage.store_sensor_reading(reading3).unwrap();

    storage.mark_sensor_readings_uploaded(&[id1, id2]);

    let pending = storage.fetch_pending_sensor_readings();
    assert_eq!(pending.len(), 1);
    assert_eq!(pending[0].id, id3);
}

#[test]
fn memory_empty_ids_and_batches() {
    let mut storage = MemoryStorage::new();
    storage.store_sensor_reading(dummy_reading()).unwrap();
    storage.mark_sensor_readings_uploaded(&[]);
    storage.mark_device_statuses_uploaded(&[]);
    storage.store_sensor_readings_batch(Vec::new()).unwrap();
    storage.store_device_statuses_batch(Vec::new()).unwrap();
    let stats = storage.get_stats();
    assert_eq!(stats.sensor_readings_total, 1);
    assert_eq!(stats.sensor_readings_pending, 1);
    assert_eq!(stats.device_statuses_total, 0);
}

#[test]
fn memory_time_based_cleanup() {
    let mut storage = MemoryStorage::new();
    let reading1 = dummy_reading();
    let id1 = reading1.id;
    storage.store_sensor_reading(reading1).unwrap();
    storage.mark_sensor_readings_uploaded_at(&[id1], 10_000);

    let reading2 = dummy_reading();
    let id2 = reading2.id;
    storage.store_sensor_reading(reading2).unwrap();
    storage.mark_sensor_readings_uploaded_at(&[id2], 12_000);

    // 2000 ms and 0 ms old at 12_000: only the first is at least 1500 ms old.
    let cleanup = storage.cleanup_uploaded_at(1500, 12_000);
    assert_eq!(cleanup.sensor_readings_deleted, 1);

    let stats = storage.get_stats();
    assert_eq!(stats.sensor_readings_total, 1);
    assert_eq!(stats.sensor_readings_uploaded, 1);
}

#[test]
fn memory_cleanup_only_affects_uploaded() {
    let mut storage = MemoryStorage::new();
    let reading1 = dummy_reading();
    let reading2 = dummy_reading();
    let reading3 = dummy_reading();
    let status1 = dummy_status();
    let id1 = reading1.id;
    let id2 = reading2.id;
    let status_id1 = status1.id;

    storage.store_sensor_reading(reading1).unwrap();
    storage.store_sensor_reading(reading2).unwrap();
    storage.store_sensor_reading(reading3).unwrap();
    storage.store_device_status(status1).unwrap();

    storage.mark_sensor_readings_uploaded(&[id1, id2]);
    storage.mark_device_statuses_uploaded(&[status_id1]);

    let cleanup = storage.cleanup_uploaded(0);
    assert_eq!(cleanup.sensor_readings_deleted, 2);
    assert_eq!(cleanup.device_statuses_deleted, 1);

    let stats = storage.get_stats();
    assert_eq!(stats.sensor_readings_total, 1);
    assert_eq!(stats.sensor_readings_pending, 1);
    assert_eq!(stats.sensor_readings_uploaded, 0);
    assert_eq!(stats.device_statuses_total, 0);
    assert_eq!(stats.device_statuses_pending, 0);
    assert_eq!(stats.device_statuses_uploaded, 0);
}

#[test]
fn store_rejects_duplicate_id() {
    let mut storage = MemoryStorage::new();
    let reading = reading_with_id(7);
    storage.store_sensor_reading(reading).unwrap();
    storage.mark_sensor_readings_uploaded_at(&[ReadingId(7)], 100);
    assert_eq!(
        storage.store_sensor_reading(reading_with_id(7)),
        Err(StorageError::DuplicateId(7))
    );
    // The uploaded record is not turned back into a pending one.
    assert_eq!(storage.fetch_pending_sensor_readings().len(), 0);
    assert_eq!(storage.get_stats().sensor_readings_uploaded, 1);
}

#[test]
fn batch_store_is_all_or_nothing() {
    let mut storage = MemoryStorage::new();
    storage.store_sensor_reading(reading_with_id(2)).unwrap();
    let batch = vec![reading_with_id(1), reading_with_id(2), reading_with_id(3)];
    assert_eq!(storage.store_sensor_readings_batch(batch), Err(StorageError::DuplicateId(2)));
    assert_eq!(storage.get_stats().sensor_readings_total, 1);

    let repeated = vec![reading_with_id(4), reading_with_id(4)];
    assert!(storage.store_sensor_readings_batch(repeated).is_err());
    assert_eq!(storage.get_stats().sensor_readings_total, 1);
}

#[test]
fn fetch_pending_keeps_store_order_and_content() {
    let mut storage = MemoryStorage::new();
    let mut status = dummy_status();
    status.errors = vec![DeviceError {
        code: DeviceErrorCode::LowBattery,
        message: Some("Battery below 20%".to_string()),
    }];
    let status_id = status.id;
    storage.store_device_status(status).unwrap();
    for id in [30u128, 10, 20] {
        storage.store_sensor_reading(reading_with_id(id)).unwrap();
    }
    let ids: Vec<u128> = storage.fetch_pending_sensor_readings().iter().map(|r| r.id.0).collect();
    assert_eq!(ids, vec![30, 10, 20]);
    let statuses = storage.fetch_pending_device_statuses();
    assert_eq!(statuses[0].id, status_id);
    assert_eq!(statuses[0].errors.len(), 1);
    assert_eq!(statuses[0].errors[0].message.as_deref(), Some("Battery below 20%"));
}

#[test]
fn mark_uploaded_twice_is_idempotent() {
    let mut storage = MemoryStorage::new();
    storage.store_sensor_reading(reading_with_id(1)).unwrap();
    storage.store_sensor_reading(reading_with_id(2)).unwrap();
    storage.mark_sensor_readings_uploaded_at(&[ReadingId(1), ReadingId(99)], 1_000);
    let once = storage.get_stats();
    storage.mark_sensor_readings_uploaded_at(&[ReadingId(1), ReadingId(99)], 5_000);
    assert_eq!(storage.get_stats(), once);
    // The first stamp stands: at 2_400 the record is 1_400 ms old, not due.
    assert_eq!(storage.cleanup_uploaded_at(1_500, 2_400).sensor_readings_deleted, 0);
    assert_eq!(storage.cleanup_uploaded_at(1_500, 2_500).sensor_readings_deleted, 1);
}

#[test]
fn unmarked_records_stay_pending_through_cleanup() {
    let mut storage = MemoryStorage::new();
    for id in 1u128..=4 {
        storage.store_sensor_reading(reading_with_id(id)).unwrap();
    }
    storage.mark_sensor_readings_uploaded_at(&[ReadingId(2), ReadingId(4)], 0);
    storage.cleanup_uploaded_at(0, 0);
    storage.store_sensor_reading(reading_with_id(5)).unwrap();
    storage.cleanup_uploaded_at(1, 1_000_000);
    let ids: Vec<u128> = storage.fetch_pending_sensor_readings().iter().map(|r| r.id.0).collect();
    assert_eq!(ids, vec![1, 3, 5]);
}

#[test]
fn three_reading_scenario() {
    let mut storage = MemoryStorage::new();
    let (r1, r2, r3) = (ReadingId(fresh()), ReadingId(fresh()), ReadingId(fresh()));
    for id in [r1, r2, r3] {
        storage.store_sensor_reading(reading_with_id(id.0)).unwrap();
    }
    assert_eq!(storage.fetch_pending_sensor_readings().len(), 3);

    storage.mark_sensor_readings_uploaded(&[r1, r2]);
    let pending = storage.fetch_pending_sensor_readings();
    assert_eq!(pending.len(), 1);
    assert_eq!(pending[0].id, r3);

    let stats = storage.get_stats();
    assert_eq!(
        (stats.sensor_readings_total, stats.sensor_readings_pending, stats.sensor_readings_uploaded),
        (3, 1, 2)
    );

    let cleanup = storage.cleanup_uploaded(0);
    assert_eq!(cleanup.sensor_readings_deleted, 2);

    let stats = storage.get_stats();
    assert_eq!(
        (stats.sensor_readings_total, stats.sensor_readings_pending, stats.sensor_readings_uploaded),
        (1, 1, 0)
    );
}

#[test]
fn memory_persistence_across_instances() {
    let rows = {
        let mut storage = MemoryStorage::new();
        storage.store_sensor_reading(reading_with_id(1)).unwrap();
        storage.store_sensor_reading(reading_with_id(2)).unwrap();
        storage.store_device_status(dummy_status()).unwrap();
        storage.mark_sensor_readings_uploaded_at(&[ReadingId(1)], 500);
        storage.snapshot()
    };
    // The first instance is gone; a new one reads the rows back.
    let (readings, statuses) = rows;
    let mut restarted = MemoryStorage::restore(readings, statuses).unwrap();
    let pending: Vec<u128> = restarted.fetch_pending_sensor_readings().iter().map(|r| r.id.0).collect();
    assert_eq!(pending, vec![2]);
    assert_eq!(restarted.fetch_pending_device_statuses().len(), 1);
    // The upload time survived too: 1000 ms after it, a 1000 ms window purges it.
    assert_eq!(restarted.cleanup_uploaded_at(1000, 1499).sensor_readings_deleted, 0);
    assert_eq!(restarted.cleanup_uploaded_at(1000, 1500).sensor_readings_deleted, 1);
}

#[test]
fn restore_rejects_inconsistent_rows() {
    let dup = vec![
        Stored { record: reading_with_id(3), state: StorageState::Pending, uploaded_at: None },
        Stored { record: reading_with_id(3), state: StorageState::Pending, uploaded_at: None },
    ];
    assert_eq!(MemoryStorage::restore(dup, Vec::new()).err(), Some(StorageError::DuplicateId(3)));
    let stamped_pending =
        vec![Stored { record: reading_with_id(4), state: StorageState::Pending, uploaded_at: Some(9) }];
    assert!(matches!(
        MemoryStorage::restore(stamped_pending, Vec::new()),
        Err(StorageError::Internal(_))
    ));
    let default_storage = MemoryStorage::default();
    assert_eq!(default_storage.get_stats().sensor_readings_total, 0);
}
