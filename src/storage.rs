//! The in-memory reference backend of the durable local queue: one record
//! queue for sensor readings and one for device statuses.

use vstd::prelude::*;
use crate::model::{DeviceStatus, DeviceStatusView, ReadingId, SensorReading, StatusId};
use crate::queue::{
    count_in, entries_of, marked, pending_of, retained, views, well_formed, Entry, Record,
    RecordQueue, StorageError, StorageState,
};

verus! {

impl Record for SensorReading {
    open spec fn key_of(v: SensorReading) -> u128 {
        v.id.0
    }

    fn key(&self) -> (r: u128) {
        self.id.0
    }

    fn duplicate(&self) -> (r: SensorReading) {
        *self
    }
}

impl Record for DeviceStatus {
    open spec fn key_of(v: DeviceStatusView) -> u128 {
        v.id.0
    }

    fn key(&self) -> (r: u128) {
        self.id.0
    }

    fn duplicate(&self) -> (r: DeviceStatus) {
        DeviceStatus {
            id: self.id,
            device_id: self.device_id,
            dispatcher_id: self.dispatcher_id,
            battery_percent: self.battery_percent,
            uptime_seconds: self.uptime_seconds,
            signal_rssi: self.signal_rssi,
            errors: crate::model::duplicate_errors(&self.errors),
            timestamp: self.timestamp,
        }
    }
}

/// Relies on `jiff::Timestamp::now` and `Timestamp::as_millisecond`: the
/// system clock, in whole milliseconds since the Unix epoch. Nothing is
/// promised of the value.
#[verifier::external_body]
pub(crate) fn now_millis() -> i64 {
    jiff::Timestamp::now().as_millisecond()
}

/// Counts of stored records by state, per record kind.
#[derive(Clone, Copy, Debug, PartialEq, Eq, Structural)]
pub struct StorageStats {
    pub sensor_readings_total: usize,
    pub sensor_readings_pending: usize,
    pub sensor_readings_uploaded: usize,
    pub device_statuses_total: usize,
    pub device_statuses_pending: usize,
    pub device_statuses_uploaded: usize,
}

/// How many records a purge deleted, per record kind.
#[derive(Clone, Copy, Debug, PartialEq, Eq, Structural)]
pub struct CleanupStats {
    pub sensor_readings_deleted: usize,
    pub device_statuses_deleted: usize,
}

pub type StoredSensorReading = crate::queue::Stored<SensorReading>;

pub type StoredDeviceStatus = crate::queue::Stored<DeviceStatus>;

/// The numeric ids of a list of reading ids.
pub open spec fn reading_keys(ids: Seq<ReadingId>) -> Seq<u128> {
    ids.map_values(|x: ReadingId| x.0)
}

/// The numeric ids of a list of status ids.
pub open spec fn status_keys(ids: Seq<StatusId>) -> Seq<u128> {
    ids.map_values(|x: StatusId| x.0)
}

/// The in-memory backend: both record queues, owned by one value.
pub struct MemoryStorage {
    sensor_readings: RecordQueue<SensorReading>,
    device_statuses: RecordQueue<DeviceStatus>,
}

fn reading_ids_to_keys(ids: &[ReadingId]) -> (r: Vec<u128>)
    ensures
        r@ == reading_keys(ids@),
{
    let mut r: Vec<u128> = Vec::new();
    let mut i: usize = 0;
    while i < ids.len()
        invariant
            i <= ids@.len(),
            r@ == reading_keys(ids@.subrange(0, i as int)),
        decreases ids.len() - i,
    {
        r.push(ids[i].0);
        i = i + 1;
        assert(r@ =~= reading_keys(ids@.subrange(0, i as int)));
    }
    assert(ids@.subrange(0, ids@.len() as int) =~= ids@);
    r
}

fn status_ids_to_keys(ids: &[StatusId]) -> (r: Vec<u128>)
    ensures
        r@ == status_keys(ids@),
{
    let mut r: Vec<u128> = Vec::new();
    let mut i: usize = 0;
    while i < ids.len()
        invariant
            i <= ids@.len(),
            r@ == status_keys(ids@.subrange(0, i as int)),
        decreases ids.len() - i,
    {
        r.push(ids[i].0);
        i = i + 1;
        assert(r@ =~= status_keys(ids@.subrange(0, i as int)));
    }
    assert(ids@.subrange(0, ids@.len() as int) =~= ids@);
    r
}

impl MemoryStorage {
    pub closed spec fn readings(&self) -> Seq<Entry<SensorReading>> {
        self.sensor_readings@
    }

    pub closed spec fn statuses(&self) -> Seq<Entry<DeviceStatusView>> {
        self.device_statuses@
    }

    /// Within each kind no two records share an id, and a record carries an
    /// upload time exactly when it is uploaded.
    pub open spec fn wf(&self) -> bool {
        well_formed::<SensorReading>(self.readings()) && well_formed::<DeviceStatus>(
            self.statuses(),
        )
    }

    /// An empty store.
    pub fn new() -> (s: Self)
        ensures
            s.wf(),
            s.readings() == Seq::<Entry<SensorReading>>::empty(),
            s.statuses() == Seq::<Entry<DeviceStatusView>>::empty(),
    {
        MemoryStorage { sensor_readings: RecordQueue::new(), device_statuses: RecordQueue::new() }
    }

    /// Stores a reading as pending; fails, changing nothing, when its id is
    /// already stored.
    pub fn store_sensor_reading(&mut self, reading: SensorReading) -> (r: Result<(), StorageError>)
        requires
            old(self).wf(),
        ensures
            final(self).wf(),
            final(self).statuses() == old(self).statuses(),
            r is Ok <==> !crate::queue::has_key::<SensorReading>(old(self).readings(), reading.id.0),
            r is Ok ==> final(self).readings() == old(self).readings().push(
                crate::queue::pending_entry(reading),
            ),
            r is Err ==> final(self).readings() == old(self).readings() && r == Err::<
                (),
                StorageError,
            >(StorageError::DuplicateId(reading.id.0)),
    {
        self.sensor_readings.store(reading)
    }

    /// Stores a status as pending; fails, changing nothing, when its id is
    /// already stored.
    pub fn store_device_status(&mut self, status: DeviceStatus) -> (r: Result<(), StorageError>)
        requires
            old(self).wf(),
        ensures
            final(self).wf(),
            final(self).readings() == old(self).readings(),
            r is Ok <==> !crate::queue::has_key::<DeviceStatus>(old(self).statuses(), status.id.0),
            r is Ok ==> final(self).statuses() == old(self).statuses().push(
                crate::queue::pending_entry(status@),
            ),
            r is Err ==> final(self).statuses() == old(self).statuses() && r == Err::<
                (),
                StorageError,
            >(StorageError::DuplicateId(status.id.0)),
    {
        self.device_statuses.store(status)
    }

    /// Stores all readings of `batch` as pending, or none of them.
    pub fn store_sensor_readings_batch(&mut self, batch: Vec<SensorReading>) -> (r: Result<
        (),
        StorageError,
    >)
        requires
            old(self).wf(),
        ensures
            final(self).wf(),
            final(self).statuses() == old(self).statuses(),
            r is Ok <==> crate::queue::batch_fresh::<SensorReading>(old(self).readings(), views(batch@)),
            r is Ok ==> final(self).readings() == old(self).readings() + views(batch@).map_values(
                |v: SensorReading| crate::queue::pending_entry(v),
            ),
            r is Err ==> final(self).readings() == old(self).readings(),
    {
        self.sensor_readings.store_batch(batch)
    }

    /// Stores all statuses of `batch` as pending, or none of them.
    pub fn store_device_statuses_batch(&mut self, batch: Vec<DeviceStatus>) -> (r: Result<
        (),
        StorageError,
    >)
        requires
            old(self).wf(),
        ensures
            final(self).wf(),
            final(self).readings() == old(self).readings(),
            r is Ok <==> crate::queue::batch_fresh::<DeviceStatus>(old(self).statuses(), views(batch@)),
            r is Ok ==> final(self).statuses() == old(self).statuses() + views(batch@).map_values(
                |v: DeviceStatusView| crate::queue::pending_entry(v),
            ),
            r is Err ==> final(self).statuses() == old(self).statuses(),
    {
        self.device_statuses.store_batch(batch)
    }

    /// The readings still pending upload, in the order they were stored.
    pub fn fetch_pending_sensor_readings(&self) -> (r: Vec<SensorReading>)
        ensures
            views(r@) == pending_of(self.readings()),
    {
        self.sensor_readings.fetch_pending()
    }

    /// The statuses still pending upload, in the order they were stored.
    pub fn fetch_pending_device_statuses(&self) -> (r: Vec<DeviceStatus>)
        ensures
            views(r@) == pending_of(self.statuses()),
    {
        self.device_statuses.fetch_pending()
    }

    /// Marks the named pending readings uploaded at `now`. Unknown or
    /// already uploaded ids change nothing.
    pub fn mark_sensor_readings_uploaded_at(&mut self, ids: &[ReadingId], now: i64)
        requires
            old(self).wf(),
        ensures
            final(self).wf(),
            final(self).statuses() == old(self).statuses(),
            final(self).readings() == marked::<SensorReading>(
                old(self).readings(),
                reading_keys(ids@),
                now,
            ),
    {
        let keys = reading_ids_to_keys(ids);
        self.sensor_readings.mark_uploaded_at(keys.as_slice(), now);
    }

    /// Marks the named pending statuses uploaded at `now`. Unknown or
    /// already uploaded ids change nothing.
    pub fn mark_device_statuses_uploaded_at(&mut self, ids: &[StatusId], now: i64)
        requires
            old(self).wf(),
        ensures
            final(self).wf(),
            final(self).readings() == old(self).readings(),
            final(self).statuses() == marked::<DeviceStatus>(
                old(self).statuses(),
                status_keys(ids@),
                now,
            ),
    {
        let keys = status_ids_to_keys(ids);
        self.device_statuses.mark_uploaded_at(keys.as_slice(), now);
    }

    /// Marks the named pending readings uploaded, stamped with the clock.
    pub fn mark_sensor_readings_uploaded(&mut self, ids: &[ReadingId])
        requires
            old(self).wf(),
        ensures
            final(self).wf(),
            final(self).statuses() == old(self).statuses(),
            exists|now: i64|
                final(self).readings() == marked::<SensorReading>(
                    old(self).readings(),
                    reading_keys(ids@),
                    now,
                ),
    {
        let now = now_millis();
        self.mark_sensor_readings_uploaded_at(ids, now);
    }

    /// Marks the named pending statuses uploaded, stamped with the clock.
    pub fn mark_device_statuses_uploaded(&mut self, ids: &[StatusId])
        requires
            old(self).wf(),
        ensures
            final(self).wf(),
            final(self).readings() == old(self).readings(),
            exists|now: i64|
                final(self).statuses() == marked::<DeviceStatus>(
                    old(self).statuses(),
                    status_keys(ids@),
                    now,
                ),
    {
        let now = now_millis();
        self.mark_device_statuses_uploaded_at(ids, now);
    }

    /// Total, pending and uploaded counts of each record kind.
    pub fn get_stats(&self) -> (r: StorageStats)
        ensures
            r.sensor_readings_total == self.readings().len(),
            r.sensor_readings_pending == count_in(self.readings(), StorageState::Pending),
            r.sensor_readings_uploaded == count_in(self.readings(), StorageState::Uploaded),
            r.device_statuses_total == self.statuses().len(),
            r.device_statuses_pending == count_in(self.statuses(), StorageState::Pending),
            r.device_statuses_uploaded == count_in(self.statuses(), StorageState::Uploaded),
    {
        StorageStats {
            sensor_readings_total: self.sensor_readings.len(),
            sensor_readings_pending: self.sensor_readings.count(StorageState::Pending),
            sensor_readings_uploaded: self.sensor_readings.count(StorageState::Uploaded),
            device_statuses_total: self.device_statuses.len(),
            device_statuses_pending: self.device_statuses.count(StorageState::Pending),
            device_statuses_uploaded: self.device_statuses.count(StorageState::Uploaded),
        }
    }

    /// Deletes the uploaded records of both kinds that are due as of `now`:
    /// all of them when `older_than_ms` is zero, otherwise those uploaded at
    /// least `older_than_ms` milliseconds before `now`. Pending records stay.
    pub fn cleanup_uploaded_at(&mut self, older_than_ms: u64, now: i64) -> (r: CleanupStats)
        requires
            old(self).wf(),
        ensures
            final(self).wf(),
            final(self).readings() == retained(old(self).readings(), older_than_ms, now),
            final(self).statuses() == retained(old(self).statuses(), older_than_ms, now),
            r.sensor_readings_deleted == old(self).readings().len() - final(self).readings().len(),
            r.device_statuses_deleted == old(self).statuses().len() - final(self).statuses().len(),
    {
        let sensor_readings_deleted = self.sensor_readings.cleanup_at(older_than_ms, now);
        let device_statuses_deleted = self.device_statuses.cleanup_at(older_than_ms, now);
        CleanupStats { sensor_readings_deleted, device_statuses_deleted }
    }

    /// Deletes the due uploaded records as of the clock's current time.
    pub fn cleanup_uploaded(&mut self, older_than_ms: u64) -> (r: CleanupStats)
        requires
            old(self).wf(),
        ensures
            final(self).wf(),
            exists|now: i64|
                {
                    &&& final(self).readings() == retained(old(self).readings(), older_than_ms, now)
                    &&& final(self).statuses() == retained(
                        old(self).statuses(),
                        older_than_ms,
                        now,
                    )
                },
            r.sensor_readings_deleted == old(self).readings().len() - final(self).readings().len(),
            r.device_statuses_deleted == old(self).statuses().len() - final(self).statuses().len(),
    {
        let now = now_millis();
        self.cleanup_uploaded_at(older_than_ms, now)
    }

    /// The rows of both record kinds, as a persistent backend keeps them.
    pub fn snapshot(&self) -> (r: (Vec<StoredSensorReading>, Vec<StoredDeviceStatus>))
        ensures
            entries_of(r.0@) == self.readings(),
            entries_of(r.1@) == self.statuses(),
    {
        (self.sensor_readings.snapshot(), self.device_statuses.snapshot())
    }

    /// A store holding the given rows, as after a restart that reads them
    /// back. Fails when the rows of a kind repeat an id or carry an upload
    /// time that does not match their state.
    pub fn restore(
        readings: Vec<StoredSensorReading>,
        statuses: Vec<StoredDeviceStatus>,
    ) -> (r: Result<MemoryStorage, StorageError>)
        ensures
            r is Ok <==> (well_formed::<SensorReading>(entries_of(readings@)) && well_formed::<
                DeviceStatus,
            >(entries_of(statuses@))),
            r matches Ok(s) ==> s.wf() && s.readings() == entries_of(readings@) && s.statuses()
                == entries_of(statuses@),
    {
        let sensor_readings = match RecordQueue::restore(readings) {
            Ok(q) => q,
            Err(e) => {
                return Err(e);
            },
        };
        let device_statuses = match RecordQueue::restore(statuses) {
            Ok(q) => q,
            Err(e) => {
                return Err(e);
            },
        };
        Ok(MemoryStorage { sensor_readings, device_statuses })
    }
}

impl Default for MemoryStorage {
    fn default() -> (s: Self)
        ensures
            s.wf(),
            s.readings() == Seq::<Entry<SensorReading>>::empty(),
            s.statuses() == Seq::<Entry<DeviceStatusView>>::empty(),
    {
        MemoryStorage::new()
    }
}

} // verus!
