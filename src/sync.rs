//! The decisions of one sync tick. A tick gathers the pending records of
//! both kinds into one batch; the caller ships it with the RPC client; the
//! outcome then decides whether exactly the records of that batch become
//! uploaded. Records stored after the batch was built are never marked by
//! it, and any failure leaves every record pending for the next tick.

use vstd::prelude::*;
use crate::client::ClientError;
use crate::message::fresh_ulid;
use crate::model::{
    BatchId, BatchUploadRequest, BatchUploadResponse, DeviceStatus, DispatcherId, ReadingId,
    SensorReading, StatusId,
};
use crate::queue::{keys_of, marked, pending_of, views};
use crate::storage::{now_millis, reading_keys, status_keys, MemoryStorage};

verus! {

/// A batch on its way upstream, with the ids it covers.
pub struct PendingBatch {
    pub request: BatchUploadRequest,
    pub reading_ids: Vec<ReadingId>,
    pub status_ids: Vec<StatusId>,
}

fn reading_ids_of(rs: &Vec<SensorReading>) -> (r: Vec<ReadingId>)
    ensures
        reading_keys(r@) == keys_of::<SensorReading>(views(rs@)),
{
    let mut r: Vec<ReadingId> = Vec::new();
    let mut i: usize = 0;
    while i < rs.len()
        invariant
            i <= rs@.len(),
            r@.len() == i,
            forall|k: int| 0 <= k < i ==> r@[k] == #[trigger] rs@[k].id,
        decreases rs.len() - i,
    {
        r.push(rs[i].id);
        i = i + 1;
    }
    assert forall|k: int| 0 <= k < r@.len() implies reading_keys(r@)[k] == keys_of::<SensorReading>(views(rs@))[k] by {
        assert(r@[k] == rs@[k].id);
        assert(views(rs@)[k] == rs@[k]@);
    }
    assert(reading_keys(r@) =~= keys_of::<SensorReading>(views(rs@)));
    r
}

fn status_ids_of(ss: &Vec<DeviceStatus>) -> (r: Vec<StatusId>)
    ensures
        status_keys(r@) == keys_of::<DeviceStatus>(views(ss@)),
{
    let mut r: Vec<StatusId> = Vec::new();
    let mut i: usize = 0;
    while i < ss.len()
        invariant
            i <= ss@.len(),
            r@.len() == i,
            forall|k: int| 0 <= k < i ==> r@[k] == #[trigger] ss@[k].id,
        decreases ss.len() - i,
    {
        r.push(ss[i].id);
        i = i + 1;
    }
    assert forall|k: int| 0 <= k < r@.len() implies status_keys(r@)[k] == keys_of::<DeviceStatus>(views(ss@))[k] by {
        assert(r@[k] == ss@[k].id);
        assert(views(ss@)[k] == ss@[k]@);
    }
    assert(status_keys(r@) =~= keys_of::<DeviceStatus>(views(ss@)));
    r
}

/// The batch of the given pending records, under id `batch_id` and stamped
/// `now`; `None` when both lists are empty. Any backend that can list its
/// pending records plans its ticks through this.
pub fn plan_batch_from(
    readings: Vec<SensorReading>,
    statuses: Vec<DeviceStatus>,
    batch_id: BatchId,
    dispatcher_id: DispatcherId,
    now: i64,
) -> (r: Option<PendingBatch>)
    ensures
        r is None <==> (readings@.len() == 0 && statuses@.len() == 0),
        r matches Some(b) ==> {
            &&& views(b.request.readings@) == views(readings@)
            &&& views(b.request.statuses@) == views(statuses@)
            &&& b.request.id == batch_id
            &&& b.request.dispatcher_id == dispatcher_id
            &&& b.request.timestamp == now
            &&& reading_keys(b.reading_ids@) == keys_of::<SensorReading>(views(readings@))
            &&& status_keys(b.status_ids@) == keys_of::<DeviceStatus>(views(statuses@))
        },
{
    if readings.len() == 0 && statuses.len() == 0 {
        return None;
    }
    let reading_ids = reading_ids_of(&readings);
    let status_ids = status_ids_of(&statuses);
    Some(
        PendingBatch {
            request: BatchUploadRequest {
                id: batch_id,
                dispatcher_id,
                readings,
                statuses,
                timestamp: now,
            },
            reading_ids,
            status_ids,
        },
    )
}

/// The batch of everything pending, under id `batch_id` and stamped `now`;
/// `None` when nothing is pending.
pub fn plan_batch_at(
    storage: &MemoryStorage,
    batch_id: BatchId,
    dispatcher_id: DispatcherId,
    now: i64,
) -> (r: Option<PendingBatch>)
    ensures
        r is None <==> (pending_of(storage.readings()).len() == 0 && pending_of(
            storage.statuses(),
        ).len() == 0),
        r matches Some(b) ==> {
            &&& views(b.request.readings@) == pending_of(storage.readings())
            &&& views(b.request.statuses@) == pending_of(storage.statuses())
            &&& b.request.id == batch_id
            &&& b.request.dispatcher_id == dispatcher_id
            &&& b.request.timestamp == now
            &&& reading_keys(b.reading_ids@) == keys_of::<SensorReading>(views(b.request.readings@))
            &&& status_keys(b.status_ids@) == keys_of::<DeviceStatus>(views(b.request.statuses@))
        },
{
    let readings = storage.fetch_pending_sensor_readings();
    let statuses = storage.fetch_pending_device_statuses();
    plan_batch_from(readings, statuses, batch_id, dispatcher_id, now)
}

/// The batch of everything pending, under a fresh id and stamped with the
/// clock; `None` when nothing is pending.
pub fn plan_batch(storage: &MemoryStorage, dispatcher_id: DispatcherId) -> (r: Option<
    PendingBatch,
>)
    ensures
        r is None <==> (pending_of(storage.readings()).len() == 0 && pending_of(
            storage.statuses(),
        ).len() == 0),
        r matches Some(b) ==> {
            &&& views(b.request.readings@) == pending_of(storage.readings())
            &&& views(b.request.statuses@) == pending_of(storage.statuses())
            &&& b.request.dispatcher_id == dispatcher_id
            &&& reading_keys(b.reading_ids@) == keys_of::<SensorReading>(views(b.request.readings@))
            &&& status_keys(b.status_ids@) == keys_of::<DeviceStatus>(views(b.request.statuses@))
        },
{
    let batch_id = BatchId(fresh_ulid());
    let now = now_millis();
    plan_batch_at(storage, batch_id, dispatcher_id, now)
}

/// Whether an upload outcome acknowledges this batch.
pub open spec fn acknowledges(
    outcome: Result<BatchUploadResponse, ClientError>,
    batch_id: BatchId,
) -> bool {
    outcome matches Ok(resp) && resp.id == batch_id
}

/// Whether `outcome` acknowledges `batch`: only then may its records be
/// marked uploaded.
pub fn is_acknowledged(
    batch: &PendingBatch,
    outcome: &Result<BatchUploadResponse, ClientError>,
) -> (r: bool)
    ensures
        r == acknowledges(*outcome, batch.request.id),
{
    match outcome {
        Ok(resp) => resp.id == batch.request.id,
        Err(_) => false,
    }
}

/// Applies the outcome of shipping `batch`: when upstream acknowledged this
/// batch, exactly its records become uploaded at `now`; on any failure,
/// including an acknowledgement of another batch, nothing changes. Returns
/// whether the batch was acknowledged.
pub fn settle_batch_at(
    storage: &mut MemoryStorage,
    batch: &PendingBatch,
    outcome: &Result<BatchUploadResponse, ClientError>,
    now: i64,
) -> (r: bool)
    requires
        old(storage).wf(),
    ensures
        final(storage).wf(),
        r == acknowledges(*outcome, batch.request.id),
        r ==> final(storage).readings() == marked::<SensorReading>(
            old(storage).readings(),
            reading_keys(batch.reading_ids@),
            now,
        ) && final(storage).statuses() == marked::<DeviceStatus>(
            old(storage).statuses(),
            status_keys(batch.status_ids@),
            now,
        ),
        !r ==> final(storage).readings() == old(storage).readings() && final(storage).statuses()
            == old(storage).statuses(),
{
    let acknowledged = is_acknowledged(batch, outcome);
    if acknowledged {
        storage.mark_sensor_readings_uploaded_at(batch.reading_ids.as_slice(), now);
        storage.mark_device_statuses_uploaded_at(batch.status_ids.as_slice(), now);
    }
    acknowledged
}

/// Applies the outcome of shipping `batch`, stamping with the clock.
pub fn settle_batch(
    storage: &mut MemoryStorage,
    batch: &PendingBatch,
    outcome: &Result<BatchUploadResponse, ClientError>,
) -> (r: bool)
    requires
        old(storage).wf(),
    ensures
        final(storage).wf(),
        r == acknowledges(*outcome, batch.request.id),
        r ==> exists|now: i64|
            {
                &&& final(storage).readings() == marked::<SensorReading>(
                    old(storage).readings(),
                    reading_keys(batch.reading_ids@),
                    now,
                )
                &&& final(storage).statuses() == marked::<DeviceStatus>(
                    old(storage).statuses(),
                    status_keys(batch.status_ids@),
                    now,
                )
            },
        !r ==> final(storage).readings() == old(storage).readings() && final(storage).statuses()
            == old(storage).statuses(),
{
    let now = now_millis();
    settle_batch_at(storage, batch, outcome, now)
}

} // verus!
