//! The request and response shapes of the registry service's HTTP API, as a
//! dispatcher or an operator tool sees them, and builders for its list
//! queries.

use vstd::prelude::*;
use crate::model::DispatcherState;

verus! {

/// A state to filter on.
#[derive(Clone, Copy, Debug, PartialEq, Eq, Structural)]
pub enum StateFilter {
    Active,
    Suspended,
}

/// The direction of a sorted listing.
#[derive(Clone, Copy, Debug, PartialEq, Eq, Structural)]
pub enum QuerySortOrder {
    Asc,
    Desc,
}

/// A field to sort devices by.
#[derive(Clone, Copy, Debug, PartialEq, Eq, Structural)]
pub enum DeviceQuerySortBy {
    State,
    Manufacturer,
    ProvisionedAt,
    SensorCount,
}

/// Query parameters for listing dispatchers; unset fields are not sent.
pub struct ListDispatchersQuery {
    pub state: Option<StateFilter>,
    pub location: Option<u64>,
    pub sort_order: Option<QuerySortOrder>,
    pub offset: Option<usize>,
    pub limit: Option<usize>,
    pub after: Option<String>,
}

/// Query parameters for listing devices; unset fields are not sent.
pub struct ListDevicesQuery {
    pub state: Option<StateFilter>,
    pub location: Option<u64>,
    pub manufacturer: Option<String>,
    pub provisioned_after: Option<String>,
    pub provisioned_before: Option<String>,
    pub sort_by: Option<DeviceQuerySortBy>,
    pub sort_order: Option<QuerySortOrder>,
    pub offset: Option<usize>,
    pub limit: Option<usize>,
    pub after: Option<String>,
}

/// Builds a `ListDispatchersQuery` one field at a time.
pub struct ListDispatchersQueryBuilder {
    query: ListDispatchersQuery,
}

impl ListDispatchersQueryBuilder {
    pub closed spec fn spec_query(&self) -> ListDispatchersQuery {
        self.query
    }

    /// A builder with every field unset.
    pub fn new() -> (r: ListDispatchersQueryBuilder)
        ensures
            r.spec_query().state is None,
            r.spec_query().location is None,
            r.spec_query().sort_order is None,
            r.spec_query().offset is None,
            r.spec_query().limit is None,
            r.spec_query().after is None,
    {
        ListDispatchersQueryBuilder {
            query: ListDispatchersQuery {
                state: None,
                location: None,
                sort_order: None,
                offset: None,
                limit: None,
                after: None,
            },
        }
    }

    /// Filter by state.
    pub fn state(self, state: StateFilter) -> (r: ListDispatchersQueryBuilder)
        ensures
            r.spec_query() == (ListDispatchersQuery { state: Some(state), ..self.spec_query() }),
    {
        ListDispatchersQueryBuilder { query: ListDispatchersQuery { state: Some(state), ..self.query } }
    }

    /// Filter by location (an H3 cell).
    pub fn location(self, location: u64) -> (r: ListDispatchersQueryBuilder)
        ensures
            r.spec_query() == (ListDispatchersQuery { location: Some(location), ..self.spec_query() }),
    {
        ListDispatchersQueryBuilder { query: ListDispatchersQuery { location: Some(location), ..self.query } }
    }

    /// Set the sort order.
    pub fn sort_order(self, order: QuerySortOrder) -> (r: ListDispatchersQueryBuilder)
        ensures
            r.spec_query() == (ListDispatchersQuery { sort_order: Some(order), ..self.spec_query() }),
    {
        ListDispatchersQueryBuilder { query: ListDispatchersQuery { sort_order: Some(order), ..self.query } }
    }

    /// Set the pagination offset.
    pub fn offset(self, offset: usize) -> (r: ListDispatchersQueryBuilder)
        ensures
            r.spec_query() == (ListDispatchersQuery { offset: Some(offset), ..self.spec_query() }),
    {
        ListDispatchersQueryBuilder { query: ListDispatchersQuery { offset: Some(offset), ..self.query } }
    }

    /// Set the pagination limit (the service caps it at 100).
    pub fn limit(self, limit: usize) -> (r: ListDispatchersQueryBuilder)
        ensures
            r.spec_query() == (ListDispatchersQuery { limit: Some(limit), ..self.spec_query() }),
    {
        ListDispatchersQueryBuilder { query: ListDispatchersQuery { limit: Some(limit), ..self.query } }
    }

    /// Set the cursor for cursor-based pagination.
    pub fn after(self, cursor: String) -> (r: ListDispatchersQueryBuilder)
        ensures
            r.spec_query() == (ListDispatchersQuery { after: Some(cursor), ..self.spec_query() }),
    {
        ListDispatchersQueryBuilder { query: ListDispatchersQuery { after: Some(cursor), ..self.query } }
    }

    /// The query built so far.
    pub fn build(self) -> (r: ListDispatchersQuery)
        ensures
            r == self.spec_query(),
    {
        self.query
    }
}

/// Builds a `ListDevicesQuery` one field at a time.
pub struct ListDevicesQueryBuilder {
    query: ListDevicesQuery,
}

impl ListDevicesQueryBuilder {
    pub closed spec fn spec_query(&self) -> ListDevicesQuery {
        self.query
    }

    /// A builder with every field unset.
    pub fn new() -> (r: ListDevicesQueryBuilder)
        ensures
            r.spec_query().state is None,
            r.spec_query().location is None,
            r.spec_query().manufacturer is None,
            r.spec_query().provisioned_after is None,
            r.spec_query().provisioned_before is None,
            r.spec_query().sort_by is None,
            r.spec_query().sort_order is None,
            r.spec_query().offset is None,
            r.spec_query().limit is None,
            r.spec_query().after is None,
    {
        ListDevicesQueryBuilder {
            query: ListDevicesQuery {
                state: None,
                location: None,
                manufacturer: None,
                provisioned_after: None,
                provisioned_before: None,
                sort_by: None,
                sort_order: None,
                offset: None,
                limit: None,
                after: None,
            },
        }
    }

    /// Filter by state.
    pub fn state(self, state: StateFilter) -> (r: ListDevicesQueryBuilder)
        ensures
            r.spec_query() == (ListDevicesQuery { state: Some(state), ..self.spec_query() }),
    {
        ListDevicesQueryBuilder { query: ListDevicesQuery { state: Some(state), ..self.query } }
    }

    /// Filter by location (an H3 cell).
    pub fn location(self, location: u64) -> (r: ListDevicesQueryBuilder)
        ensures
            r.spec_query() == (ListDevicesQuery { location: Some(location), ..self.spec_query() }),
    {
        ListDevicesQueryBuilder { query: ListDevicesQuery { location: Some(location), ..self.query } }
    }

    /// Filter by manufacturer (pattern match).
    pub fn manufacturer(self, manufacturer: String) -> (r: ListDevicesQueryBuilder)
        ensures
            r.spec_query() == (ListDevicesQuery { manufacturer: Some(manufacturer), ..self.spec_query() }),
    {
        ListDevicesQueryBuilder { query: ListDevicesQuery { manufacturer: Some(manufacturer), ..self.query } }
    }

    /// Filter by provisioning after an ISO 8601 timestamp.
    pub fn provisioned_after(self, ts: String) -> (r: ListDevicesQueryBuilder)
        ensures
            r.spec_query() == (ListDevicesQuery { provisioned_after: Some(ts), ..self.spec_query() }),
    {
        ListDevicesQueryBuilder { query: ListDevicesQuery { provisioned_after: Some(ts), ..self.query } }
    }

    /// Filter by provisioning before an ISO 8601 timestamp.
    pub fn provisioned_before(self, ts: String) -> (r: ListDevicesQueryBuilder)
        ensures
            r.spec_query() == (ListDevicesQuery { provisioned_before: Some(ts), ..self.spec_query() }),
    {
        ListDevicesQueryBuilder { query: ListDevicesQuery { provisioned_before: Some(ts), ..self.query } }
    }

    /// Set the sort field.
    pub fn sort_by(self, field: DeviceQuerySortBy) -> (r: ListDevicesQueryBuilder)
        ensures
            r.spec_query() == (ListDevicesQuery { sort_by: Some(field), ..self.spec_query() }),
    {
        ListDevicesQueryBuilder { query: ListDevicesQuery { sort_by: Some(field), ..self.query } }
    }

    /// Set the sort order.
    pub fn sort_order(self, order: QuerySortOrder) -> (r: ListDevicesQueryBuilder)
        ensures
            r.spec_query() == (ListDevicesQuery { sort_order: Some(order), ..self.spec_query() }),
    {
        ListDevicesQueryBuilder { query: ListDevicesQuery { sort_order: Some(order), ..self.query } }
    }

    /// Set the pagination offset.
    pub fn offset(self, offset: usize) -> (r: ListDevicesQueryBuilder)
        ensures
            r.spec_query() == (ListDevicesQuery { offset: Some(offset), ..self.spec_query() }),
    {
        ListDevicesQueryBuilder { query: ListDevicesQuery { offset: Some(offset), ..self.query } }
    }

    /// Set the pagination limit (the service caps it at 100).
    pub fn limit(self, limit: usize) -> (r: ListDevicesQueryBuilder)
        ensures
            r.spec_query() == (ListDevicesQuery { limit: Some(limit), ..self.spec_query() }),
    {
        ListDevicesQueryBuilder { query: ListDevicesQuery { limit: Some(limit), ..self.query } }
    }

    /// Set the cursor for cursor-based pagination.
    pub fn after(self, cursor: String) -> (r: ListDevicesQueryBuilder)
        ensures
            r.spec_query() == (ListDevicesQuery { after: Some(cursor), ..self.spec_query() }),
    {
        ListDevicesQueryBuilder { query: ListDevicesQuery { after: Some(cursor), ..self.query } }
    }

    /// The query built so far.
    pub fn build(self) -> (r: ListDevicesQuery)
        ensures
            r == self.spec_query(),
    {
        self.query
    }
}

/// A sensor as the service reports it.
pub struct SensorResponse {
    pub id: String,
    pub kind: String,
}

/// A device as the service reports it.
pub struct DeviceResponse {
    pub id: String,
    pub kind: String,
    pub state: String,
    pub location: u64,
    pub manufacturer: Option<String>,
    pub provisioned_at: String,
    pub sensors: Vec<SensorResponse>,
}

/// One page of devices.
pub struct ListDevicesResponse {
    pub devices: Vec<DeviceResponse>,
    pub total: usize,
}

/// A dispatcher as the service reports it.
pub struct DispatcherResponse {
    pub id: String,
    pub location: u64,
    pub state: String,
    pub provisioned_at: String,
}

/// One page of dispatchers.
pub struct ListDispatchersResponse {
    pub dispatchers: Vec<DispatcherResponse>,
    pub total: usize,
}

/// The registries a service instance answers from.
pub struct ApiState<D, Dev> {
    pub dispatcher_registry: D,
    pub device_registry: Dev,
}

/// A field a registry listing can be sorted by.
#[derive(Clone, Copy, Debug, PartialEq, Eq, Structural)]
pub enum SortBy {
    Id,
    ProvisionAt,
    Location,
    Manufacturer,
    State,
}

/// The direction of a registry listing.
#[derive(Clone, Copy, Debug, PartialEq, Eq, Structural)]
pub enum SortOrder {
    Asc,
    Desc,
}

/// Which slice of a listing to return.
#[derive(Clone, Copy, Debug, PartialEq, Eq, Structural)]
pub struct Pagination {
    pub offset: usize,
    pub limit: Option<usize>,
}

/// A registry listing request: what to keep, how to order it, which slice.
pub struct QueryOptions<F> {
    pub filter: F,
    pub sort_by: Option<SortBy>,
    pub sort_order: SortOrder,
    pub pagination: Pagination,
}

/// Which dispatchers a listing keeps; an unset field keeps all.
pub struct DispatcherFilter {
    pub states: Option<Vec<DispatcherState>>,
    pub locations: Option<Vec<u64>>,
}

/// Why an in-memory registry could not answer.
#[derive(Clone, Copy, Debug, PartialEq, Eq, Structural)]
pub enum InMemoryError {
    NotFound,
}

} // verus!
