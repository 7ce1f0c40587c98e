use ersha::registry_api::{
    DeviceQuerySortBy, ListDevicesQueryBuilder, ListDispatchersQueryBuilder, QuerySortOrder,
    StateFilter,
};

#[test]
fn dispatcher_query_builder_sets_fields() {
    let q = ListDispatchersQueryBuilder::new()
        .state(StateFilter::Active)
        .location(0x8a2a1072b59ffff)
        .sort_order(QuerySortOrder::Asc)
        .offset(10)
        .limit(20)
        .after("01D39ZY06FGSCTVN4T2V9PKHFZ".to_string())
        .build();
    assert_eq!(q.state, Some(StateFilter::Active));
    assert_eq!(q.location, Some(0x8a2a1072b59ffff));
    assert_eq!(q.sort_order, Some(QuerySortOrder::Asc));
    assert_eq!(q.offset, Some(10));
    assert_eq!(q.limit, Some(20));
    assert_eq!(q.after.as_deref(), Some("01D39ZY06FGSCTVN4T2V9PKHFZ"));
}

#[test]
fn empty_dispatcher_query() {
    let q = ListDispatchersQueryBuilder::new().build();
    assert!(q.state.is_none() && q.location.is_none() && q.sort_order.is_none());
    assert!(q.offset.is_none() && q.limit.is_none() && q.after.is_none());
}

#[test]
fn device_query_builder_sets_fields() {
    let q = ListDevicesQueryBuilder::new()
        .state(StateFilter::Suspended)
        .location(5)
        .manufacturer("acme".to_string())
        .provisioned_after("2024-01-01T00:00:00Z".to_string())
        .provisioned_before("2025-01-01T00:00:00Z".to_string())
        .sort_by(DeviceQuerySortBy::SensorCount)
        .sort_order(QuerySortOrder::Desc)
        .offset(3)
        .limit(100)
        .build();
    assert_eq!(q.state, Some(StateFilter::Suspended));
    assert_eq!(q.location, Some(5));
    assert_eq!(q.manufacturer.as_deref(), Some("acme"));
    assert_eq!(q.provisioned_after.as_deref(), Some("2024-01-01T00:00:00Z"));
    assert_eq!(q.provisioned_before.as_deref(), Some("2025-01-01T00:00:00Z"));
    assert_eq!(q.sort_by, Some(DeviceQuerySortBy::SensorCount));
    assert_eq!(q.sort_order, Some(QuerySortOrder::Desc));
    assert_eq!(q.offset, Some(3));
    assert_eq!(q.limit, Some(100));
    assert!(q.after.is_none());
}
