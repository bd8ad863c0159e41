use tikv_telemetry::statistics::{
    CfStatistics, ColumnFamily, DetailTag, FlowStatistics, Statistics, COLUMN_FAMILY_COUNT,
    DETAIL_COUNT, DETAIL_TAG_COUNT,
};

fn flow(read_keys: usize, read_bytes: usize) -> FlowStatistics {
    FlowStatistics { read_keys, read_bytes }
}

fn merged(a: FlowStatistics, b: FlowStatistics) -> FlowStatistics {
    let mut out = a;
    out.add(&b);
    out
}

#[test]
fn flow_merge_adds_field_by_field() {
    assert_eq!(merged(flow(1, 100), flow(2, 50)), flow(3, 150));
}

#[test]
fn flow_merge_does_not_depend_on_the_order() {
    let a = flow(3, 1000);
    let b = flow(40, 7);
    assert_eq!(merged(a, b), merged(b, a));
    let c = flow(usize::MAX - 1, 5);
    assert_eq!(merged(merged(a, b), c), merged(a, merged(b, c)));
}

#[test]
fn flow_merge_with_zero_changes_nothing() {
    let a = flow(3, 1000);
    assert_eq!(FlowStatistics::default(), flow(0, 0));
    assert_eq!(merged(a, FlowStatistics::default()), a);
    assert_eq!(merged(FlowStatistics::default(), a), a);
}

#[test]
fn flow_merge_stops_at_the_largest_count() {
    assert_eq!(merged(flow(usize::MAX, 1), flow(1, usize::MAX)), flow(usize::MAX, usize::MAX));
    assert_eq!(merged(flow(usize::MAX - 1, 0), flow(1, 0)), flow(usize::MAX, 0));
}

fn sample() -> Statistics {
    let mut stats = Statistics::default();
    stats.data.processed = 1;
    stats.data.get = 2;
    stats.data.next = 3;
    stats.data.prev = 4;
    stats.data.seek = 5;
    stats.data.seek_for_prev = 6;
    stats.data.over_seek_bound = 7;
    stats.data.flow_stats = flow(8, 9);
    stats.lock.get = 10;
    stats.write.seek = 11;
    stats.write.flow_stats = flow(12, 13);
    stats
}

#[test]
fn statistics_start_at_zero() {
    let zero = Statistics::default();
    assert_eq!(zero.data, CfStatistics::default());
    assert_eq!(zero.lock, CfStatistics::default());
    assert_eq!(zero.write, CfStatistics::default());
    assert_eq!(CfStatistics::default().count(DetailTag::Seek), 0);
    assert_eq!(CfStatistics::default().flow_stats, flow(0, 0));
}

#[test]
fn statistics_merge_adds_every_count() {
    let mut total = sample();
    total.add(&sample());
    assert_eq!(total.data.processed, 2);
    assert_eq!(total.data.get, 4);
    assert_eq!(total.data.next, 6);
    assert_eq!(total.data.prev, 8);
    assert_eq!(total.data.seek, 10);
    assert_eq!(total.data.seek_for_prev, 12);
    assert_eq!(total.data.over_seek_bound, 14);
    assert_eq!(total.data.flow_stats, flow(16, 18));
    assert_eq!(total.lock.get, 20);
    assert_eq!(total.write.seek, 22);
    assert_eq!(total.write.flow_stats, flow(24, 26));
    assert_eq!(total.lock.seek, 0);
}

#[test]
fn statistics_merge_with_zero_changes_nothing() {
    let mut stats = sample();
    stats.add(&Statistics::default());
    assert_eq!(stats, sample());
    let mut zero = Statistics::default();
    zero.add(&sample());
    assert_eq!(zero, sample());
}

#[test]
fn statistics_merge_stops_at_the_largest_count() {
    let mut a = Statistics::default();
    a.lock.next = usize::MAX - 2;
    let mut b = Statistics::default();
    b.lock.next = 5;
    a.add(&b);
    assert_eq!(a.lock.next, usize::MAX);
}

#[test]
fn details_list_every_count_in_reporting_order() {
    let details = sample().details();
    assert_eq!(COLUMN_FAMILY_COUNT, 3);
    assert_eq!(DETAIL_TAG_COUNT, 7);
    assert_eq!(DETAIL_COUNT, 21);
    assert_eq!(details.len(), 21);
    assert_eq!(
        &details[0..7],
        &[
            (ColumnFamily::Default, DetailTag::Processed, 1),
            (ColumnFamily::Default, DetailTag::Get, 2),
            (ColumnFamily::Default, DetailTag::Next, 3),
            (ColumnFamily::Default, DetailTag::Prev, 4),
            (ColumnFamily::Default, DetailTag::Seek, 5),
            (ColumnFamily::Default, DetailTag::SeekForPrev, 6),
            (ColumnFamily::Default, DetailTag::OverSeekBound, 7),
        ]
    );
    assert_eq!(details[8], (ColumnFamily::Lock, DetailTag::Get, 10));
    assert_eq!(details[18], (ColumnFamily::Write, DetailTag::Seek, 11));
    assert_eq!(details[20], (ColumnFamily::Write, DetailTag::OverSeekBound, 0));
}

#[test]
fn the_default_column_family_holds_the_data() {
    let stats = sample();
    assert_eq!(*stats.cf(ColumnFamily::Default), stats.data);
    assert_eq!(*stats.cf(ColumnFamily::Lock), stats.lock);
    assert_eq!(*stats.cf(ColumnFamily::Write), stats.write);
    assert_eq!(stats.cf(ColumnFamily::Default).count(DetailTag::SeekForPrev), 6);
}

#[test]
fn column_family_and_tag_labels() {
    assert_eq!(ColumnFamily::Default.get_str(), "default");
    assert_eq!(ColumnFamily::Lock.get_str(), "lock");
    assert_eq!(ColumnFamily::Write.get_str(), "write");
    assert_eq!(DetailTag::Processed.get_str(), "processed");
    assert_eq!(DetailTag::Get.get_str(), "get");
    assert_eq!(DetailTag::Next.get_str(), "next");
    assert_eq!(DetailTag::Prev.get_str(), "prev");
    assert_eq!(DetailTag::Seek.get_str(), "seek");
    assert_eq!(DetailTag::SeekForPrev.get_str(), "seek_for_prev");
    assert_eq!(DetailTag::OverSeekBound.get_str(), "over_seek_bound");
}

#[test]
fn column_families_and_tags_by_position() {
    assert_eq!(ColumnFamily::from_ordinal(0), Some(ColumnFamily::Default));
    assert_eq!(ColumnFamily::from_ordinal(1), Some(ColumnFamily::Lock));
    assert_eq!(ColumnFamily::from_ordinal(2), Some(ColumnFamily::Write));
    assert_eq!(ColumnFamily::from_ordinal(3), None);
    assert_eq!(DetailTag::from_ordinal(0), Some(DetailTag::Processed));
    assert_eq!(DetailTag::from_ordinal(4), Some(DetailTag::Seek));
    assert_eq!(DetailTag::from_ordinal(6), Some(DetailTag::OverSeekBound));
    assert_eq!(DetailTag::from_ordinal(7), None);
}
