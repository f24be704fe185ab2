use certstream_server::memstats::{record, report, HeapReadings, HeapUsage};

#[test]
fn default_heap_usage_is_zeroed() {
    let usage = HeapUsage::default();
    assert_eq!(usage.allocated, 0);
    assert_eq!(usage.resident, 0);
}

#[test]
fn heap_usage_is_copy_and_debuggable() {
    let usage = HeapUsage {
        allocated: 42,
        resident: 100,
    };
    let copied = usage;
    assert_eq!(copied.allocated, 42);
    assert_eq!(copied.resident, 100);
    assert!(format!("{usage:?}").contains("42"));
}

#[test]
fn record_reads_jemalloc_stats() {
    let mut gauges = Vec::new();
    let mut refusal = None;
    let usage = record(&mut gauges, &mut refusal).expect("jemalloc stats should be readable");
    assert!(refusal.is_none());
    let shown = |name: &str| gauges.iter().find(|g| g.name == name).map(|g| g.value);
    assert_eq!(
        usage.allocated,
        shown("certstream_jemalloc_allocated_bytes").unwrap_or(0)
    );
    assert_eq!(
        usage.resident,
        shown("certstream_jemalloc_resident_bytes").unwrap_or(0)
    );
}

#[test]
fn each_jemalloc_figure_is_its_own() {
    let mut gauges = Vec::new();
    record(&mut gauges, &mut None).expect("jemalloc stats should be readable");
    let shown: Vec<&str> = gauges.iter().map(|g| g.name).collect();
    assert_eq!(
        shown,
        [
            "certstream_jemalloc_allocated_bytes",
            "certstream_jemalloc_resident_bytes",
            "certstream_jemalloc_active_bytes",
            "certstream_jemalloc_mapped_bytes",
            "certstream_jemalloc_retained_bytes",
            "certstream_jemalloc_metadata_bytes",
        ]
    );
    // What is active backs what is allocated, and is resident along with the metadata.
    assert!(gauges[2].value >= gauges[0].value);
    assert!(gauges[1].value > 0 && gauges[5].value > 0);
}

#[test]
fn record_is_none_on_msvc() {
    let mut gauges = Vec::new();
    assert!(report(None, &mut gauges).is_none());
    assert!(gauges.is_empty());
}

#[test]
fn a_missing_figure_counts_as_zero_and_sets_no_gauge() {
    let mut gauges = Vec::new();
    let usage = report(
        Some(HeapReadings {
            allocated: Some(10),
            resident: None,
            active: Some(20),
            mapped: None,
            retained: None,
            metadata: Some(30),
        }),
        &mut gauges,
    )
    .unwrap();
    assert_eq!(usage.allocated, 10);
    assert_eq!(usage.resident, 0);
    let shown: Vec<(&str, u64)> = gauges.iter().map(|g| (g.name, g.value)).collect();
    assert_eq!(
        shown,
        [
            ("certstream_jemalloc_allocated_bytes", 10),
            ("certstream_jemalloc_active_bytes", 20),
            ("certstream_jemalloc_metadata_bytes", 30),
        ]
    );
}
