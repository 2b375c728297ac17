use abiogenesis::providers::{SystemTimeProvider, TimeProvider};

#[test]
fn system_clock_reads_after_the_epoch() {
    let provider = SystemTimeProvider;
    let timestamp = provider.now();
    // 2020-01-01T00:00:00Z
    assert!(timestamp > 1_577_836_800);
}
