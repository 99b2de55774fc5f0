use milk_and_cookies::bucket::Bucket;

#[test]
fn bucket_starts_full_and_exhausts_after_five() {
    let mut b = Bucket::init();
    for _ in 0..5 {
        assert!(b.withdraw().is_some());
    }
    assert!(b.withdraw().is_none());
    // an empty bucket stays empty: withdrawals keep failing
    assert!(b.withdraw().is_none());
}

#[test]
fn refill_is_saturating() {
    let mut b = Bucket::init();
    // the bucket is already full, so these refills are no-ops
    for _ in 0..3 {
        b.refill();
    }
    for _ in 0..5 {
        assert!(b.withdraw().is_some());
    }
    assert!(b.withdraw().is_none());
}

#[test]
fn refill_restores_one_unit() {
    let mut b = Bucket::init();
    for _ in 0..5 {
        assert!(b.withdraw().is_some());
    }
    assert!(b.withdraw().is_none());
    b.refill();
    assert!(b.withdraw().is_some());
    assert!(b.withdraw().is_none());
}

#[test]
fn force_refill_restores_full_capacity() {
    let mut b = Bucket::init();
    assert!(b.withdraw().is_some());
    assert!(b.withdraw().is_some());
    b.force_refill();
    for _ in 0..5 {
        assert!(b.withdraw().is_some());
    }
    assert!(b.withdraw().is_none());
}

#[test]
fn force_refill_on_full_bucket_keeps_it_full() {
    let mut b = Bucket::init();
    b.force_refill();
    for _ in 0..5 {
        assert!(b.withdraw().is_some());
    }
    assert!(b.withdraw().is_none());
}
