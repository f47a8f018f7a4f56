use btc_metrics::{
    is_valid_price_bits, recent, History, HistoryError, RowError, Sample, StoreError, StoredRow,
    HISTORY_LIMIT, LISTEN_PORT, MAX_FINITE_PRICE_BITS, NEGATIVE_ZERO_BITS,
    SAMPLE_INTERVAL_SECONDS,
};

fn row(id: i64, block_height: i64, price: f64) -> StoredRow {
    StoredRow { id, block_height, price_bits: price.to_bits(), timestamp: format!("ts{}", id) }
}

/// `n` rows, newest first, with ids `n` down to 1.
fn rows(n: i64) -> Vec<StoredRow> {
    (1..=n).rev().map(|i| row(i, 1000 + i, i as f64 * 0.5)).collect()
}

#[test]
fn empty_log_gives_empty_reply() {
    let (samples, fault) = recent(&Ok(vec![]), HISTORY_LIMIT);
    assert!(samples.is_empty());
    assert_eq!(fault, None);
}

#[test]
fn read_failure_gives_empty_reply() {
    let e = StoreError { message: "database is locked".to_string() };
    let (samples, fault) = recent(&Err(e.clone()), HISTORY_LIMIT);
    assert!(samples.is_empty());
    assert_eq!(fault, Some(HistoryError::Read(e)));
}

#[test]
fn reply_keeps_at_most_the_limit() {
    let all = rows(60);
    let (samples, fault) = recent(&Ok(all), HISTORY_LIMIT);
    assert_eq!(fault, None);
    assert_eq!(samples.len(), 50);
    assert_eq!(samples[0].sequence_id, 60);
    assert_eq!(samples[49].sequence_id, 11);
    for w in samples.windows(2) {
        assert!(w[0].sequence_id > w[1].sequence_id);
    }
    let (few, _) = recent(&Ok(rows(3)), HISTORY_LIMIT);
    assert_eq!(few.len(), 3);
    let (none, fault) = recent(&Ok(rows(3)), 0);
    assert!(none.is_empty());
    assert_eq!(fault, None);
}

#[test]
fn reply_carries_the_row_values() {
    let (samples, _) = recent(&Ok(vec![row(7, 800001, 65010.0), row(3, 800000, 65000.5)]), 50);
    assert_eq!(
        samples,
        vec![
            Sample {
                sequence_id: 7,
                block_height: 800001,
                price_bits: 65010.0f64.to_bits(),
                timestamp: "ts7".to_string()
            },
            Sample {
                sequence_id: 3,
                block_height: 800000,
                price_bits: 65000.5f64.to_bits(),
                timestamp: "ts3".to_string()
            },
        ]
    );
}

#[test]
fn bad_rows_are_reported() {
    let r = History::from_rows(&vec![row(2, 5, 1.0), row(1, -5, 1.0)], 50);
    assert_eq!(r.err(), Some(HistoryError::BadRow { index: 1, error: RowError::NegativeHeight }));
    let r = History::from_rows(&vec![row(2, 5, f64::NAN)], 50);
    assert_eq!(r.err(), Some(HistoryError::BadRow { index: 0, error: RowError::InvalidPrice }));
    let r = History::from_rows(&vec![row(2, 5, 1.0), row(2, 6, 1.0)], 50);
    assert_eq!(r.err(), Some(HistoryError::OutOfOrder { index: 1 }));
    let r = History::from_rows(&vec![row(2, 5, 1.0), row(3, 6, 1.0)], 50);
    assert_eq!(r.err(), Some(HistoryError::OutOfOrder { index: 1 }));
    let (samples, fault) = recent(&Ok(vec![row(1, 5, 1.0), row(2, 6, 1.0)]), 50);
    assert!(samples.is_empty());
    assert_eq!(fault, Some(HistoryError::OutOfOrder { index: 1 }));
}

#[test]
fn rows_past_the_limit_are_not_looked_at() {
    let h = History::from_rows(&vec![row(9, 5, 1.0), row(10, -1, f64::NAN)], 1).unwrap();
    assert_eq!(h.len(), 1);
    assert_eq!(h.into_samples()[0].sequence_id, 9);
}

#[test]
fn empty_history() {
    assert_eq!(History::empty().len(), 0);
    assert!(History::empty().into_samples().is_empty());
}

#[test]
fn stored_rows_become_samples() {
    assert_eq!(Sample::from_row(&row(4, 0, 0.0)).unwrap().block_height, 0);
    assert_eq!(Sample::from_row(&row(4, -1, f64::NAN)), Err(RowError::NegativeHeight));
    assert_eq!(Sample::from_row(&row(4, 1, -2.0)), Err(RowError::InvalidPrice));
}

#[test]
fn price_bits_validity() {
    assert!(is_valid_price_bits(0.0f64.to_bits()));
    assert!(is_valid_price_bits((-0.0f64).to_bits()));
    assert!(is_valid_price_bits(65000.5f64.to_bits()));
    assert!(is_valid_price_bits(f64::MIN_POSITIVE.to_bits()));
    assert!(is_valid_price_bits(f64::MAX.to_bits()));
    assert_eq!(MAX_FINITE_PRICE_BITS, f64::MAX.to_bits());
    assert_eq!(NEGATIVE_ZERO_BITS, (-0.0f64).to_bits());
    assert!(!is_valid_price_bits(f64::INFINITY.to_bits()));
    assert!(!is_valid_price_bits(f64::NAN.to_bits()));
    assert!(!is_valid_price_bits((-f64::NAN).to_bits()));
    assert!(!is_valid_price_bits((-1e-300f64).to_bits()));
    assert!(!is_valid_price_bits(f64::NEG_INFINITY.to_bits()));
}

#[test]
fn configuration_defaults() {
    assert_eq!(SAMPLE_INTERVAL_SECONDS, 20);
    assert_eq!(HISTORY_LIMIT, 50);
    assert_eq!(LISTEN_PORT, 8080);
}
