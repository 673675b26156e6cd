use cnpj_import::batch::Batch;
use cnpj_import::models::{NewPais, TypedRecord};

fn record(id: u16) -> TypedRecord {
    TypedRecord::Pais(NewPais { id, nome: format!("P{}", id) })
}

#[test]
fn a_batch_leaves_when_it_is_full() {
    let mut batch = Batch::new(2);
    assert_eq!(batch.len(), 0);
    assert_eq!(batch.push(record(1)), None);
    assert_eq!(batch.len(), 1);
    assert_eq!(batch.push(record(2)), Some(vec![record(1), record(2)]));
    assert_eq!(batch.len(), 0);
    assert_eq!(batch.push(record(3)), None);
    assert_eq!(batch.take(), vec![record(3)]);
    assert_eq!(batch.len(), 0);
    assert_eq!(batch.take(), Vec::new());
}

#[test]
fn five_rows_in_batches_of_two() {
    let mut batch = Batch::new(2);
    let mut sizes = Vec::new();
    let mut written = Vec::new();
    for id in 1..=5 {
        if let Some(records) = batch.push(record(id)) {
            sizes.push(records.len());
            written.extend(records);
        }
    }
    let rest = batch.take();
    if !rest.is_empty() {
        sizes.push(rest.len());
        written.extend(rest);
    }
    assert_eq!(sizes, vec![2, 2, 1]);
    assert_eq!(written, (1..=5).map(record).collect::<Vec<_>>());
}

#[test]
fn a_batch_of_one_leaves_with_every_record() {
    let mut batch = Batch::new(1);
    assert_eq!(batch.push(record(1)), Some(vec![record(1)]));
    assert_eq!(batch.push(record(2)), Some(vec![record(2)]));
    assert_eq!(batch.len(), 0);
}

#[test]
fn a_batch_without_bound_never_leaves_by_itself() {
    let mut batch = Batch::new(0);
    for id in 0..100 {
        assert_eq!(batch.push(record(id)), None);
    }
    assert_eq!(batch.len(), 100);
    assert_eq!(batch.take().len(), 100);
}

#[test]
fn what_waits_stays_below_the_capacity() {
    let mut batch = Batch::new(7);
    for id in 0..100 {
        let _ = batch.push(record(id));
        assert!(batch.len() < 7);
        assert_eq!(batch.len(), (id as usize + 1) % 7);
    }
}
