use spdk_io::error::Error;
use spdk_io::event::{event_alloc_outcome, CoreQuery, Cores, NO_CORE};

#[test]
fn core_walk_over_two_cores() {
    // SPDK's answers for a reactor mask of 0x3: first core 0, then 1, then none.
    let mut it = Cores::iter();
    let mut seen = Vec::new();
    loop {
        let answer = match it.query() {
            CoreQuery::First => 0,
            CoreQuery::NextAfter(0) => 1,
            CoreQuery::NextAfter(_) => NO_CORE,
        };
        match it.advance(answer) {
            Some(c) => seen.push(c),
            None => break,
        }
    }
    assert_eq!(seen, vec![0, 1]);
    // An ended walk asks the same question again and ends again.
    assert_eq!(it.query(), CoreQuery::NextAfter(1));
    assert_eq!(it.advance(NO_CORE), None);
    assert_eq!(it.query(), CoreQuery::NextAfter(1));
}

#[test]
fn core_walk_starts_with_first() {
    let mut it = Cores::iter();
    assert_eq!(it.query(), CoreQuery::First);
    assert_eq!(it.advance(3), Some(3));
    assert_eq!(it.query(), CoreQuery::NextAfter(3));
    assert_eq!(it.advance(7), Some(7));
    assert_eq!(it.query(), CoreQuery::NextAfter(7));
}

#[test]
fn event_allocation_outcome() {
    assert!(event_alloc_outcome(1, true).is_ok());
    match event_alloc_outcome(5, false) {
        Err(Error::InvalidArgument(m)) => {
            assert_eq!(m, "Failed to allocate event for lcore 5. Is it in reactor_mask?")
        }
        other => panic!("unexpected: {:?}", other),
    }
}

#[test]
fn whole_core_walk_yields_each_core_once_then_none() {
    // SPDK's answers for the cores 1, 4 and 6.
    let cores = [1u32, 4, 6];
    let mut it = Cores::iter();
    let mut items = Vec::new();
    for _ in 0..6 {
        let answer = match it.query() {
            CoreQuery::First => cores[0],
            CoreQuery::NextAfter(c) => match cores.iter().position(|&x| x == c) {
                Some(i) if i + 1 < cores.len() => cores[i + 1],
                _ => NO_CORE,
            },
        };
        items.push(it.advance(answer));
    }
    assert_eq!(items, vec![Some(1), Some(4), Some(6), None, None, None]);
}
