use coda_api::{
    drain_recorded, Drain, DrainStep, ItemsList, NextPageToken, PaginatedResponse,
    PaginationState,
};

fn page(items: Vec<u32>, next: Option<&str>) -> ItemsList<u32> {
    ItemsList {
        href: None,
        items,
        next_page_link: None,
        next_page_token: next.map(|token| NextPageToken(token.to_string())),
        next_sync_token: None,
    }
}

fn rows(from: u32, count: u32) -> Vec<u32> {
    (from..from + count).collect()
}

/// Runs a drain against `fetch`, the way a client runs it: one fetch per
/// step, with the cursor the drain names.
fn drain_with<F>(mut fetch: F) -> Result<Vec<u32>, String>
where
    F: FnMut(Option<String>) -> Result<ItemsList<u32>, String>,
{
    let mut drain: Drain<u32> = Drain::new();
    loop {
        let cursor = drain.page_token().map(|token| token.to_string());
        match drain.accept(fetch(cursor)) {
            DrainStep::Continue(next) => drain = next,
            DrainStep::Done(items) => return Ok(items),
            DrainStep::Failed(error) => return Err(error),
        }
    }
}

#[test]
fn a_new_state_has_no_cursor() {
    let state = PaginationState::new();
    assert!(!state.has_more_pages());
    assert_eq!(state.page_token(), None);
    assert_eq!(state.next_page_token, None);
    let state = PaginationState::default();
    assert_eq!(state.page_token(), None);
}

#[test]
fn a_state_takes_the_cursor_of_the_page() {
    let mut state = PaginationState::new();
    state.update_from_response(&page(vec![1], Some("p2")));
    assert!(state.has_more_pages());
    assert_eq!(state.page_token(), Some("p2"));
    state.update_from_response(&page(vec![2], None));
    assert!(!state.has_more_pages());
    assert_eq!(state.page_token(), None);
}

#[test]
fn a_page_hands_out_its_items_and_its_cursor() {
    let p = page(vec![3, 1, 2], Some("next"));
    assert_eq!(p.items(), &vec![3, 1, 2]);
    assert_eq!(p.next_page_token(), Some(&NextPageToken("next".to_string())));
    assert_eq!(p.into_items(), vec![3, 1, 2]);
    let last = page(vec![], None);
    assert_eq!(last.next_page_token(), None);
}

#[test]
fn an_empty_first_page_without_cursor_is_an_empty_result() {
    let mut calls = 0;
    let result = drain_with(|cursor| {
        calls += 1;
        assert_eq!(cursor, None);
        Ok(page(vec![], None))
    });
    assert_eq!(result, Ok(vec![]));
    assert_eq!(calls, 1);
    let drained = drain_recorded::<u32, ItemsList<u32>, String>(vec![Ok(page(vec![], None))]);
    assert_eq!(drained.result, Some(Ok(vec![])));
    assert_eq!(drained.fetched, 1);
}

#[test]
fn three_pages_of_rows_come_out_as_sixty_rows_in_order() {
    let mut asked: Vec<Option<String>> = Vec::new();
    let result = drain_with(|cursor| {
        asked.push(cursor.clone());
        match cursor.as_deref() {
            None => Ok(page(rows(0, 25), Some("p2"))),
            Some("p2") => Ok(page(rows(25, 25), Some("p3"))),
            Some("p3") => Ok(page(rows(50, 10), None)),
            Some(other) => Err(format!("unknown cursor {}", other)),
        }
    });
    let all = result.unwrap();
    assert_eq!(all.len(), 60);
    assert_eq!(all, rows(0, 60));
    assert_eq!(asked, vec![None, Some("p2".to_string()), Some("p3".to_string())]);
}

#[test]
fn three_recorded_pages_come_out_as_sixty_rows_in_order() {
    let drained = drain_recorded::<u32, ItemsList<u32>, String>(vec![
        Ok(page(rows(0, 25), Some("p1"))),
        Ok(page(rows(25, 25), Some("p2"))),
        Ok(page(rows(50, 10), None)),
    ]);
    assert_eq!(drained.result, Some(Ok(rows(0, 60))));
    assert_eq!(drained.fetched, 3);
}

#[test]
fn n_pages_of_k_items_are_n_times_k_items() {
    for n in 1u32..6 {
        for k in 0u32..5 {
            let mut outcomes: Vec<Result<ItemsList<u32>, String>> = Vec::new();
            for i in 0..n {
                let next = if i + 1 < n { Some(format!("page-{}", i + 1)) } else { None };
                outcomes.push(Ok(page(rows(i * k, k), next.as_deref())));
            }
            let drained = drain_recorded(outcomes);
            assert_eq!(drained.result, Some(Ok(rows(0, n * k))));
            assert_eq!(drained.fetched, n as usize);
        }
    }
}

#[test]
fn items_are_neither_sorted_nor_deduplicated() {
    let drained = drain_recorded::<u32, ItemsList<u32>, String>(vec![
        Ok(page(vec![5, 1, 5], Some("b"))),
        Ok(page(vec![1, 0], None)),
    ]);
    assert_eq!(drained.result, Some(Ok(vec![5, 1, 5, 1, 0])));
}

#[test]
fn a_failing_first_page_ends_the_drain_at_once() {
    let mut calls = 0;
    let result = drain_with(|_| {
        calls += 1;
        Err("unreachable".to_string())
    });
    assert_eq!(result, Err("unreachable".to_string()));
    assert_eq!(calls, 1);
    let drained = drain_recorded::<u32, ItemsList<u32>, String>(vec![
        Err("unreachable".to_string()),
        Ok(page(vec![1], None)),
    ]);
    assert_eq!(drained.result, Some(Err("unreachable".to_string())));
    assert_eq!(drained.fetched, 1);
}

#[test]
fn a_failing_second_page_drops_the_first() {
    let mut calls = 0;
    let result = drain_with(|cursor| {
        calls += 1;
        match cursor {
            None => Ok(page(vec![1, 2, 3], Some("p2"))),
            Some(_) => Err("too many requests".to_string()),
        }
    });
    assert_eq!(result, Err("too many requests".to_string()));
    assert_eq!(calls, 2);
    let drained = drain_recorded::<u32, ItemsList<u32>, String>(vec![
        Ok(page(vec![1, 2, 3], Some("p2"))),
        Err("too many requests".to_string()),
        Ok(page(vec![4], None)),
    ]);
    assert_eq!(drained.result, Some(Err("too many requests".to_string())));
    assert_eq!(drained.fetched, 2);
}

#[test]
fn a_record_that_ends_too_early_gives_nothing() {
    let drained = drain_recorded::<u32, ItemsList<u32>, String>(vec![]);
    assert_eq!(drained.result, None);
    assert_eq!(drained.fetched, 0);
    let drained = drain_recorded::<u32, ItemsList<u32>, String>(vec![
        Ok(page(vec![1], Some("p2"))),
        Ok(page(vec![2], Some("p3"))),
    ]);
    assert_eq!(drained.result, None);
    assert_eq!(drained.fetched, 2);
}

#[test]
fn what_follows_the_last_page_is_not_fetched() {
    let drained = drain_recorded::<u32, ItemsList<u32>, String>(vec![
        Ok(page(vec![1], None)),
        Ok(page(vec![2], None)),
        Err("never asked".to_string()),
    ]);
    assert_eq!(drained.result, Some(Ok(vec![1])));
    assert_eq!(drained.fetched, 1);
}

#[test]
fn a_drain_steps_from_cursor_to_cursor() {
    let drain: Drain<u32> = Drain::new();
    assert_eq!(drain.page_token(), None);
    let drain = match drain.accept::<ItemsList<u32>, String>(Ok(page(vec![7], Some("c1")))) {
        DrainStep::Continue(drain) => drain,
        _ => panic!("the drain should go on"),
    };
    assert_eq!(drain.page_token(), Some("c1"));
    let drain = match drain.accept::<ItemsList<u32>, String>(Ok(page(vec![], Some("c2")))) {
        DrainStep::Continue(drain) => drain,
        _ => panic!("the drain should go on"),
    };
    assert_eq!(drain.page_token(), Some("c2"));
    match drain.accept::<ItemsList<u32>, String>(Ok(page(vec![8, 9], None))) {
        DrainStep::Done(items) => assert_eq!(items, vec![7, 8, 9]),
        _ => panic!("the drain should be done"),
    }
}
