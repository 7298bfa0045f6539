use rustdesk_api::api::ab::{paginate, PageQuery};

fn query(current: Option<i64>, page_size: Option<i64>) -> PageQuery {
    PageQuery { current, page_size, ab: None }
}

#[test]
fn everything_without_numbers() {
    let items = vec![1, 2, 3];
    assert_eq!(paginate(items.clone(), &query(None, None)), (3, items.clone()));
    assert_eq!(paginate(items.clone(), &query(Some(1), None)), (3, items.clone()));
    assert_eq!(paginate(items.clone(), &query(None, Some(2))), (3, items.clone()));
    assert_eq!(paginate(items.clone(), &query(Some(0), Some(2))), (3, items.clone()));
    assert_eq!(paginate(items.clone(), &query(Some(1), Some(0))), (3, items.clone()));
    assert_eq!(paginate(items.clone(), &query(Some(-1), Some(2))), (3, items.clone()));
    assert_eq!(paginate(items.clone(), &query(Some(1), Some(-2))), (3, items));
}

#[test]
fn pages_of_two() {
    let items = vec![10, 20, 30, 40, 50];
    assert_eq!(paginate(items.clone(), &query(Some(1), Some(2))), (5, vec![10, 20]));
    assert_eq!(paginate(items.clone(), &query(Some(2), Some(2))), (5, vec![30, 40]));
    assert_eq!(paginate(items.clone(), &query(Some(3), Some(2))), (5, vec![50]));
    assert_eq!(paginate(items, &query(Some(4), Some(2))), (5, vec![]));
}

#[test]
fn pages_tile_the_list() {
    let items: Vec<u32> = (0..17).collect();
    for size in 1..20 {
        let mut read: Vec<u32> = Vec::new();
        for current in 1..=17 {
            let (total, page) = paginate(items.clone(), &query(Some(current), Some(size)));
            assert_eq!(total, 17);
            assert!(page.len() <= size as usize);
            read.extend(page);
        }
        assert_eq!(read, items);
    }
}

#[test]
fn a_page_larger_than_the_list() {
    assert_eq!(paginate(vec!['a', 'b'], &query(Some(1), Some(i64::MAX))), (2, vec!['a', 'b']));
    assert_eq!(paginate(vec!['a', 'b'], &query(Some(i64::MAX), Some(1))), (2, vec![]));
}

#[test]
fn a_product_that_wraps_below_zero_starts_at_the_front() {
    // (2^62 + 1 - 1) * 2 == 2^63, which wraps to the smallest i64.
    let current = (1i64 << 62) + 1;
    assert_eq!(paginate(vec![1, 2, 3], &query(Some(current), Some(2))), (3, vec![1, 2]));
}

#[test]
fn the_start_of_a_page_may_be_the_last_number_there_is() {
    assert_eq!(paginate(vec![1, 2, 3], &query(Some(1), Some(i64::MAX))), (3, vec![1, 2, 3]));
    assert_eq!(paginate(vec![1, 2, 3], &query(Some(2), Some(i64::MAX))), (3, vec![]));
}

#[test]
fn the_empty_list_has_an_empty_page() {
    let none: Vec<u8> = Vec::new();
    assert_eq!(paginate(none.clone(), &query(Some(1), Some(10))), (0, none));
}
