use manga_sources::paging::{OffsetCursor, PageCursor};

fn pages(first: i32, last: i32) -> Vec<i32> {
    let mut cursor = PageCursor::new(first, last);
    let mut out = Vec::new();
    while let Some(p) = cursor.next_page() {
        out.push(p);
        assert!(out.len() < 100);
    }
    assert_eq!(cursor.next_page(), None);
    out
}

fn offsets(total: Option<i32>, size: i32) -> Vec<i32> {
    let mut cursor = OffsetCursor::new(total, size);
    let mut out = Vec::new();
    while let Some(o) = cursor.next_offset() {
        out.push(o);
        assert!(out.len() < 100);
    }
    assert_eq!(cursor.next_offset(), None);
    out
}

#[test]
fn pages_run_from_first_to_last() {
    assert_eq!(pages(1, 3), vec![1, 2, 3]);
    assert_eq!(pages(1, 1), vec![1]);
    assert_eq!(pages(2, 1), Vec::<i32>::new());
    assert_eq!(pages(0, 2), vec![0, 1, 2]);
    assert_eq!(pages(i32::MAX - 1, i32::MAX), vec![i32::MAX - 1, i32::MAX]);
    assert_eq!(pages(-2, -1), vec![-2, -1]);
}

#[test]
fn offsets_follow_the_first_page() {
    assert_eq!(offsets(Some(1200), 500), vec![500, 1000]);
    assert_eq!(offsets(Some(1000), 500), vec![500]);
    assert_eq!(offsets(Some(500), 500), Vec::<i32>::new());
    assert_eq!(offsets(Some(0), 500), Vec::<i32>::new());
    assert_eq!(offsets(Some(-5), 100), Vec::<i32>::new());
    assert_eq!(offsets(None, 500), Vec::<i32>::new());
    assert_eq!(offsets(Some(350), 100), vec![100, 200, 300]);
    assert_eq!(offsets(Some(i32::MAX), 1_000_000_000), vec![1_000_000_000, 2_000_000_000]);
}
