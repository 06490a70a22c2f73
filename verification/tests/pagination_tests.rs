use blog_api::pagination::{PageParams, Pagination};
use blog_api::response::ErrCode;

#[test]
fn defaults_to_first_page_of_ten() {
    let p = PageParams::default();
    assert_eq!(p.to_pagination(), Ok(Pagination { offset: 0, limit: 10 }));
}

#[test]
fn computes_offset_of_page() {
    let p = PageParams { page: Some(3), size: Some(20) };
    assert_eq!(p.to_pagination(), Ok(Pagination { offset: 40, limit: 20 }));
    let p = PageParams { page: Some(1), size: Some(100) };
    assert_eq!(p.to_pagination(), Ok(Pagination { offset: 0, limit: 100 }));
    let p = PageParams { page: Some(2), size: None };
    assert_eq!(p.to_pagination(), Ok(Pagination { offset: 10, limit: 10 }));
}

#[test]
fn refuses_bad_pages_and_sizes() {
    for (page, size) in [(Some(0), None), (Some(-3), Some(10)), (None, Some(0)), (None, Some(101)), (Some(1), Some(-1))] {
        assert_eq!(PageParams { page, size }.to_pagination(), Err(ErrCode::InputArgsError));
    }
}

#[test]
fn consecutive_pages_are_adjacent() {
    let a = PageParams { page: Some(4), size: Some(7) }.to_pagination().unwrap();
    let b = PageParams { page: Some(5), size: Some(7) }.to_pagination().unwrap();
    assert_eq!(b.offset, a.offset + a.limit);
}
