use jobslot::error::Failure;
use jobslot::unique::suffix_from;
use jobslot::unique::NameSearch;

#[test]
fn a_search_hands_out_a_hundred_numbers() {
    let mut search = NameSearch::new();
    for _ in 0..100 {
        assert!(search.next_suffix::<()>().is_ok());
    }
    assert_eq!(search.next_suffix::<()>(), Err(Failure::NoUniqueName));
    assert_eq!(search.next_suffix::<()>(), Err(Failure::NoUniqueName));
}

#[test]
fn numbers_differ() {
    let mut search = NameSearch::new();
    let a = search.next_suffix::<()>().unwrap();
    let b = search.next_suffix::<()>().unwrap();
    let c = search.next_suffix::<()>().unwrap();
    assert!(a != b || b != c);
}

#[test]
fn a_drawn_number_is_handed_on() {
    assert_eq!(suffix_from::<()>(Ok(5)), Ok(5));
    assert_eq!(suffix_from::<()>(Ok(u128::MAX)), Ok(u128::MAX));
}

#[test]
fn a_failed_draw_is_a_failure() {
    let failed = getrandom::Error::UNSUPPORTED;
    assert_eq!(suffix_from::<()>(Err(failed)), Err(Failure::Random(failed)));
}
