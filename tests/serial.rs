use rpgassist::serial::{decode_ordering, encode_ordering, DecodeError, StringOrList};
use std::cmp::Ordering;

#[test]
fn ordering_decode_is_case_insensitive() {
    assert_eq!(decode_ordering("GREATER"), Ok(Ordering::Greater));
    assert_eq!(decode_ordering("less"), Ok(Ordering::Less));
    assert_eq!(decode_ordering("eq"), Ok(Ordering::Equal));
    assert_eq!(decode_ordering("x"), Err(DecodeError::UnknownOrdering { first: Some('x') }));
    assert_eq!(decode_ordering(""), Err(DecodeError::UnknownOrdering { first: None }));
}

#[test]
fn ordering_round_trip() {
    for o in [Ordering::Less, Ordering::Equal, Ordering::Greater] {
        assert_eq!(decode_ordering(encode_ordering(o)), Ok(o));
    }
    assert_eq!(encode_ordering(Ordering::Greater), "Greater");
}

#[test]
fn string_or_list_normalizes() {
    assert_eq!(StringOrList::One("a".to_string()).into_vec(), vec!["a".to_string()]);
    let list = vec!["a".to_string(), "b".to_string()];
    assert_eq!(StringOrList::Many(list.clone()).into_vec(), list);
    assert_eq!(StringOrList::from_vec(list.clone()).into_vec(), list);
    assert_eq!(StringOrList::Many(vec![]).into_vec(), Vec::<String>::new());
}
