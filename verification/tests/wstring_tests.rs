use cxx_wstring::{CxxWString, StackWString};
use std::cmp::Ordering;

fn from_chars(chars: &[char]) -> Box<CxxWString> {
    CxxWString::create(chars)
}

#[test]
fn stack_roundtrip_through_init() {
    let chars = ['a', 'b', 'c'];
    let mut cell = StackWString::new();
    cell.init(&chars);
    assert_eq!(cell.handle().as_chars(), &chars);
    cell.destroy();
}

#[test]
fn stack_roundtrip_empty() {
    let chars: [char; 0] = [];
    let mut cell = StackWString::new();
    cell.init(&chars);
    assert_eq!(cell.handle().as_chars(), &chars);
    assert!(cell.handle().is_empty());
}

#[test]
fn is_empty_iff_len_zero() {
    let empty = CxxWString::new();
    assert!(empty.is_empty());
    assert_eq!(empty.len(), 0);
    let full = from_chars(&['x']);
    assert!(!full.is_empty());
    assert_eq!(full.len(), 1);
}

#[test]
fn clear_empties() {
    let mut h = from_chars(&['a', 'b', 'c']);
    assert_eq!(h.len(), 3);
    h.clear();
    assert_eq!(h.len(), 0);
    assert!(h.is_empty());
}

#[test]
fn construct_from_chars_scenario() {
    let h = from_chars(&['a', 'b', 'c']);
    assert_eq!(h.len(), 3);
    assert_eq!(h.to_str(), "abc");
}

#[test]
fn reserve_then_push_scenario() {
    let mut h = CxxWString::new();
    h.reserve(10);
    assert_eq!(h.capacity(), 10);
    h.push_chars(&['x']);
    assert_eq!(h.len(), 1);
    assert_eq!(h.capacity(), 10);
}

#[test]
fn reserve_covers_later_pushes() {
    let mut h = from_chars(&['a']);
    h.reserve(5);
    assert_eq!(h.capacity(), 6);
    h.push_chars(&['b', 'c']);
    assert_eq!(h.capacity(), 6);
    h.push_chars(&['d', 'e', 'f']);
    assert_eq!(h.capacity(), 6);
    assert_eq!(h.len(), 6);
    h.push_chars(&['g']);
    assert_eq!(h.capacity(), 7);
}

#[test]
fn reserve_overflow_is_refused() {
    let mut h = from_chars(&['a']);
    let refused = h.checked_reserve(usize::MAX);
    assert!(!refused);
    assert_eq!(h.len(), 1);
    assert_eq!(h.to_str(), "a");
    let accepted = h.checked_reserve(3);
    assert!(accepted);
    assert_eq!(h.capacity(), 4);
}

#[test]
fn push_preserves_order() {
    let mut h = from_chars(&['a']);
    let before = h.as_wchars();
    h.push_chars(&['b', 'c']);
    h.push_chars(&['d']);
    let mut expected = before.clone();
    expected.extend_from_slice(&['b' as u32, 'c' as u32, 'd' as u32]);
    assert_eq!(h.as_wchars(), expected);
    assert_eq!(h.as_chars(), &['a', 'b', 'c', 'd']);
}

#[test]
fn push_str_appends_characters() {
    let mut h = CxxWString::new();
    h.push_str("hi");
    h.push_str("!");
    assert_eq!(h.to_str(), "hi!");
    assert_eq!(h.len(), 3);
}

#[test]
fn equality_is_an_equivalence() {
    let a = from_chars(&['h', 'i']);
    let b = from_chars(&['h', 'i']);
    let c = from_chars(&['h', 'i']);
    assert!(*a == *a);
    assert!(*a == *b);
    assert!(*b == *a);
    assert!(*b == *c);
    assert!(*a == *c);
    let d = from_chars(&['h', 'o']);
    assert!(*a != *d);
}

#[test]
fn equality_is_unit_wise() {
    let a = from_chars(&['h', 'i']);
    let b = from_chars(&['h', 'i']);
    let d = from_chars(&['h', 'o']);
    assert_eq!(*a == *b, a.as_wchars() == b.as_wchars());
    assert_eq!(*a == *d, a.as_wchars() == d.as_wchars());
}

#[test]
fn equality_ignores_capacity() {
    let mut a = CxxWString::new();
    a.push_chars(&['z']);
    let mut b = CxxWString::new();
    b.reserve(100);
    b.push_chars(&['z']);
    assert_ne!(a.capacity(), b.capacity());
    assert!(a == b);
    assert_eq!(a.hash_value(), b.hash_value());
}

#[test]
fn ordering_is_lexicographic() {
    let hello = from_chars(&['h', 'e', 'l', 'l', 'o']);
    let world = from_chars(&['w', 'o', 'r', 'l', 'd']);
    assert_eq!(hello.partial_cmp(&world), Some(Ordering::Less));
    assert_eq!(world.partial_cmp(&hello), Some(Ordering::Greater));
    assert!(*hello < *world);
    let hello2 = from_chars(&['h', 'e', 'l', 'l', 'o']);
    assert_eq!(hello.partial_cmp(&hello2), Some(Ordering::Equal));
}

#[test]
fn ordering_prefix_comes_first() {
    let ab = from_chars(&['a', 'b']);
    let abc = from_chars(&['a', 'b', 'c']);
    assert_eq!(ab.partial_cmp(&abc), Some(Ordering::Less));
    assert_eq!(abc.partial_cmp(&ab), Some(Ordering::Greater));
    let empty = CxxWString::new();
    assert_eq!(empty.partial_cmp(&ab), Some(Ordering::Less));
}

#[test]
fn equal_handles_hash_identically() {
    let mut a = CxxWString::new();
    a.push_str("hello");
    let b = {
        let mut b = CxxWString::new();
        b.push_chars(&['h', 'e', 'l', 'l', 'o']);
        b
    };
    assert!(a == b);
    assert_eq!(a.hash_value(), b.hash_value());
    let mut w = CxxWString::new();
    w.push_str("world");
    assert!(a != w);
    assert_eq!(a.partial_cmp(&w), Some(Ordering::Less));
}

#[test]
fn hash_matches_fnv1a() {
    let h = from_chars(&['a', 'b', 'c']);
    assert_eq!(h.hash_value(), 0xe71fa2190541574b);
    let empty = CxxWString::new();
    assert_eq!(empty.hash_value(), 0xcbf29ce484222325);
}

#[test]
fn to_str_decodes_exactly() {
    let h = from_chars(&['δ', 'o', 'g']);
    assert_eq!(h.to_str(), "δog");
    assert_eq!(CxxWString::new().to_str(), "");
}

#[test]
fn as_char_iter_copies_contents() {
    let h = from_chars(&['a', 'b']);
    assert_eq!(h.as_char_iter(), vec!['a', 'b']);
}

#[test]
fn as_wide_units_are_code_points() {
    let h = from_chars(&['a', 'δ']);
    assert_eq!(h.as_wchars(), vec![0x61u32, 0x3b4u32]);
}

#[test]
fn eq_str_compares_characters() {
    let h = from_chars(&['h', 'i']);
    assert!(h.eq_str("hi"));
    assert!(!h.eq_str("ho"));
    assert!(!h.eq_str("h"));
    assert!(!h.eq_str("hii"));
}

#[test]
fn eq_wide_units_compares_raw_units() {
    let h = from_chars(&['h', 'i']);
    assert!(h.eq_wide_units(&[0x68, 0x69]));
    assert!(!h.eq_wide_units(&[0x68]));
    assert!(!h.eq_wide_units(&[0x68, 0x70]));
}

#[test]
fn stack_cell_mutation() {
    let mut cell = StackWString::new();
    cell.init(&['a']);
    cell.push_chars(&['b']);
    cell.push_str("c");
    assert_eq!(cell.handle().to_str(), "abc");
    cell.reserve(10);
    assert_eq!(cell.handle().capacity(), 13);
    let ok = cell.checked_reserve(usize::MAX);
    assert!(!ok);
    cell.clear();
    assert!(cell.handle().is_empty());
    cell.destroy();
}

#[test]
fn create_hands_out_an_owner() {
    let boxed: Box<CxxWString> = CxxWString::create(&['o', 'k']);
    assert_eq!(boxed.len(), 2);
    assert_eq!(boxed.to_str(), "ok");
}
