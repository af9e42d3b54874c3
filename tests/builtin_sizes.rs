use borsh_size::sequence::{sequence_size, text_buffer_size};
use borsh_size::BorshSize;

#[test]
fn test_array_u16_size() {
    let s = 33u16;
    let serialized_size = s.calculate_borsh_size();
    assert_eq!(serialized_size, 2);
}

#[test]
fn test_array_u32_array_size() {
    let s = [33u32, 67u32];
    let serialized_size = s.calculate_borsh_size();
    assert_eq!(serialized_size, 12);
}

#[test]
fn test_vec_u16_size() {
    let s = vec![33u16, 67u16];
    let serialized_size = s.calculate_borsh_size();
    assert_eq!(serialized_size, 8);
}

#[test]
fn test_str_size() {
    let s = "test123";
    let serialized_size = s.calculate_borsh_size();
    assert_eq!(serialized_size, 11);
}

#[test]
fn test_string_size() {
    let s = "test123".to_string();
    let serialized_size = s.calculate_borsh_size();
    assert_eq!(serialized_size, 11);
}

#[test]
fn test_vec_str_size() {
    let s = vec!["aa", "abcd"];
    let serialized_size = s.calculate_borsh_size();
    assert_eq!(serialized_size, 18);
}

#[test]
fn test_vec_string_size() {
    let s = vec!["aa".to_string(), "abcd".to_string()];
    let serialized_size = s.calculate_borsh_size();
    assert_eq!(serialized_size, 18);
}

#[test]
fn test_array_str_size() {
    let s = &["aa", "abc"];
    let serialized_size = s.calculate_borsh_size();
    assert_eq!(serialized_size, 17);
}

#[test]
fn test_array_string_size() {
    let s = &["aa".to_string(), "abc".to_string()];
    let serialized_size = s.calculate_borsh_size();
    assert_eq!(serialized_size, 17);
}

#[test]
fn test_slice_string_size() {
    let s = &["aa".to_string(), "abc".to_string(), "a".to_string()];
    let serialized_size = s[..].calculate_borsh_size();
    assert_eq!(serialized_size, 22);
}

#[test]
fn test_slice_str_size() {
    let s = &["aa", "abc", "a"];
    let serialized_size = s[..].calculate_borsh_size();
    assert_eq!(serialized_size, 22);
}

#[test]
fn test_slice_u64_size() {
    let s = &[1u64, 2u64];
    let serialized_size = s[..].calculate_borsh_size();
    assert_eq!(serialized_size, 20);
}

#[test]
fn it_works() {
    let result = 2 + 2;
    assert_eq!(result, 4);
}

#[test]
fn scalar_sizes_are_storage_widths() {
    assert_eq!(().calculate_borsh_size(), 0);
    assert_eq!(true.calculate_borsh_size(), 1);
    assert_eq!(false.calculate_borsh_size(), 1);
    assert_eq!('x'.calculate_borsh_size(), 4);
    assert_eq!(0u8.calculate_borsh_size(), 1);
    assert_eq!(u8::MAX.calculate_borsh_size(), 1);
    assert_eq!((-1i16).calculate_borsh_size(), 2);
    assert_eq!(7i32.calculate_borsh_size(), 4);
    assert_eq!(u64::MAX.calculate_borsh_size(), 8);
    assert_eq!(0i64.calculate_borsh_size(), 8);
    assert_eq!(1u128.calculate_borsh_size(), 16);
    assert_eq!(i128::MIN.calculate_borsh_size(), 16);
    assert_eq!(3usize.calculate_borsh_size(), std::mem::size_of::<usize>());
    assert_eq!((-3isize).calculate_borsh_size(), std::mem::size_of::<isize>());
}

#[test]
fn empty_sequences_are_only_the_prefix() {
    let v: Vec<u32> = Vec::new();
    assert_eq!(v.calculate_borsh_size(), 4);
    let a: [u64; 0] = [];
    assert_eq!(a.calculate_borsh_size(), 4);
    assert_eq!("".calculate_borsh_size(), 4);
    assert_eq!(String::new().calculate_borsh_size(), 4);
}

#[test]
fn fixed_array_sized_as_vec() {
    let a = [1u16, 2u16, 3u16];
    let v = vec![1u16, 2u16, 3u16];
    assert_eq!(a.calculate_borsh_size(), 10);
    assert_eq!(a.calculate_borsh_size(), v.calculate_borsh_size());
}

#[test]
fn nested_sequences_add_each_prefix() {
    let v = vec![vec![1u8, 2u8], vec![], vec![3u8]];
    assert_eq!(v.calculate_borsh_size(), 4 + (4 + 2) + 4 + (4 + 1));
}

#[test]
fn str_size_counts_utf8_bytes() {
    assert_eq!("é".calculate_borsh_size(), 6);
    assert_eq!("aé€😀".calculate_borsh_size(), 4 + 1 + 2 + 3 + 4);
}

#[test]
fn string_size_follows_capacity() {
    let mut s = String::with_capacity(16);
    s.push_str("abc");
    assert!(s.capacity() >= 16);
    assert_eq!(s.calculate_borsh_size(), 4 + s.capacity());
    assert!(s.calculate_borsh_size() > 4 + s.len());
    let r = &s;
    assert_eq!(r.calculate_borsh_size(), 4 + s.capacity());
}

#[test]
fn text_buffer_size_adds_prefix_and_saturates() {
    assert_eq!(text_buffer_size(7), 11);
    assert_eq!(text_buffer_size(0), 4);
    assert_eq!(text_buffer_size(usize::MAX - 4), usize::MAX);
    assert_eq!(text_buffer_size(usize::MAX), usize::MAX);
}

#[test]
fn pushing_adds_the_element_size() {
    let mut v = vec!["aa", "abcd"];
    let before = v.calculate_borsh_size();
    v.push("xyz");
    assert_eq!(v.calculate_borsh_size(), before + "xyz".calculate_borsh_size());
    assert_eq!(v.calculate_borsh_size(), 25);
}

#[test]
fn concatenated_sequences_count_one_prefix() {
    let a = vec![1u32, 2u32];
    let b = vec![3u32];
    let mut c = a.clone();
    c.extend_from_slice(&b);
    assert_eq!(c.calculate_borsh_size() + 4, a.calculate_borsh_size() + b.calculate_borsh_size());
    assert_eq!(c.calculate_borsh_size(), 16);
}

#[test]
fn reordered_sequence_keeps_its_size() {
    let v = vec!["a", "bcd", "ef"];
    let w = vec!["ef", "a", "bcd"];
    assert_eq!(v.calculate_borsh_size(), w.calculate_borsh_size());
    assert_eq!(v.calculate_borsh_size(), 22);
}

#[test]
fn concatenated_texts_count_one_prefix() {
    let s = "abc";
    let t = "dé";
    let u = [s, t].concat();
    assert_eq!(u.as_str().calculate_borsh_size() + 4, s.calculate_borsh_size() + t.calculate_borsh_size());
    assert_eq!(u.as_str().calculate_borsh_size(), 10);
}

#[test]
fn vec_and_slice_agree() {
    let v = vec![[1u8, 2u8], [3u8, 4u8]];
    assert_eq!(v.calculate_borsh_size(), v.as_slice().calculate_borsh_size());
    assert_eq!(v.calculate_borsh_size(), 4 + 6 + 6);
}

#[test]
fn sequence_size_adds_prefix_to_element_results() {
    assert_eq!(sequence_size(&[]), 4);
    assert_eq!(sequence_size(&[6, 7, 5]), 22);
    assert_eq!(sequence_size(&[usize::MAX - 20, 3, 4]), usize::MAX - 9);
    assert_eq!(sequence_size(&[usize::MAX - 4, 1]), usize::MAX);
    assert_eq!(sequence_size(&[usize::MAX, usize::MAX]), usize::MAX);
}

#[test]
fn string_sequence_adds_each_capacity() {
    let mut wide = String::with_capacity(32);
    wide.push_str("ab");
    let v = vec![wide, "abc".to_string()];
    let results: Vec<usize> = v.iter().map(|s| s.calculate_borsh_size()).collect();
    assert_eq!(v.calculate_borsh_size(), sequence_size(&results));
    assert_eq!(v.calculate_borsh_size(), 4 + (4 + v[0].capacity()) + (4 + v[1].capacity()));
    assert_eq!(v.calculate_borsh_size(), v.as_slice().calculate_borsh_size());
}
