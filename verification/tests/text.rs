use llama_cpp_4::float32::{are_all_finite, Float32};
use llama_cpp_4::message::{bound_message, cut_text, MAX_TENSOR_FAILURE_BYTES};
use llama_cpp_4::name_map::NameMap;
use llama_cpp_4::names::{cut_at_nul, precedes, same_name};
use llama_cpp_4::text::{decimal_string, layer_name, layer_of_name, signed_decimal_string};

#[test]
fn numbers_are_written_in_decimal() {
    for number in [0, 9, 10, 101, 12_345, u64::MAX] {
        assert_eq!(decimal_string(number), number.to_string());
    }
    for number in [0, -1, 7, i32::MAX, i32::MIN] {
        assert_eq!(signed_decimal_string(number), number.to_string());
    }
}

#[test]
fn layer_names_carry_their_layers() {
    for layer in [0, 9, 10, 4_096] {
        assert_eq!(layer_name(layer as u64), format!("l_out-{layer}"));
        assert_eq!(layer_of_name(&layer_name(layer as u64)), Some(layer));
    }
    assert_eq!(layer_of_name("l_out-x"), None);
    assert_eq!(layer_of_name("out-1"), None);
    assert_eq!(layer_of_name("l_out-1_0"), None);
    assert_eq!(layer_of_name("l_out-01"), None);
    assert_eq!(layer_of_name("l_out-+1"), None);
    assert_eq!(layer_of_name("l_out-00"), None);
}

#[test]
fn messages_are_cut_between_characters() {
    assert_eq!(cut_text("plain", 3), "pla");
    assert_eq!(cut_text("plain", 5), "plain");
    assert_eq!(cut_text("aßb", 2), "a");
    assert_eq!(cut_text("aßb", 3), "aß");
    assert_eq!(cut_text("😀", 3), "");
    let long = "ß".repeat(MAX_TENSOR_FAILURE_BYTES);
    let cut = bound_message(&long);
    assert_eq!(cut.len(), MAX_TENSOR_FAILURE_BYTES);
    assert_eq!(bound_message(&cut), cut);
    let odd = format!("x{long}");
    assert_eq!(bound_message(&odd).len(), MAX_TENSOR_FAILURE_BYTES - 1);
}

#[test]
fn names_are_ordered_as_their_encodings() {
    let names = ["", "a", "ab", "b", "z", "ß", "日", "😀"];
    for (i, a) in names.iter().enumerate() {
        for (j, b) in names.iter().enumerate() {
            assert_eq!(precedes(a, b), i < j);
            assert_eq!(same_name(a, b), i == j);
            assert_eq!(precedes(a, b), a < b);
        }
    }
}

#[test]
fn native_names_end_at_their_nul() {
    assert_eq!(cut_at_nul(b"name\0rest\0"), b"name");
    assert_eq!(cut_at_nul(b"name"), b"name");
    assert_eq!(cut_at_nul(b"\0name"), b"");
}

#[test]
fn maps_hold_each_name_once() {
    let mut map: NameMap<usize> = NameMap::new();
    map.insert("a".to_owned(), 1);
    map.insert("b".to_owned(), 2);
    map.insert("a".to_owned(), 3);
    assert_eq!(map.len(), 2);
    assert_eq!(map.get("a"), Some(&3));
    assert_eq!(map.get("b"), Some(&2));
    assert_eq!(map.get("c"), None);
    assert_eq!(map.entry(1), ("b", &2));
    map.clear();
    assert_eq!(map.len(), 0);
}

#[test]
fn floats_are_judged_by_their_bits() {
    let values = [
        0.0,
        -0.0,
        1.0,
        -1.0,
        0.5,
        f32::MAX,
        f32::MIN,
        f32::MIN_POSITIVE,
        1.0e-45,
        -1.0e-45,
        1.0 + f32::EPSILON,
        f32::INFINITY,
        f32::NEG_INFINITY,
        f32::NAN,
    ];
    for value in values {
        let held = Float32::from_bits(value.to_bits());
        assert_eq!(held.to_bits(), value.to_bits());
        assert_eq!(held.is_finite(), value.is_finite(), "{value}");
        assert_eq!(
            held.is_in_unit_interval(),
            value.is_finite() && (0.0..=1.0).contains(&value),
            "{value}"
        );
        assert_eq!(are_all_finite(&[held]), value.is_finite());
    }
    assert!(are_all_finite(&[]));
    for a in values {
        for b in values {
            let (x, y) = (Float32::from_bits(a.to_bits()), Float32::from_bits(b.to_bits()));
            assert_eq!(x == y, a == b, "{a} {b}");
            assert_eq!(x.is_nan(), a.is_nan());
            assert_eq!(x.is_zero(), a == 0.0);
        }
    }
}
