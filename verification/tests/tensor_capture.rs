use llama_cpp_4::context::native::NativeTensor;
use llama_cpp_4::context::tensor_capture::{CaptureStep, TensorCapture};
use llama_cpp_4::float32::Float32;

fn floats(values: &[f32]) -> Vec<Float32> {
    values
        .iter()
        .map(|value| Float32::from_bits(value.to_bits()))
        .collect()
}

#[test]
fn test_for_layers_matching() {
    let capture = TensorCapture::for_layers(&[13, 20, 27]);
    assert!(capture.matches("l_out-13"));
    assert!(capture.matches("l_out-20"));
    assert!(capture.matches("l_out-27"));
    assert!(!capture.matches("l_out-0"));
    assert!(!capture.matches("l_out-14"));
    assert!(!capture.matches("attn_norm-13"));
    assert!(!capture.matches("result_norm"));
}

#[test]
fn test_for_names_matching() {
    let capture = TensorCapture::for_names(&["result_norm", "l_out-27"]);
    assert!(capture.matches("result_norm"));
    assert!(capture.matches("l_out-27"));
    assert!(!capture.matches("l_out-13"));
    assert!(!capture.matches("result_output"));
}

#[test]
fn test_for_prefix_matching() {
    let capture = TensorCapture::for_prefix("attn_out");
    assert!(capture.matches("attn_out-0"));
    assert!(capture.matches("attn_out-27"));
    assert!(!capture.matches("attn_norm-0"));
    assert!(!capture.matches("l_out-0"));
}

#[test]
fn test_all_matching() {
    let capture = TensorCapture::all();
    assert!(capture.matches("l_out-13"));
    assert!(capture.matches("result_norm"));
    assert!(capture.matches("anything"));
}

#[test]
fn test_store_and_get() {
    let mut capture = TensorCapture::for_layers(&[13]);
    let data = floats(&[1.0, 2.0, 3.0, 4.0, 5.0, 6.0]);
    capture.store("l_out-13".to_string(), 3, 2, data.clone());

    assert_eq!(capture.len(), 1);
    assert!(!capture.is_empty());

    let ct = capture.get("l_out-13").unwrap();
    assert_eq!(ct.name, "l_out-13");
    assert_eq!(ct.layer, Some(13));
    assert_eq!(ct.n_embd(), 3);
    assert_eq!(ct.n_tokens(), 2);
    assert_eq!(ct.data, data);

    let ct2 = capture.get_layer(13).unwrap();
    assert_eq!(ct2.name, ct.name);
    assert!(capture.has_layer(13));
    assert!(!capture.has_layer(14));
}

#[test]
fn test_token_embedding() {
    let mut capture = TensorCapture::for_layers(&[5]);
    let data = floats(&[1.0, 2.0, 3.0, 4.0, 5.0, 6.0]);
    capture.store("l_out-5".to_string(), 3, 2, data);

    let ct = capture.get_layer(5).unwrap();
    assert_eq!(ct.token_embedding(0), Some(&floats(&[1.0, 2.0, 3.0])[..]));
    assert_eq!(ct.token_embedding(1), Some(&floats(&[4.0, 5.0, 6.0])[..]));
    assert_eq!(ct.token_embedding(2), None);
}

#[test]
fn test_captured_layers() {
    let mut capture = TensorCapture::for_layers(&[5, 10, 20]);
    capture.store("l_out-10".to_string(), 2, 1, floats(&[0.0, 0.0]));
    capture.store("l_out-5".to_string(), 2, 1, floats(&[0.0, 0.0]));
    assert_eq!(capture.captured_layers(), vec![5, 10]);
}

#[test]
fn test_clear() {
    let mut capture = TensorCapture::for_layers(&[5]);
    capture.store("l_out-5".to_string(), 2, 1, floats(&[0.0, 0.0]));
    assert_eq!(capture.len(), 1);
    capture.clear();
    assert_eq!(capture.len(), 0);
    assert!(capture.is_empty());
}

#[test]
fn test_non_layer_tensor() {
    let mut capture = TensorCapture::for_names(&["result_norm"]);
    capture.store("result_norm".to_string(), 4, 3, floats(&[0.0; 12]));
    let ct = capture.get("result_norm").unwrap();
    assert_eq!(ct.layer, None);
    assert_eq!(ct.n_embd(), 4);
    assert_eq!(ct.n_tokens(), 3);
}

#[test]
fn only_exact_layer_names_are_layer_outputs() {
    let capture = TensorCapture::for_layers(&[7, 13]);
    assert!(capture.matches("l_out-7"));
    assert!(capture.matches("l_out-13"));
    for name in [
        "l_out-07", "l_out-013", "l_out-+7", "l_out-+13", "l_out--7", "l_out-", "l_out-+",
        "l_out-7 ", "L_out-7", "l_out-99999999999999999999999",
    ] {
        assert!(!capture.matches(name), "{name}");
    }
}

#[test]
fn storing_again_replaces() {
    let mut capture = TensorCapture::all();
    capture.store("a".to_string(), 1, 1, floats(&[1.0]));
    capture.store("b".to_string(), 1, 1, floats(&[2.0]));
    capture.store("a".to_string(), 1, 1, floats(&[3.0]));
    assert_eq!(capture.len(), 2);
    assert_eq!(capture.get("a").unwrap().data, floats(&[3.0]));
    assert_eq!(capture.get("b").unwrap().data, floats(&[2.0]));
    assert!(capture.get("c").is_none());
    let mut names: Vec<&str> = capture.iter().into_iter().map(|pair| pair.0).collect();
    names.sort_unstable();
    assert_eq!(names, ["a", "b"]);
}

#[test]
fn listed_layers_are_found_and_clearing_keeps_the_filter() {
    let mut capture = TensorCapture::for_layers(&[7]);
    capture.store("l_out-7".to_string(), 1, 1, floats(&[1.0]));
    capture.store("l_out-07".to_string(), 1, 1, floats(&[1.0]));
    capture.store("l_out-+9".to_string(), 1, 1, floats(&[1.0]));
    capture.store("result_norm".to_string(), 1, 1, floats(&[1.0]));
    assert_eq!(capture.captured_layers(), vec![7]);
    assert!(capture.has_layer(7));
    assert!(!capture.has_layer(9));
    assert_eq!(capture.get("l_out-7").unwrap().layer, Some(7));
    assert_eq!(capture.get("l_out-07").unwrap().layer, None);
    capture.clear();
    assert!(capture.captured_layers().is_empty());
    assert!(capture.matches("l_out-7"));
    assert!(!capture.matches("l_out-8"));
}

#[test]
fn wanted_nodes_are_read_after_they_were_asked_for() {
    let capture = TensorCapture::for_layers(&[7]);
    let tensor = |name: &[u8]| NativeTensor {
        type_code: 0,
        ne: [3, 2, 1, 1],
        contiguous: true,
        byte_size: 24,
        name: name.to_vec(),
    };
    assert!(matches!(
        capture.evaluate(&tensor(b"l_out-7\0junk"), true),
        CaptureStep::Return(true)
    ));
    assert!(matches!(
        capture.evaluate(&tensor(b"l_out-8\0"), true),
        CaptureStep::Return(false)
    ));
    assert!(matches!(
        capture.evaluate(&tensor(b"l_out-8\0"), false),
        CaptureStep::Return(false)
    ));
    let CaptureStep::Read { name, ne0, ne1, bytes } =
        capture.evaluate(&tensor(b"l_out-7"), false)
    else {
        panic!("the node is wanted");
    };
    assert_eq!((name.as_str(), ne0, ne1, bytes), ("l_out-7", 3, 2, 24));
}
