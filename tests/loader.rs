use chat_flame_backend::llm::loader::{
    format_size, total_size_in_bytes, weights_format, WeightsFormat,
};

#[test]
fn test_format_size() {
    assert_eq!(format_size(999), "999B");
    assert_eq!(format_size(1000), "1.00KB");
    assert_eq!(format_size(1000000), "1.00MB");
    assert_eq!(format_size(1000000000), "1.00GB");
}

#[test]
fn format_size_rounds_to_hundredths() {
    assert_eq!(format_size(0), "0B");
    assert_eq!(format_size(1234), "1.23KB");
    assert_eq!(format_size(1235), "1.24KB");
    assert_eq!(format_size(999_999), "1000.00KB");
    assert_eq!(format_size(4_070_000_000), "4.07GB");
    assert_eq!(format_size(12_345_678), "12.35MB");
}

#[test]
fn format_by_extension() {
    assert_eq!(weights_format(Some("gguf")), WeightsFormat::Gguf);
    assert_eq!(weights_format(Some("bin")), WeightsFormat::Ggml);
    assert_eq!(weights_format(Some("ggml")), WeightsFormat::Ggml);
    assert_eq!(weights_format(None), WeightsFormat::Ggml);
}

#[test]
fn tensor_sizes_add_up() {
    assert_eq!(total_size_in_bytes(&vec![]), Some(0));
    assert_eq!(total_size_in_bytes(&vec![(4096, 18, 32), (10, 4, 1)]), Some(2304 + 40));
    assert_eq!(total_size_in_bytes(&vec![(usize::MAX, 2, 1)]), None);
}
