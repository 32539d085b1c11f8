use chat_flame_backend::llm::dummy_text_generator::DummyTextGenerator;

#[test]
fn test_generate_with_sample_len_and_stop_tokens() {
    let mut generator = DummyTextGenerator::new("Hello world this is a test".to_string());

    let result = generator.generate("", 3, None);
    assert_eq!(result, Some("Hello world".to_string()));

    generator = DummyTextGenerator::new("Hello world this is a test".to_string());

    let stop_tokens = vec!["this".to_string()];
    let result = generator.generate("", 10, Some(stop_tokens));
    assert_eq!(result, Some("Hello world ".to_string()));
}

#[test]
fn test_generate_stream() {
    let mut generator = DummyTextGenerator::new("Test stream text".to_string());
    let results = generator.generate_stream("dummy prompt", 10, None);
    assert_eq!(results, vec!["Test", " ", "stream", " ", "text"]);
}

#[test]
fn generate_whole_text_within_limit() {
    let mut generator = DummyTextGenerator::new("a b  c".to_string());
    assert_eq!(generator.generate("", 100, None), Some("a b  c".to_string()));
}

#[test]
fn generate_stops_on_last_word() {
    let mut generator = DummyTextGenerator::new("one two".to_string());
    let stop = vec!["two".to_string()];
    assert_eq!(generator.generate("", 100, Some(stop)), Some("one ".to_string()));
}

#[test]
fn generate_empty_text_and_zero_limit() {
    let mut generator = DummyTextGenerator::new(String::new());
    assert_eq!(generator.generate("", 5, None), Some(String::new()));
    let mut generator = DummyTextGenerator::new("word".to_string());
    assert_eq!(generator.generate("", 0, None), Some(String::new()));
}

#[test]
fn generate_treats_tabs_and_newlines_as_whitespace() {
    let mut generator = DummyTextGenerator::new("x\ty\nz".to_string());
    assert_eq!(generator.generate_stream("", 0, None), vec!["x", "\t", "y", "\n", "z"]);
}
