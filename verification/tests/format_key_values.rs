use resto::format_key_values::format_key_values;

fn pair(k: &str, v: &str) -> (String, String) {
    (String::from(k), String::from(v))
}

#[test]
fn test_when_empty_hashmap_passed() {
    let empty: Vec<(String, String)> = Vec::new();
    let result = format_key_values(&empty);
    assert_eq!(result, "");
}

#[test]
fn test_when_passed_correct_hashmap() {
    let map = vec![
        pair("Content-Type", "application/json"),
        pair("Authorization", "Bearer token123"),
        pair("Host", "api.example.com"),
    ];

    let result = format_key_values(&map);

    let lines: Vec<&str> = result.split('\n').collect();
    assert_eq!(lines.len(), 3);

    assert!(result.contains("Authorization : Bearer token123"));
    assert!(result.contains("Content-Type  : application/json"));
    assert!(result.contains("Host          : api.example.com"));

    // All colons are at the same position: the keys are aligned.
    let colon_positions: Vec<usize> = lines.iter().map(|line| line.find(" : ").unwrap()).collect();
    assert!(colon_positions.windows(2).all(|w| w[0] == w[1]));
}

#[test]
fn test_single_key_value_pair() {
    let map = vec![pair("Accept", "text/html")];

    let result = format_key_values(&map);
    assert_eq!(result, "Accept : text/html");
}

#[test]
fn test_keys_with_different_lengths() {
    let map = vec![
        pair("A", "short key"),
        pair("Very-Long-Header-Name", "long key value"),
        pair("Mid", "medium"),
    ];

    let result = format_key_values(&map);

    assert!(result.contains("A                     : short key"));
    assert!(result.contains("Mid                   : medium"));
    assert!(result.contains("Very-Long-Header-Name : long key value"));
}

#[test]
fn test_empty_values() {
    let map = vec![pair("Empty-Header", ""), pair("Normal-Header", "value")];

    let result = format_key_values(&map);
    assert!(result.contains("Empty-Header  : "));
    assert!(result.contains("Normal-Header : value"));
}

#[test]
fn test_keys_with_special_characters() {
    let map = vec![pair("X-Custom-Header", "custom-value"), pair("Content-Length", "1024")];

    let result = format_key_values(&map);
    assert!(result.contains("Content-Length  : 1024"));
    assert!(result.contains("X-Custom-Header : custom-value"));
}

#[test]
fn test_sorted_output_order() {
    let map = vec![pair("b", "2"), pair("a", "1"), pair("c", "3")];
    let result = format_key_values(&map);
    assert_eq!(result, "a : 1\nb : 2\nc : 3");
}
