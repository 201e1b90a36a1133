use redis_http::format::{detect_response_format, ResponseFormat};
use redis_http::json::{
    format_hash_all_response_json, format_hash_field_response_json, format_redis_response_json,
};
use redis_http::response::{HashAllResponse, HashFieldResponse, RedisResponse};
use redis_http::text::{
    format_hash_all_response_text, format_hash_field_response_text, format_redis_response_text,
};
use redis_http::xml::{
    format_hash_all_response_xml, format_hash_field_response_xml, format_redis_response_xml,
};
use serde_json::Value;

#[test]
fn test_response_format_detection() {
    // Test JSON format detection
    let format = detect_response_format(Some("application/json".to_string()));
    assert!(matches!(format, ResponseFormat::Json));

    // Test XML format detection
    let format = detect_response_format(Some("application/xml".to_string()));
    assert!(matches!(format, ResponseFormat::Xml));

    // Test plain text format detection
    let format = detect_response_format(Some("text/plain".to_string()));
    assert!(matches!(format, ResponseFormat::Text));

    // Test default format (no Accept header)
    let format = detect_response_format(None);
    assert!(matches!(format, ResponseFormat::Json));

    // Test case insensitive detection
    let format = detect_response_format(Some("APPLICATION/XML".to_string()));
    assert!(matches!(format, ResponseFormat::Xml));
}

#[test]
fn test_redis_response_json_formatting() {
    let response = RedisResponse {
        success: true,
        result: Some("test_value".to_string()),
        error: None,
    };

    let json_str = format_redis_response_json(&response);
    let parsed: Value = serde_json::from_str(&json_str).unwrap();

    assert_eq!(parsed["success"], true);
    assert_eq!(parsed["result"], "test_value");
    assert_eq!(parsed["error"], Value::Null);
}

#[test]
fn test_redis_response_xml_formatting() {
    let response = RedisResponse {
        success: true,
        result: Some("test_value".to_string()),
        error: None,
    };

    let xml_str = format_redis_response_xml(&response);
    assert!(xml_str.contains("<success>true</success>"));
    assert!(xml_str.contains("<result>test_value</result>"));
    assert!(!xml_str.contains("<error>"));
}

#[test]
fn test_redis_response_text_formatting() {
    let response = RedisResponse {
        success: true,
        result: Some("test_value".to_string()),
        error: None,
    };

    let text_str = format_redis_response_text(&response);
    assert_eq!(text_str, "test_value");
}

#[test]
fn test_redis_response_error_formatting() {
    let response = RedisResponse {
        success: false,
        result: None,
        error: Some("Test error".to_string()),
    };

    // Test JSON
    let json_str = format_redis_response_json(&response);
    let parsed: Value = serde_json::from_str(&json_str).unwrap();
    assert_eq!(parsed["success"], false);
    assert_eq!(parsed["result"], Value::Null);
    assert_eq!(parsed["error"], "Test error");

    // Test XML
    let xml_str = format_redis_response_xml(&response);
    assert!(xml_str.contains("<success>false</success>"));
    assert!(xml_str.contains("<error>Test error</error>"));

    // Test Text
    let text_str = format_redis_response_text(&response);
    assert_eq!(text_str, "ERROR: Test error");
}

#[test]
fn test_hash_field_response_formatting() {
    let response = HashFieldResponse {
        success: true,
        value: Some("field_value".to_string()),
        error: None,
    };

    // Test JSON
    let json_str = format_hash_field_response_json(&response);
    let parsed: Value = serde_json::from_str(&json_str).unwrap();
    assert_eq!(parsed["success"], true);
    assert_eq!(parsed["value"], "field_value");
    assert_eq!(parsed["error"], Value::Null);

    // Test XML
    let xml_str = format_hash_field_response_xml(&response);
    assert!(xml_str.contains("<success>true</success>"));
    assert!(xml_str.contains("<value>field_value</value>"));

    // Test Text
    let text_str = format_hash_field_response_text(&response);
    assert_eq!(text_str, "field_value");
}

#[test]
fn test_hash_all_response_formatting() {
    let fields = vec![
        ("key1".to_string(), "value1".to_string()),
        ("key2".to_string(), "value2".to_string()),
    ];

    let response = HashAllResponse {
        success: true,
        fields: Some(fields),
        error: None,
    };

    // Test JSON
    let json_str = format_hash_all_response_json(&response);
    let parsed: Value = serde_json::from_str(&json_str).unwrap();
    assert_eq!(parsed["success"], true);
    assert_eq!(parsed["fields"]["key1"], "value1");
    assert_eq!(parsed["fields"]["key2"], "value2");

    // Test XML
    let xml_str = format_hash_all_response_xml(&response);
    assert!(xml_str.contains("<success>true</success>"));
    assert!(xml_str.contains("<key>key1</key>"));
    assert!(xml_str.contains("<value>value1</value>"));
    assert!(xml_str.contains("<key>key2</key>"));
    assert!(xml_str.contains("<value>value2</value>"));

    // Test Text
    let text_str = format_hash_all_response_text(&response);
    assert!(text_str.contains("key1: value1"));
    assert!(text_str.contains("key2: value2"));
}

#[test]
fn test_empty_hash_all_response() {
    let response = HashAllResponse {
        success: true,
        fields: Some(Vec::new()),
        error: None,
    };

    let text_str = format_hash_all_response_text(&response);
    assert_eq!(text_str, "OK");
}

#[test]
fn test_nonexistent_key_response() {
    let response = RedisResponse {
        success: true,
        result: None,
        error: None,
    };

    let text_str = format_redis_response_text(&response);
    assert_eq!(text_str, "OK");
}

#[test]
fn test_format_detection_token_anywhere() {
    // XML wins wherever the token sits, in any case, over other tokens
    let format = detect_response_format(Some("text/html, application/XML;q=0.9".to_string()));
    assert!(matches!(format, ResponseFormat::Xml));
    let format = detect_response_format(Some("foo TEXT/xml bar".to_string()));
    assert!(matches!(format, ResponseFormat::Xml));
    // xml beats a text/plain that is also present
    let format = detect_response_format(Some("text/plain, text/xml".to_string()));
    assert!(matches!(format, ResponseFormat::Xml));
    // text/plain without any xml token
    let format = detect_response_format(Some("TEXT/PLAIN; charset=utf-8".to_string()));
    assert!(matches!(format, ResponseFormat::Text));
    // anything else defaults to JSON
    let format = detect_response_format(Some("image/png".to_string()));
    assert!(matches!(format, ResponseFormat::Json));
    let format = detect_response_format(Some("".to_string()));
    assert!(matches!(format, ResponseFormat::Json));
}

#[test]
fn test_scalar_json_round_trip() {
    // Encoding then decoding a successful scalar result restores its parts
    let response = RedisResponse {
        success: true,
        result: Some("v".to_string()),
        error: None,
    };
    let encoded = format_redis_response_json(&response);
    let parsed: Value = serde_json::from_str(&encoded).unwrap();
    assert_eq!(parsed["success"], true);
    assert_eq!(parsed["result"], "v");
    assert_eq!(parsed["error"], Value::Null);
}

#[test]
fn test_empty_hash_json_is_empty_object_not_null() {
    let response = HashAllResponse {
        success: true,
        fields: Some(Vec::new()),
        error: None,
    };
    let encoded = format_hash_all_response_json(&response);
    assert_eq!(encoded, "{\"success\":true,\"fields\":{},\"error\":null}");
    let parsed: Value = serde_json::from_str(&encoded).unwrap();
    assert!(parsed["fields"].is_object());
    assert_eq!(parsed["fields"].as_object().unwrap().len(), 0);

    let absent = HashAllResponse {
        success: false,
        fields: None,
        error: Some("boom".to_string()),
    };
    let encoded = format_hash_all_response_json(&absent);
    let parsed: Value = serde_json::from_str(&encoded).unwrap();
    assert!(parsed["fields"].is_null());
}

#[test]
fn test_error_text_exact() {
    let with_message = HashAllResponse {
        success: false,
        fields: None,
        error: Some("no route to host".to_string()),
    };
    assert_eq!(
        format_hash_all_response_text(&with_message),
        "ERROR: no route to host"
    );
    let without_message = RedisResponse {
        success: false,
        result: None,
        error: None,
    };
    assert_eq!(format_redis_response_text(&without_message), "ERROR: Unknown error");
    let field_err = HashFieldResponse {
        success: false,
        value: None,
        error: None,
    };
    assert_eq!(format_hash_field_response_text(&field_err), "ERROR: Unknown error");
}

#[test]
fn test_hash_all_text_joined_lines() {
    let response = HashAllResponse {
        success: true,
        fields: Some(vec![
            ("key1".to_string(), "value1".to_string()),
            ("key2".to_string(), "value2".to_string()),
        ]),
        error: None,
    };
    assert_eq!(format_hash_all_response_text(&response), "key1: value1\nkey2: value2");

    let absent = HashAllResponse {
        success: true,
        fields: None,
        error: None,
    };
    assert_eq!(format_hash_all_response_text(&absent), "OK");
}

#[test]
fn test_xml_escapes_markup_in_values() {
    let response = RedisResponse {
        success: true,
        result: Some("a<b&\"c\"".to_string()),
        error: None,
    };
    let xml_str = format_redis_response_xml(&response);
    assert_eq!(
        xml_str,
        "<response><success>true</success><result>a&lt;b&amp;&quot;c&quot;</result></response>"
    );
}

#[test]
fn test_json_escapes_specials_in_values() {
    let response = RedisResponse {
        success: true,
        result: Some("say \"hi\"\nline\\two\u{1}".to_string()),
        error: None,
    };
    let encoded = format_redis_response_json(&response);
    assert_eq!(
        encoded,
        "{\"success\":true,\"result\":\"say \\\"hi\\\"\\nline\\\\two\\u0001\",\"error\":null}"
    );
    // and it parses back to the same text
    let parsed: Value = serde_json::from_str(&encoded).unwrap();
    assert_eq!(parsed["result"], "say \"hi\"\nline\\two\u{1}");
}
