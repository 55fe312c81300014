use kv_bench::mode::Operation;
use kv_bench::request::{
    append_decimal, checked_json, decimal_string, frame_write_body, make_key, make_value,
    read_body, request_url, write_body, write_body_from, EncodeError, Request,
};

#[test]
fn decimal_of_numbers() {
    assert_eq!(decimal_string(0), "0");
    assert_eq!(decimal_string(7), "7");
    assert_eq!(decimal_string(10), "10");
    assert_eq!(decimal_string(1234567890), "1234567890");
    assert_eq!(decimal_string(usize::MAX), format!("{}", usize::MAX));
}

#[test]
fn append_decimal_keeps_the_text() {
    let mut s = String::from("n=");
    append_decimal(&mut s, 405);
    assert_eq!(s, "n=405");
}

#[test]
fn keys_and_values_name_client_and_index() {
    assert_eq!(make_key(3, 17), "key_3_17");
    assert_eq!(make_value(3, 17), "value_3_17");
    assert_eq!(make_key(0, 0), "key_0_0");
    assert_eq!(make_value(127, 9999), "value_127_9999");
    assert_ne!(make_key(1, 23), make_key(12, 3));
}

#[test]
fn urls_end_in_the_operation() {
    assert_eq!(
        request_url("http://127.0.0.1:21001", Operation::Write),
        "http://127.0.0.1:21001/write"
    );
    assert_eq!(
        request_url("http://127.0.0.1:21001", Operation::Read),
        "http://127.0.0.1:21001/read"
    );
}

#[test]
fn read_body_is_a_json_string() {
    assert_eq!(read_body("key_1_2").unwrap(), "\"key_1_2\"");
    assert_eq!(read_body("a\"b\\c\n").unwrap(), "\"a\\\"b\\\\c\\n\"");
    let back: String = serde_json::from_str(&read_body("key_4_5").unwrap()).unwrap();
    assert_eq!(back, "key_4_5");
}

#[test]
fn write_body_is_a_set_object() {
    assert_eq!(
        write_body("key_1_2", "value_1_2").unwrap(),
        "{\"Set\":{\"key\":\"key_1_2\",\"value\":\"value_1_2\"}}"
    );
    let mut inner = serde_json::Map::new();
    inner.insert("key".to_string(), serde_json::Value::String("k\"1".to_string()));
    inner.insert("value".to_string(), serde_json::Value::String("v\t2".to_string()));
    let mut outer = serde_json::Map::new();
    outer.insert("Set".to_string(), serde_json::Value::Object(inner));
    let expected = serde_json::Value::Object(outer);
    let parsed: serde_json::Value =
        serde_json::from_str(&write_body("k\"1", "v\t2").unwrap()).unwrap();
    assert_eq!(parsed, expected);
    assert_eq!(
        write_body("k\"1", "v\t2").unwrap(),
        serde_json::to_string(&expected).unwrap()
    );
}

#[test]
fn frame_write_body_joins_its_parts() {
    assert_eq!(
        frame_write_body("\"a\"", "\"b\""),
        "{\"Set\":{\"key\":\"a\",\"value\":\"b\"}}"
    );
    assert_eq!(frame_write_body("", ""), "{\"Set\":{\"key\":,\"value\":}}");
}

#[test]
fn request_url_and_body() {
    let write = Request {
        op: Operation::Write,
        key: "key_0_1".to_string(),
        value: "value_0_1".to_string(),
    };
    assert_eq!(write.url("http://h"), "http://h/write");
    assert_eq!(
        write.body().unwrap(),
        "{\"Set\":{\"key\":\"key_0_1\",\"value\":\"value_0_1\"}}"
    );
    let read = Request {
        op: Operation::Read,
        key: "key_0_1".to_string(),
        value: "value_0_1".to_string(),
    };
    assert_eq!(read.url("http://h"), "http://h/read");
    assert_eq!(read.body().unwrap(), "\"key_0_1\"");
}

#[test]
fn checked_json_keeps_text_and_replaces_errors() {
    assert_eq!(checked_json(Ok("\"a\"".to_string())), Ok("\"a\"".to_string()));
    let refused = serde_json::from_str::<String>("not json").map(|_| String::new());
    assert!(refused.is_err());
    assert_eq!(checked_json(refused), Err(EncodeError::Json));
    assert_eq!(checked_json(serde_json::to_string("k")), Ok("\"k\"".to_string()));
}

#[test]
fn keys_differ_between_requests() {
    let mut keys: Vec<String> = Vec::new();
    let mut values: Vec<String> = Vec::new();
    for client in 0..25usize {
        for index in 0..25usize {
            keys.push(make_key(client, index));
            values.push(make_value(client, index));
        }
    }
    let count = keys.len();
    keys.sort();
    keys.dedup();
    values.sort();
    values.dedup();
    assert_eq!(keys.len(), count);
    assert_eq!(values.len(), count);
}

#[test]
fn write_body_from_needs_both_texts() {
    let refused = || serde_json::from_str::<String>("not json");
    assert_eq!(
        write_body_from(Ok("\"k\"".to_string()), Ok("\"v\"".to_string())),
        Ok("{\"Set\":{\"key\":\"k\",\"value\":\"v\"}}".to_string())
    );
    assert_eq!(
        write_body_from(serde_json::to_string("k"), serde_json::to_string("v")),
        write_body("k", "v")
    );
    assert_eq!(write_body_from(refused(), Ok("\"v\"".to_string())), Err(EncodeError::Json));
    assert_eq!(write_body_from(Ok("\"k\"".to_string()), refused()), Err(EncodeError::Json));
    assert_eq!(write_body_from(refused(), refused()), Err(EncodeError::Json));
}

#[test]
fn bodies_are_returned_for_every_text() {
    let texts = ["", "plain", "a\"b", "back\\slash", "line\nbreak", "\u{1}\u{1f}", "\u{7f}", "\u{e9}\u{4e16}\u{1f600}"];
    for key in texts {
        let body = read_body(key).unwrap();
        let back: String = serde_json::from_str(&body).unwrap();
        assert_eq!(back, key);
        for value in texts {
            let body = write_body(key, value).unwrap();
            let parsed: serde_json::Value = serde_json::from_str(&body).unwrap();
            let outer = parsed.as_object().unwrap();
            assert_eq!(outer.len(), 1);
            let inner = outer.get("Set").unwrap().as_object().unwrap();
            assert_eq!(inner.len(), 2);
            assert_eq!(inner.get("key").unwrap().as_str().unwrap(), key);
            assert_eq!(inner.get("value").unwrap().as_str().unwrap(), value);
        }
    }
}

#[test]
fn plain_texts_are_sent_as_they_stand() {
    assert_eq!(read_body("").unwrap(), "\"\"");
    assert_eq!(read_body("key_12_345").unwrap(), "\"key_12_345\"");
    assert_eq!(read_body("\u{7f} \u{e9}\u{4e16}").unwrap(), "\"\u{7f} \u{e9}\u{4e16}\"");
    assert_eq!(
        write_body("a b", "c/d").unwrap(),
        "{\"Set\":{\"key\":\"a b\",\"value\":\"c/d\"}}"
    );
}

#[test]
fn escaped_texts_are_not_sent_raw() {
    assert_eq!(read_body("\"").unwrap(), "\"\\\"\"");
    assert_eq!(read_body("\\").unwrap(), "\"\\\\\"");
    assert_eq!(read_body("\u{1f}").unwrap(), "\"\\u001f\"");
    assert_eq!(read_body("\t").unwrap(), "\"\\t\"");
}
