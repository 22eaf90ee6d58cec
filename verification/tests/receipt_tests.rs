use greentic_providers::json::Json;
use greentic_providers::receipt::json_to_bytes;
use greentic_providers::receipt::stable_receipt_id;

fn webhook_sample_event() -> Json {
    Json::Obj(vec![
        ("id".to_string(), Json::Int(1)),
        ("kind".to_string(), Json::Str("test".to_string())),
    ])
}

#[test]
fn receipt_is_deterministic() {
    let payload = Json::Obj(vec![(
        "foo".to_string(),
        Json::Str("bar".to_string()),
    )]);
    let first = stable_receipt_id(&payload);
    let second = stable_receipt_id(&payload);
    assert_eq!(first, second);
}

#[test]
fn lib_receipt_is_deterministic() {
    let event = webhook_sample_event();
    let id1 = stable_receipt_id(&event);
    let id2 = stable_receipt_id(&event);
    assert_eq!(id1, id2);
}

#[test]
fn receipt_differs_for_distinct_payloads() {
    let a = stable_receipt_id(&Json::Str("foo".to_string()));
    let b = stable_receipt_id(&Json::Str("bar".to_string()));
    assert_ne!(a, b);
    assert_eq!(a.len(), 36);
    assert_eq!(b.len(), 36);
}

#[test]
fn canonical_encoding_is_compact_json() {
    let doc = Json::Obj(vec![
        ("a".to_string(), Json::Int(-5)),
        ("b".to_string(), Json::Bool(true)),
        ("c".to_string(), Json::Null),
        (
            "d".to_string(),
            Json::Arr(vec![Json::Str("x\"y\\z".to_string()), Json::Int(0)]),
        ),
    ]);
    let bytes = json_to_bytes(&doc);
    assert_eq!(
        bytes,
        b"{\"a\":-5,\"b\":true,\"c\":null,\"d\":[\"x\\\"y\\\\z\",0]}".to_vec()
    );
}

#[test]
fn canonical_encoding_matches_reference_serializer() {
    // On escape-free ASCII documents, the canonical encoding agrees byte for
    // byte with serde_json's compact encoding.
    let doc = Json::Obj(vec![
        ("foo".to_string(), Json::Str("bar".to_string())),
        ("n".to_string(), Json::Int(42)),
    ]);
    let mut reference_doc = serde_json::Map::new();
    reference_doc.insert(
        "foo".to_string(),
        serde_json::Value::String("bar".to_string()),
    );
    reference_doc.insert("n".to_string(), serde_json::Value::from(42));
    let reference =
        serde_json::to_vec(&serde_json::Value::Object(reference_doc)).expect("reference bytes");
    assert_eq!(json_to_bytes(&doc), reference);
}

#[test]
fn receipt_matches_name_based_uuid_of_canonical_bytes() {
    let doc = Json::Obj(vec![(
        "foo".to_string(),
        Json::Str("bar".to_string()),
    )]);
    let expected =
        uuid::Uuid::new_v5(&uuid::Uuid::NAMESPACE_OID, b"{\"foo\":\"bar\"}").to_string();
    assert_eq!(stable_receipt_id(&doc), expected);
}
