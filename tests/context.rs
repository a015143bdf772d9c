use cellbook::context::{CellContext, StoreSchema};
use serde::ser::SerializeSeq;
use cellbook::errors::ContextError;
use cellbook::tags::{split_versioned_type_name, validate_versioned_type, versioned_tag_string};
use cellbook::testing::TestContext;

/// The tags that the host gives these types: their full paths.
const VEC_U8: &str = "alloc::vec::Vec<u8>";
const VEC_U16: &str = "alloc::vec::Vec<u16>";
const VERSIONED_DATA: &str = "context::tests::VersionedData";

#[derive(Debug, PartialEq)]
struct VersionedData {
    value: u32,
}

impl serde::Serialize for VersionedData {
    fn serialize<S: serde::Serializer>(&self, s: S) -> Result<S::Ok, S::Error> {
        self.value.serialize(s)
    }
}

impl<'de> serde::Deserialize<'de> for VersionedData {
    fn deserialize<D: serde::Deserializer<'de>>(d: D) -> Result<Self, D::Error> {
        u32::deserialize(d).map(|value| VersionedData { value })
    }
}

impl StoreSchema for VersionedData {
    const VERSION: u32 = 1;
}

#[test]
fn load_versioned_round_trip() {
    let mut ctx = CellContext::new();
    let value = VersionedData { value: 42 };
    ctx.store_versioned("versioned_data", &value, VERSIONED_DATA)
        .expect("store_versioned should succeed");

    let loaded: VersionedData = ctx
        .load_versioned("versioned_data", VERSIONED_DATA)
        .expect("load_versioned should succeed");
    assert_eq!(loaded, value);
}

#[test]
fn load_rejects_type_mismatch() {
    let mut ctx = CellContext::new();
    let value = vec![1u8, 2, 3];
    ctx.store("data", &value, VEC_U8).expect("store should succeed");

    let err = ctx.load::<Vec<u16>>("data", VEC_U16).expect_err("load should fail");
    let ContextError::TypeMismatch { key, expected, found } = err else {
        panic!("expected type mismatch error");
    };

    assert_eq!(key, "data");
    assert_eq!(expected, VEC_U16);
    assert_eq!(found, VEC_U8);
}

#[test]
fn consume_rejects_type_mismatch() {
    let mut ctx = CellContext::new();
    let value = vec![1u8, 2, 3];
    ctx.store("data", &value, VEC_U8).expect("store should succeed");

    let err = ctx.consume::<Vec<u16>>("data", VEC_U16).expect_err("consume should fail");
    let ContextError::TypeMismatch { key, expected, found } = err else {
        panic!("expected type mismatch error");
    };

    assert_eq!(key, "data");
    assert_eq!(expected, VEC_U16);
    assert_eq!(found, VEC_U8);

    let still_present = ctx
        .load::<Vec<u8>>("data", VEC_U8)
        .expect("value should still be present after failed consume");
    assert_eq!(still_present, value);
}

#[test]
fn load_versioned_rejects_schema_mismatch() {
    let mut ctx = CellContext::new();
    let value = VersionedData { value: 7 };
    let bytes = postcard::to_stdvec(&value).expect("serialization should succeed");
    let tagged = format!("{}#v99", VERSIONED_DATA);
    ctx.store_bytes("versioned_data", bytes, &tagged);

    let err = ctx
        .load_versioned::<VersionedData>("versioned_data", VERSIONED_DATA)
        .expect_err("load_versioned should fail");
    let ContextError::SchemaVersionMismatch { key, expected, found } = err else {
        panic!("expected schema version mismatch error");
    };

    assert_eq!(key, "versioned_data");
    assert_eq!(expected, 1);
    assert_eq!(found, 99);
}

#[test]
fn consume_versioned_rejects_schema_mismatch_without_removal() {
    let mut ctx = CellContext::new();
    let value = VersionedData { value: 9 };
    let bytes = postcard::to_stdvec(&value).expect("serialization should succeed");
    let tagged = format!("{}#v3", VERSIONED_DATA);
    ctx.store_bytes("versioned_data", bytes, &tagged);

    let err = ctx
        .consume_versioned::<VersionedData>("versioned_data", VERSIONED_DATA)
        .expect_err("consume_versioned should fail");
    let ContextError::SchemaVersionMismatch { key, expected, found } = err else {
        panic!("expected schema version mismatch error");
    };

    assert_eq!(key, "versioned_data");
    assert_eq!(expected, 1);
    assert_eq!(found, 3);

    assert!(
        ctx.load_bytes("versioned_data", &tagged).is_ok(),
        "value should still be present after failed consume_versioned"
    );
}

#[test]
fn load_versioned_with_round_trip_without_store_schema_trait() {
    let mut ctx = CellContext::new();
    let value = vec![10u8, 20, 30];
    ctx.store_versioned_with("bytes", &value, VEC_U8, 5)
        .expect("store_versioned_with should succeed");

    let loaded: Vec<u8> = ctx
        .load_versioned_with("bytes", VEC_U8, 5)
        .expect("load_versioned_with should succeed");
    assert_eq!(loaded, value);
}

#[test]
fn load_versioned_with_rejects_schema_mismatch() {
    let mut ctx = CellContext::new();
    let value = vec![10u8, 20, 30];
    ctx.store_versioned_with("bytes", &value, VEC_U8, 5)
        .expect("store_versioned_with should succeed");

    let err = ctx
        .load_versioned_with::<Vec<u8>>("bytes", VEC_U8, 6)
        .expect_err("load_versioned_with should fail");
    let ContextError::SchemaVersionMismatch { key, expected, found } = err else {
        panic!("expected schema version mismatch error");
    };

    assert_eq!(key, "bytes");
    assert_eq!(expected, 6);
    assert_eq!(found, 5);
}

#[test]
fn store_then_load_int_and_long_scenario() {
    let mut ctx = CellContext::new();
    ctx.store("x", &5i32, "int").unwrap();
    assert_eq!(ctx.load::<i32>("x", "int").unwrap(), 5);
    let err = ctx.load::<i64>("x", "long").unwrap_err();
    assert!(matches!(err, ContextError::TypeMismatch { ref expected, ref found, .. } if expected == "long" && found == "int"));
}

#[test]
fn versioned_config_scenario() {
    let mut ctx = CellContext::new();
    ctx.store_versioned_with("cfg", &(1u32, 2u32), "Cfg", 1).unwrap();
    let err = ctx.load_versioned_with::<(u32, u32)>("cfg", "Cfg", 2).unwrap_err();
    assert!(matches!(err, ContextError::SchemaVersionMismatch { expected: 2, found: 1, .. }));
    assert_eq!(ctx.load_versioned_with::<(u32, u32)>("cfg", "Cfg", 1).unwrap(), (1, 2));
}

#[test]
fn round_trip_returns_equal_value() {
    let mut ctx = CellContext::new();
    let v = vec!["a".to_string(), "bc".to_string()];
    ctx.store("v", &v, "strings").unwrap();
    assert_eq!(ctx.load::<Vec<String>>("v", "strings").unwrap(), v);
    assert_eq!(ctx.list(), vec![("v".to_string(), "strings".to_string())]);
}

#[test]
fn consume_removes_only_on_success() {
    let mut ctx = CellContext::new();
    ctx.store("n", &3u8, "u8").unwrap();
    assert!(ctx.consume::<u8>("n", "u16").is_err());
    assert_eq!(ctx.list().len(), 1);
    assert_eq!(ctx.consume::<u8>("n", "u8").unwrap(), 3);
    assert!(ctx.list().is_empty());
    assert!(matches!(ctx.consume::<u8>("n", "u8"), Err(ContextError::NotFound(ref k)) if k == "n"));
}

#[test]
fn consume_keeps_value_when_bytes_do_not_decode() {
    let mut ctx = CellContext::new();
    ctx.store_bytes("s", vec![5, b'a'], "text");
    let err = ctx.consume::<String>("s", "text").unwrap_err();
    assert!(matches!(err, ContextError::Deserialization { ref key, .. } if key == "s"));
    assert_eq!(ctx.load_bytes("s", "text").unwrap(), vec![5, b'a']);
}

#[test]
fn unversioned_value_read_with_version_reports_version_zero() {
    let mut ctx = CellContext::new();
    ctx.store_bytes("k", vec![1], "T");
    let err = ctx.load_versioned_bytes("k", "T", 4).unwrap_err();
    assert!(matches!(err, ContextError::SchemaVersionMismatch { expected: 4, found: 0, .. }));
    let err = ctx.load_versioned_bytes("k", "U", 4).unwrap_err();
    assert!(matches!(err, ContextError::TypeMismatch { ref found, .. } if found == "T"));
}

#[test]
fn remove_reports_whether_key_existed() {
    let mut ctx = CellContext::new();
    ctx.store_bytes("k", vec![], "t");
    assert!(ctx.remove("k"));
    assert!(!ctx.remove("k"));
}

#[test]
fn versioned_tags_are_written_and_split() {
    assert_eq!(versioned_tag_string("my::Type", 42), "my::Type#v42");
    assert_eq!(versioned_tag_string("T", 0), "T#v0");
    assert_eq!(split_versioned_type_name("a#vb#v17"), Some(("a#vb".to_string(), 17)));
    assert_eq!(split_versioned_type_name("T#v+3"), Some(("T".to_string(), 3)));
    assert_eq!(split_versioned_type_name("T#v"), None);
    assert_eq!(split_versioned_type_name("T#v4294967296"), None);
    assert_eq!(split_versioned_type_name("T#v4294967295"), Some(("T".to_string(), 4294967295)));
    assert_eq!(split_versioned_type_name("T#vx"), None);
    assert_eq!(split_versioned_type_name("T"), None);
}

#[test]
fn validation_reports_base_name_mismatch_first() {
    let err = validate_versioned_type("k", "A#v1", "B", 2).unwrap_err();
    assert!(matches!(err, ContextError::TypeMismatch { ref expected, ref found, .. } if expected == "B" && found == "A"));
    assert!(validate_versioned_type("k", "A#v2", "A", 2).is_ok());
}

#[test]
fn error_messages_name_the_key() {
    let e = ContextError::NotFound("k".to_string());
    assert_eq!(e.message(), "context variable 'k' not found");
    let e = ContextError::SchemaVersionMismatch { key: "k".to_string(), expected: 2, found: 10 };
    assert_eq!(e.message(), "schema version mismatch for 'k': expected v2, found v10");
}

#[test]
fn test_context_starts_empty() {
    let mut t = TestContext::new("case");
    assert_eq!(t.prefix, "case");
    assert!(t.context.list().is_empty());
    t.context.store("a", &1u8, "u8").unwrap();
    assert_eq!(t.context.load::<u8>("a", "u8").unwrap(), 1);
}

/// A value whose encoding asks for a sequence of unknown length, which
/// postcard cannot write.
struct Unsized;

impl serde::Serialize for Unsized {
    fn serialize<S: serde::Serializer>(&self, s: S) -> Result<S::Ok, S::Error> {
        let seq = s.serialize_seq(None)?;
        seq.end()
    }
}

#[test]
fn store_reports_encoding_failure_and_keeps_store() {
    let mut ctx = CellContext::new();
    ctx.store_bytes("k", vec![1], "t");
    let err = ctx.store("k", &Unsized, "u").unwrap_err();
    assert!(matches!(err, ContextError::Serialization { ref key, .. } if key == "k"));
    assert_eq!(ctx.load_bytes("k", "t").unwrap(), vec![1]);
}
