use lancedb_index::config::{FieldValue, IndexConfig};
use lancedb_index::error::IndexError;

fn btree_config() -> IndexConfig {
    IndexConfig::from_engine("BTree".to_string(), vec!["a".to_string()], "a_idx".to_string())
}

#[test]
fn descriptor_renders_and_looks_up() {
    let c = btree_config();
    assert_eq!(c.__repr__(), "Index(BTree, columns=[\"a\"], name=\"a_idx\")");
    assert_eq!(c.__getitem__("index_name".to_string()).unwrap(), FieldValue::Text("a_idx".to_string()));
    assert_eq!(c.__getitem__("name".to_string()).unwrap(), FieldValue::Text("a_idx".to_string()));
    match c.__getitem__("bogus".to_string()) {
        Err(e) => {
            assert!(matches!(&e, IndexError::InvalidKey { key } if key == "bogus"));
            assert_eq!(e.message(), "Invalid key: bogus");
        }
        Ok(v) => panic!("unexpected {:?}", v),
    }
}

#[test]
fn descriptor_type_and_columns() {
    let c = btree_config();
    assert_eq!(c.__getitem__("index_type".to_string()).unwrap(), FieldValue::Text("BTree".to_string()));
    assert_eq!(
        c.__getitem__("columns".to_string()).unwrap(),
        FieldValue::List(vec!["a".to_string()])
    );
}

#[test]
fn descriptor_quotes_and_escapes_columns() {
    let c = IndexConfig::from_engine(
        "IvfPq".to_string(),
        vec!["x\"y".to_string(), "v".to_string()],
        "vec_idx".to_string(),
    );
    assert_eq!(c.__repr__(), "Index(IvfPq, columns=[\"x\\\"y\", \"v\"], name=\"vec_idx\")");
}

#[test]
fn descriptor_without_columns() {
    let c = IndexConfig::from_engine("Bitmap".to_string(), vec![], "b".to_string());
    assert_eq!(c.__repr__(), "Index(Bitmap, columns=[], name=\"b\")");
}

#[test]
fn repr_with_joins_given_pieces() {
    let c = btree_config();
    let quoted = vec!["<a>".to_string(), "<b>".to_string(), "<c>".to_string()];
    assert_eq!(c.repr_with(&quoted), "Index(BTree, columns=[<a>, <b>, <c>], name=\"a_idx\")");
}
