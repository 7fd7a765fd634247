use lancedb_index::distance::DistanceType;
use lancedb_index::error::IndexError;
use lancedb_index::index::{
    FtsOptions, Index, IndexSlot, IndexVariant, IvfHnswPqOptions, IvfHnswSqOptions,
};

#[test]
fn btree_is_taken_once() {
    let handle = Index::btree().unwrap();
    assert_eq!(handle.consume().unwrap(), IndexVariant::BTree);
    match handle.consume() {
        Err(e) => {
            assert!(matches!(e, IndexError::AlreadyConsumed));
            assert_eq!(e.message(), "cannot use a configuration more than once");
        }
        Ok(v) => panic!("second take returned {:?}", v),
    }
}

#[test]
fn bitmap_and_label_list() {
    assert_eq!(Index::bitmap().unwrap().consume().unwrap(), IndexVariant::Bitmap);
    assert_eq!(Index::label_list().unwrap().consume().unwrap(), IndexVariant::LabelList);
}

#[test]
fn ivf_pq_keeps_engine_defaults() {
    let handle = Index::ivf_pq(Some("dot".to_string()), Some(256), None, None, None, None).unwrap();
    match handle.consume().unwrap() {
        IndexVariant::IvfPq(o) => {
            assert_eq!(o.distance_type, Some(DistanceType::Dot));
            assert_eq!(o.num_partitions, Some(256));
            assert_eq!(o.sample_rate, None);
            assert_eq!(o.num_sub_vectors, None);
            assert_eq!(o.num_bits, None);
            assert_eq!(o.max_iterations, None);
        }
        other => panic!("unexpected {:?}", other),
    }
}

#[test]
fn ivf_pq_refuses_unknown_distance() {
    match Index::ivf_pq(Some("L2".to_string()), None, None, None, None, None) {
        Err(IndexError::InvalidDistanceType { value }) => assert_eq!(value, "L2"),
        Err(e) => panic!("unexpected {:?}", e),
        Ok(_) => panic!("accepted an unknown distance"),
    }
}

#[test]
fn hnsw_pq_sets_graph_options() {
    let handle = Index::hnsw_pq(
        Some("cosine".to_string()),
        Some(8),
        Some(16),
        Some(4),
        Some(50),
        Some(128),
        Some(20),
        Some(300),
    )
    .unwrap();
    assert_eq!(
        handle.consume().unwrap(),
        IndexVariant::IvfHnswPq(IvfHnswPqOptions {
            distance_type: Some(DistanceType::Cosine),
            num_partitions: Some(8),
            num_sub_vectors: Some(16),
            num_bits: Some(4),
            max_iterations: Some(50),
            sample_rate: Some(128),
            m: Some(20),
            ef_construction: Some(300),
        })
    );
}

#[test]
fn hnsw_sq_with_defaults() {
    let handle = Index::hnsw_sq(None, None, None, None, Some(12), None).unwrap();
    assert_eq!(
        handle.consume().unwrap(),
        IndexVariant::IvfHnswSq(IvfHnswSqOptions {
            distance_type: None,
            num_partitions: None,
            max_iterations: None,
            sample_rate: None,
            m: Some(12),
            ef_construction: None,
        })
    );
}

#[test]
fn hnsw_sq_refuses_unknown_distance() {
    assert!(matches!(
        Index::hnsw_sq(Some("hamming".to_string()), None, None, None, None, None),
        Err(IndexError::InvalidDistanceType { .. })
    ));
}

#[test]
fn fts_keeps_every_option() {
    let handle = Index::fts(
        Some(true),
        Some("simple".to_string()),
        Some("English".to_string()),
        None,
        None,
        Some(false),
        Some(true),
        None,
        Some(true),
    )
    .unwrap();
    assert_eq!(
        handle.consume().unwrap(),
        IndexVariant::FTS(FtsOptions {
            with_position: Some(true),
            base_tokenizer: Some("simple".to_string()),
            language: Some("English".to_string()),
            max_token_length: None,
            lower_case: Some(false),
            stem: Some(true),
            remove_stop_words: None,
            ascii_folding: Some(true),
        })
    );
}

#[test]
fn fts_refuses_a_rejected_language() {
    let r = Index::fts(
        None,
        None,
        Some("Klingon".to_string()),
        Some("unknown language".to_string()),
        None,
        None,
        None,
        None,
        None,
    );
    match r {
        Err(e) => {
            assert!(matches!(
                &e,
                IndexError::InvalidLanguage { language, reason }
                    if language == "Klingon" && reason == "unknown language"
            ));
            assert_eq!(e.message(), "Invalid language 'Klingon': unknown language");
        }
        Ok(_) => panic!("accepted a rejected language"),
    }
}

#[test]
fn fts_ignores_a_rejection_without_language() {
    let handle =
        Index::fts(None, None, None, Some("unused".to_string()), Some(40), None, None, None, None)
            .unwrap();
    match handle.consume().unwrap() {
        IndexVariant::FTS(o) => {
            assert_eq!(o.language, None);
            assert_eq!(o.max_token_length, Some(40));
        }
        other => panic!("unexpected {:?}", other),
    }
}

#[test]
fn slot_take_empties_the_slot() {
    let mut slot = IndexSlot::Loaded(IndexVariant::Bitmap);
    assert_eq!(slot.take().unwrap(), IndexVariant::Bitmap);
    assert!(matches!(slot, IndexSlot::Consumed));
    assert!(matches!(slot.take(), Err(IndexError::AlreadyConsumed)));
    assert!(matches!(slot, IndexSlot::Consumed));
}

#[test]
fn independent_handles_each_hand_out_once() {
    let h1 = Index::ivf_pq(None, Some(4), None, None, None, None).unwrap();
    let h2 = Index::ivf_pq(None, Some(4), None, None, None, None).unwrap();
    let v1 = h1.consume().unwrap();
    assert!(h1.consume().is_err());
    assert_eq!(h2.consume().unwrap(), v1);
}
