use chat_rs::json::Json;
use chat_rs::metadata::{Metadata, Usage};

#[test]
fn test_metadata_default() {
    let metadata = Metadata::default();
    assert!(metadata.id.is_none());
    assert!(metadata.model_slug.is_none());
    assert!(metadata.system_fingerprint.is_none());
    assert_eq!(metadata.usage.total_tokens, 0);
    assert!(metadata.duration_ms.is_none());
    assert!(metadata.specific.is_empty());
    assert!(metadata.created_at.is_none());
}

#[test]
fn test_metadata_with_id() {
    let metadata = Metadata {
        id: Some("test-id-123".to_string()),
        ..Default::default()
    };
    assert_eq!(metadata.id.as_ref().unwrap(), "test-id-123");
}

#[test]
fn test_metadata_with_model_slug() {
    let metadata = Metadata {
        model_slug: Some("gpt-4".to_string()),
        ..Default::default()
    };
    assert_eq!(metadata.model_slug.as_ref().unwrap(), "gpt-4");
}

#[test]
fn test_metadata_with_usage() {
    let usage = Usage {
        input_tokens: 100,
        output_tokens: 50,
        total_tokens: 150,
        reasoning_tokens: 10,
        cache_creation_input_tokens: 5,
        cache_read_input_tokens: 3,
    };
    let metadata = Metadata {
        usage: usage.clone(),
        ..Default::default()
    };
    assert_eq!(metadata.usage.input_tokens, 100);
    assert_eq!(metadata.usage.output_tokens, 50);
    assert_eq!(metadata.usage.total_tokens, 150);
    assert_eq!(metadata.usage.reasoning_tokens, 10);
}

#[test]
fn test_metadata_with_duration() {
    let metadata = Metadata {
        duration_ms: Some(1500),
        ..Default::default()
    };
    assert_eq!(metadata.duration_ms.unwrap(), 1500);
}

#[test]
fn test_metadata_with_specific_data() {
    let mut metadata = Metadata::default();
    metadata.insert_specific(
        "safety_ratings".to_string(),
        Json::array(vec![Json::from_str("safe"), Json::from_str("filtered")]),
    );
    metadata.insert_specific(
        "citation_metadata".to_string(),
        Json::object(vec![("source".to_string(), Json::from_str("wikipedia"))]),
    );
    assert_eq!(metadata.specific.len(), 2);
    assert!(metadata.specific.iter().any(|(k, _)| k == "safety_ratings"));
    assert!(metadata.specific.iter().any(|(k, _)| k == "citation_metadata"));
}

#[test]
fn test_metadata_with_created_at() {
    let timestamp = 1640000000u64;
    let metadata = Metadata {
        created_at: Some(timestamp),
        ..Default::default()
    };
    assert_eq!(metadata.created_at.unwrap(), timestamp);
}

#[test]
fn test_metadata_with_system_fingerprint() {
    let metadata = Metadata {
        system_fingerprint: Some("fp_abc123".to_string()),
        ..Default::default()
    };
    assert_eq!(metadata.system_fingerprint.as_ref().unwrap(), "fp_abc123");
}

#[test]
fn test_metadata_clone() {
    let metadata = Metadata {
        id: Some("clone-test".to_string()),
        usage: Usage {
            total_tokens: 100,
            ..Default::default()
        },
        ..Default::default()
    };
    let cloned = metadata.clone();
    assert_eq!(metadata.id, cloned.id);
    assert_eq!(metadata.usage.total_tokens, cloned.usage.total_tokens);
}

#[test]
fn test_metadata_partial_eq() {
    let metadata1 = Metadata {
        id: Some("same".to_string()),
        ..Default::default()
    };
    let metadata2 = Metadata {
        id: Some("same".to_string()),
        ..Default::default()
    };
    let metadata3 = Metadata {
        id: Some("different".to_string()),
        ..Default::default()
    };
    assert_eq!(metadata1, metadata2);
    assert_ne!(metadata1, metadata3);
}

#[test]
fn test_metadata_with_all_fields() {
    let mut metadata = Metadata {
        id: Some("full-test".to_string()),
        model_slug: Some("model-v3".to_string()),
        system_fingerprint: Some("fp_full".to_string()),
        usage: Usage {
            input_tokens: 1000,
            output_tokens: 500,
            total_tokens: 1500,
            reasoning_tokens: 100,
            cache_creation_input_tokens: 50,
            cache_read_input_tokens: 25,
        },
        duration_ms: Some(3000),
        specific: Vec::new(),
        created_at: Some(1700000000),
    };
    metadata.insert_specific("custom".to_string(), Json::from_str("data"));
    assert_eq!(metadata.id.as_ref().unwrap(), "full-test");
    assert_eq!(metadata.model_slug.as_ref().unwrap(), "model-v3");
    assert_eq!(metadata.usage.total_tokens, 1500);
    assert_eq!(metadata.duration_ms.unwrap(), 3000);
    assert_eq!(metadata.created_at.unwrap(), 1700000000);
    assert_eq!(metadata.specific.len(), 1);
}

#[test]
fn metadata_equality_ignores_the_order_of_specific_entries() {
    let mut a = Metadata::default();
    a.insert_specific("x".to_string(), Json::UInt(1));
    a.insert_specific("y".to_string(), Json::UInt(2));
    let mut b = Metadata::default();
    b.insert_specific("y".to_string(), Json::UInt(2));
    b.insert_specific("x".to_string(), Json::UInt(1));
    assert_eq!(a, b);
    b.insert_specific("x".to_string(), Json::UInt(3));
    assert_ne!(a, b);
}

#[test]
fn extend_folds_a_later_report_in() {
    let mut earlier = Metadata {
        id: Some("first".to_string()),
        model_slug: Some("m1".to_string()),
        usage: Usage {
            input_tokens: 10,
            output_tokens: 5,
            total_tokens: 15,
            ..Default::default()
        },
        ..Default::default()
    };
    earlier.insert_specific("a".to_string(), Json::UInt(1));
    let mut later = Metadata {
        id: Some("second".to_string()),
        usage: Usage {
            input_tokens: 1,
            output_tokens: 2,
            total_tokens: 3,
            ..Default::default()
        },
        duration_ms: Some(7),
        ..Default::default()
    };
    later.insert_specific("a".to_string(), Json::UInt(2));
    earlier.extend(&later);
    assert_eq!(earlier.id.as_deref(), Some("second"));
    assert_eq!(earlier.model_slug.as_deref(), Some("m1"));
    assert_eq!(earlier.usage.input_tokens, 11);
    assert_eq!(earlier.usage.output_tokens, 7);
    assert_eq!(earlier.usage.total_tokens, 18);
    assert_eq!(earlier.duration_ms, Some(7));
    assert_eq!(earlier.specific.len(), 1);
    assert_eq!(earlier.specific[0].1, Json::UInt(2));
}

#[test]
fn usage_sums_saturate() {
    let a = Usage {
        total_tokens: usize::MAX - 1,
        ..Default::default()
    };
    let b = Usage {
        total_tokens: 5,
        ..Default::default()
    };
    assert_eq!(a.add(&b).total_tokens, usize::MAX);
}
