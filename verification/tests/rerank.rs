use otari::types::GatewayRerankRequest;
use otari::{RerankOptions, RerankParams};

#[test]
fn test_from_rerank_params() {
    let params = RerankParams {
        model_id: "cohere:rerank-v3.5".to_string(),
        query: "test query".to_string(),
        documents: vec!["doc1".to_string(), "doc2".to_string()],
        top_n: Some(2),
        max_tokens_per_doc: None,
        user: None,
    };
    let req = GatewayRerankRequest::from(params);
    assert_eq!(req.model, "cohere:rerank-v3.5");
    assert_eq!(req.query, "test query");
    assert_eq!(req.documents.len(), 2);
    assert_eq!(req.top_n, Some(2));
}

#[test]
fn rerank_options_become_params() {
    let mut options = RerankOptions::default();
    options.top_n = Some(3);
    options.api_key = Some("k".to_string());
    let config = options.provider_config();
    assert_eq!(config.api_key, Some("k".to_string()));
    assert!(config.api_base.is_none());
    let params = options.into_params("m", "q", vec!["a".to_string()]);
    assert_eq!(params.model_id, "m");
    assert_eq!(params.query, "q");
    assert_eq!(params.top_n, Some(3));
    assert_eq!(params.documents, vec!["a".to_string()]);
}
