use grpc_vision_svc::errors::CaptionError;
use grpc_vision_svc::model_loader::{Model, ModelConfig};

#[test]
fn model_keeps_its_paths() {
    let model = Model::new(
        String::from("some/path/model.safetensors"),
        String::from("some/path/tokenizer.json"),
    );
    assert_eq!(model.model_path().as_str(), "some/path/model.safetensors");
    assert_eq!(model.tokenizer_path().as_str(), "some/path/tokenizer.json");
}

#[test]
fn model_into_inner_returns_both_paths() {
    let model = Model::new(
        String::from("some/path/model.safetensors"),
        String::from("some/path/tokenizer.json"),
    );
    let (model_path, tokenizer_path) = model.into_inner();
    assert_eq!(model_path, "some/path/model.safetensors");
    assert_eq!(tokenizer_path, "some/path/tokenizer.json");
}

#[test]
fn model_config_holds_catalog_entry() {
    let cfg = ModelConfig {
        repository: String::from("some-repo/test-model"),
        revision: Some(String::from("main")),
        model: String::from("model.safetensors"),
        tokenizer: String::from("tokenizer.json"),
    };
    assert_eq!(cfg.repository, "some-repo/test-model");
    assert_eq!(cfg.revision.as_deref(), Some("main"));
    assert_eq!(cfg.model, "model.safetensors");
    assert_eq!(cfg.tokenizer, "tokenizer.json");
}

#[test]
fn caption_error_messages_are_preserved() {
    let err = CaptionError::UnsupportedFormat(String::from("unknown signature"));
    assert_eq!(err.message().as_str(), "unknown signature");
    let err = CaptionError::DecodeError(String::from("bad payload"));
    assert_eq!(err.message().as_str(), "bad payload");
    let err = CaptionError::ProcessingFailure(String::from("shape mismatch"));
    assert_eq!(err.message().as_str(), "shape mismatch");
}
