use tiygate_client::provider::{is_image_model, AuthMode, OpenAiProvider, ProtocolSuite};

#[test]
fn test_openai_provider_metadata() {
    let provider = OpenAiProvider::new();
    assert_eq!(provider.id(), "openai");
    assert_eq!(provider.metadata().display_name, "OpenAI");
    assert_eq!(provider.metadata().base_url, "https://api.openai.com/v1");
    assert!(matches!(provider.metadata().auth_mode, AuthMode::Bearer));
    assert_eq!(provider.metadata().channels.len(), 1);
    assert_eq!(provider.metadata().channels[0], "default");
}

#[test]
fn test_openai_supported_protocols() {
    let provider = OpenAiProvider::new();
    let protocols = provider.supported_protocols();
    assert!(!protocols.is_empty());
    assert_eq!(protocols[0].suite, ProtocolSuite::OpenAiResponses);
    assert_eq!(protocols.len(), 3);
    assert!(protocols.iter().any(|p| p.name == "images-generations"));
    assert!(protocols.iter().any(|p| p.name == "images-edits"));
}

#[test]
fn test_openai_egress_protocol_for_image_model() {
    let provider = OpenAiProvider::new();
    let endpoint = provider.egress_protocol_for_model("gpt-image-1");
    assert_eq!(endpoint.suite, ProtocolSuite::OpenAiCompatible);
    assert_eq!(endpoint.name, "images-generations");
}

#[test]
fn test_openai_egress_protocol_for_dall_e_model() {
    let provider = OpenAiProvider::new();
    let endpoint = provider.egress_protocol_for_model("dall-e-3");
    assert_eq!(endpoint.suite, ProtocolSuite::OpenAiCompatible);
    assert_eq!(endpoint.name, "images-generations");
}

#[test]
fn test_openai_egress_protocol_for_chat_model() {
    let provider = OpenAiProvider::new();
    let endpoint = provider.egress_protocol_for_model("gpt-4o");
    assert_eq!(endpoint.suite, ProtocolSuite::OpenAiResponses);
}

#[test]
fn default_provider_matches_new() {
    let provider = OpenAiProvider::default();
    assert_eq!(provider.id(), "openai");
    assert_eq!(provider.supported_protocols().len(), 3);
    assert_eq!(provider.supported_protocols()[1].name, "images-generations");
    assert_eq!(provider.supported_protocols()[1].version, "v1");
    assert_eq!(provider.supported_protocols()[2].name, "images-edits");
}

#[test]
fn image_model_ignores_tag_owner_and_case() {
    assert!(is_image_model("openai/GPT-Image-1:latest"));
    assert!(is_image_model("DALL-E-2"));
    assert!(is_image_model("org/team/dall-e-3"));
    assert!(!is_image_model("image-org/gpt-4o"));
    assert!(!is_image_model("gpt-4o:image"));
    assert!(!is_image_model(""));
    assert!(!is_image_model("dall_e"));
    assert!(!is_image_model("imag"));
}

#[test]
fn chat_models_use_the_responses_endpoint() {
    let provider = OpenAiProvider::new();
    let endpoint = provider.egress_protocol_for_model("gpt-4o:image");
    assert_eq!(endpoint.suite, ProtocolSuite::OpenAiResponses);
    let endpoint = provider.egress_protocol_for_model("vendor/Image-Gen");
    assert_eq!(endpoint.suite, ProtocolSuite::OpenAiCompatible);
    assert_eq!(endpoint.version, "v1");
    for id in ["gpt-4o", "dall-e-3", "x/y:z"] {
        let e = provider.egress_protocol_for_model(id);
        assert!(provider
            .supported_protocols()
            .iter()
            .any(|p| p.suite == e.suite && p.name == e.name && p.version == e.version));
    }
}
