use rzem_mj_lora::candle_inference::{build_qwen_prompt, Qwen2VLInference};
use rzem_mj_lora::remote_api::{
    build_remote_request, build_request_content, build_skill_prompt, extract_json_text,
    interpret_remote_response, Content, RemoteError,
};
use rzem_mj_lora::offline_analyzer::{
    check_system_requirements, ensure_model_ready, memory_verdict, OfflineAnalysisError,
};
use rzem_mj_lora::model_manager::ModelStatus;
use rzem_mj_lora::settings::{AppSettings, ModelVariant};

#[test]
fn test_prompt_generation() {
    let prompt = build_qwen_prompt("123456", 3);
    assert!(prompt.contains("SREF code 123456"));
    assert!(prompt.contains("3 style reference images"));
    assert!(prompt.contains("<|vision_start|>"));
}

#[test]
fn test_prompt_placeholder_count_and_code() {
    let prompt = build_qwen_prompt("123456", 3);
    assert_eq!(prompt.matches("<|vision_start|><|image_pad|><|vision_end|>").count(), 3);
    // The fixed template names the style code once in the analysis sentence
    // (it is embedded a second time after --sref, as the template fixes).
    assert_eq!(prompt.matches("SREF code 123456").count(), 1);
    assert_eq!(prompt.matches("--sref 123456").count(), 1);
    let user_section = prompt.split("<|im_start|>user").nth(1).unwrap();
    assert!(user_section.contains("123456"));
}

#[test]
fn test_prompt_zero_images() {
    let prompt = build_qwen_prompt("7", 0);
    assert!(!prompt.contains("<|vision_start|>"));
    assert!(prompt.contains("0 style reference images"));
}

#[test]
fn test_skill_prompt_embeds_code() {
    let p = build_skill_prompt("987654");
    assert!(p.contains("style reference images for SREF code: 987654"));
    assert_eq!(p.matches("--sref 987654").count(), 2);
    assert!(p.contains("\"sref_code\": \"987654\""));
    assert!(p.contains("Return ONLY JSON"));
}

#[test]
fn test_request_content_layout() {
    let images = vec![
        ("AAAA".to_string(), "image/png".to_string()),
        ("BBBB".to_string(), "image/jpeg".to_string()),
    ];
    let content = build_request_content(images, "42");
    assert_eq!(content.len(), 3);
    match &content[0] {
        Content::Image(ic) => {
            assert_eq!(ic.content_type, "image");
            assert_eq!(ic.source.source_type, "base64");
            assert_eq!(ic.source.data, "AAAA");
            assert_eq!(ic.source.media_type, "image/png");
        }
        other => panic!("expected image entry, got {:?}", other),
    }
    match &content[1] {
        Content::Image(ic) => {
            assert_eq!(ic.source.data, "BBBB");
            assert_eq!(ic.source.media_type, "image/jpeg");
        }
        other => panic!("expected image entry, got {:?}", other),
    }
    match &content[2] {
        Content::Text(tc) => {
            assert_eq!(tc.content_type, "text");
            assert_eq!(tc.text, build_skill_prompt("42"));
        }
        other => panic!("expected text entry, got {:?}", other),
    }
}

#[test]
fn test_extract_json_from_labeled_fence() {
    let text = "Here is the result:\n```json\n{\"a\": 1}\n```\nThanks!";
    assert_eq!(extract_json_text(text), "{\"a\": 1}");
}

#[test]
fn test_extract_json_from_plain_fence() {
    let text = "```\n{\"b\": 2}\n```";
    assert_eq!(extract_json_text(text), "{\"b\": 2}");
}

#[test]
fn test_extract_json_without_fence_trims() {
    assert_eq!(extract_json_text("  {\"x\": 2}\n"), "{\"x\": 2}");
    assert_eq!(extract_json_text("plain text"), "plain text");
}

#[test]
fn test_extract_json_unclosed_fence() {
    assert_eq!(extract_json_text("```json\n{\"a\": 1}"), "{\"a\": 1}");
}

#[test]
fn test_remote_response_http_error() {
    let r = interpret_remote_response(404, "oops".to_string(), None);
    match r {
        Err(RemoteError::Http { status, body }) => {
            assert_eq!(status, 404);
            assert_eq!(body, "oops");
            assert_eq!(
                RemoteError::Http { status, body }.message(),
                "Remote API error (404): oops"
            );
        }
        other => panic!("expected Http error, got {:?}", other),
    }
}

#[test]
fn test_remote_response_unparsable_body() {
    let r = interpret_remote_response(200, "garbage".to_string(), None);
    assert_eq!(r, Err(RemoteError::UnparsableResponse));
}

#[test]
fn test_remote_response_no_text_entry() {
    let r = interpret_remote_response(200, "{}".to_string(), Some(vec![None, None]));
    assert_eq!(r, Err(RemoteError::NoTextContent));
}

#[test]
fn test_remote_response_extracts_and_validates_json() {
    let texts = vec![None, Some("```json\n{\"k\": true}\n```".to_string())];
    let r = interpret_remote_response(200, "{}".to_string(), Some(texts));
    assert_eq!(r, Ok("{\"k\": true}".to_string()));
}

#[test]
fn test_remote_response_rejects_non_json_answer() {
    let texts = vec![Some("certainly! here is prose, not JSON".to_string())];
    let r = interpret_remote_response(200, "{}".to_string(), Some(texts));
    assert_eq!(r, Err(RemoteError::NotJson));
}

#[test]
fn test_check_system_requirements() {
    let settings = AppSettings::default();
    let result = check_system_requirements(&settings);
    // Can't assert pass/fail as it depends on the machine.
    println!("System check result: {:?}", result);
}

#[test]
fn test_memory_verdict_exact() {
    match memory_verdict(ModelVariant::Qwen2VL2B, 3) {
        Err(OfflineAnalysisError::InsufficientMemory { required, available }) => {
            assert_eq!(required, 4);
            assert_eq!(available, 3);
            let e = OfflineAnalysisError::InsufficientMemory { required, available };
            assert_eq!(e.message(), "Insufficient memory. Requires 4GB, available 3GB");
        }
        other => panic!("expected InsufficientMemory, got {:?}", other),
    }
    assert!(memory_verdict(ModelVariant::Qwen2VL2B, 4).is_ok());
    assert!(memory_verdict(ModelVariant::Qwen2VL7B, 15).is_err());
    assert!(memory_verdict(ModelVariant::Qwen2VL72B, 512).is_ok());
}

#[test]
fn test_ensure_model_ready() {
    assert!(ensure_model_ready(&ModelStatus::Ready).is_ok());
    let r = ensure_model_ready(&ModelStatus::NotDownloaded);
    assert!(matches!(r, Err(OfflineAnalysisError::ModelNotFound)));
    let r = ensure_model_ready(&ModelStatus::Error { message: "x".to_string() });
    assert!(matches!(r, Err(OfflineAnalysisError::ModelNotFound)));
}

#[test]
fn test_stub_inference_answers_json() {
    let mut engine = Qwen2VLInference::new("/tmp/models/qwen2-vl-2b".to_string(), ModelVariant::Qwen2VL2B);
    let prompt = build_qwen_prompt("123456", 2);
    let answer = engine.analyze_images(2, &prompt).unwrap();
    assert_eq!(answer, engine.generate_stub_response());
    assert!(serde_json::from_str::<serde_json::Value>(&answer).is_ok());
}

#[test]
fn test_remote_request_envelope() {
    let images = vec![("QUJD".to_string(), "image/png".to_string())];
    let req = build_remote_request("configured-model".to_string(), images, "314159");
    assert_eq!(req.model, "configured-model");
    assert_eq!(req.max_tokens, 8192);
    assert_eq!(req.role, "user");
    assert_eq!(req.content.len(), 2);
    match &req.content[1] {
        Content::Text(tc) => assert_eq!(tc.text, build_skill_prompt("314159")),
        other => panic!("expected trailing text entry, got {:?}", other),
    }
}
