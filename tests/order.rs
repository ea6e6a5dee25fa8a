use iflypen_api_rs::json::{build_order_payload, order_payload_text};
use iflypen_api_rs::order::{
    check_duration_status, duration_url, order_id_from_response, order_result_url,
};
use iflypen_api_rs::{
    map_api_error, BizData, IflyrecError, SubmitTranscriptionOrderResponse, TranscriptionOptions,
    TranscriptionOrder,
};

fn response(code: &str, desc: &str, biz: Option<BizData>) -> SubmitTranscriptionOrderResponse {
    SubmitTranscriptionOrderResponse { code: code.to_string(), desc: desc.to_string(), biz }
}

fn order(id: &str, origin: &str) -> TranscriptionOrder {
    TranscriptionOrder {
        order_id: id.to_string(),
        origin_audio_id: origin.to_string(),
        order_status: "completed".to_string(),
        order_name: "n".to_string(),
        create_time: 0,
        favorite_time: None,
        last_operate_time: 0,
        audio_durations: 0,
        hj_from: String::new(),
        hj_from_desc: String::new(),
        keyword: vec![],
        full_text_abstract: None,
        hj_size: 0,
        favorite_status: None,
        hj_status: None,
        file_source: String::new(),
        file_re_source: String::new(),
        hj_lock_status: String::new(),
        order_type: String::new(),
        transcript_status: None,
        type_: 0,
        output_type: 0,
        expedite_transcript: String::new(),
        file_id: String::new(),
        red_point_status: 0,
        example_order: None,
        thumbnail_link_list: None,
    }
}

#[test]
fn success_envelope_returns_order_id() {
    let r = response("000000", "ok", Some(BizData { order_id: "ord-1".to_string(), success: true }));
    assert_eq!(order_id_from_response(&r), Ok("ord-1".to_string()));
}

#[test]
fn unsuccessful_biz_is_order_id_unavailable() {
    let r = response("000000", "ok", Some(BizData { order_id: "ord-1".to_string(), success: false }));
    assert_eq!(order_id_from_response(&r), Err(IflyrecError::OrderIdUnavailable));
}

#[test]
fn missing_biz_is_order_id_unavailable() {
    let r = response("000000", "ok", None);
    assert_eq!(order_id_from_response(&r), Err(IflyrecError::OrderIdUnavailable));
}

#[test]
fn other_code_is_api_error() {
    let r = response("100001", "订单音频时长计算中", None);
    assert_eq!(
        order_id_from_response(&r),
        Err(IflyrecError::ApiError {
            code: "100001".to_string(),
            desc: "订单音频时长计算中".to_string()
        })
    );
}

#[test]
fn map_api_error_of_success_code_is_unknown() {
    assert_eq!(
        map_api_error("000000", "odd"),
        IflyrecError::Unknown("Unexpected error mapping for success code: odd".to_string())
    );
    assert_eq!(
        map_api_error("5", "bad"),
        IflyrecError::ApiError { code: "5".to_string(), desc: "bad".to_string() }
    );
}

#[test]
fn order_payload_embeds_options() {
    let opts = TranscriptionOptions {
        need_sms: true,
        hot_words: "Rust，AI".to_string(),
        language: "en".to_string(),
    };
    let p = build_order_payload("f-1", &opts);
    let v: serde_json::Value = serde_json::from_str(&p).unwrap();
    assert_eq!(v["needSms"], "1");
    assert_eq!(v["hotWords"], "Rust，AI");
    assert_eq!(v["language"], "en");
    assert_eq!(v["orderType"], 1);
    assert_eq!(v["professionalField"], "");
    assert_eq!(v["orderName"], "");
    assert_eq!(v["subtitleCount"], "");
    let files = v["files"].as_array().unwrap();
    assert_eq!(files.len(), 1);
    assert_eq!(files[0]["fileId"], "f-1");
    assert_eq!(files[0]["hotWords"], "Rust，AI");
    assert_eq!(files[0]["fileFrom"], "client");
    assert_eq!(files[0]["audioFrom"], "B1");
    assert_eq!(files[0]["roleNum"], "");
    assert_eq!(files[0]["keyWords"], "");
}

#[test]
fn order_payload_with_default_options() {
    let p = build_order_payload("x", &TranscriptionOptions::default());
    assert_eq!(
        p,
        "{\"files\":[{\"audioFrom\":\"B1\",\"fileFrom\":\"client\",\"fileId\":\"x\",\"hotWords\":\"\",\"keyWords\":\"\",\"roleNum\":\"\"}],\"hotWords\":\"\",\"language\":\"cn\",\"needSms\":\"0\",\"orderName\":\"\",\"orderType\":1,\"professionalField\":\"\",\"subtitleCount\":\"\"}"
    );
}

#[test]
fn order_payload_text_sets_sms_flag() {
    assert!(order_payload_text("\"i\"", "\"h\"", false, "\"l\"").contains("\"needSms\":\"0\""));
    assert!(order_payload_text("\"i\"", "\"h\"", true, "\"l\"").contains("\"needSms\":\"1\""));
}

#[test]
fn endpoint_addresses() {
    assert_eq!(
        duration_url("abc"),
        "https://www.iflyrec.com/TranscriptOrderService/v1/tempAudios/abc/calculateDuration"
    );
    assert_eq!(
        order_result_url(&order("o1", "a2")),
        "https://www.iflyrec.com/XFTJWebAdaptService/v1/hyjy/o1/transcriptResults/16?fileSource=app&originAudioId=a2"
    );
}

#[test]
fn duration_status_check() {
    assert_eq!(check_duration_status(200, "f"), Ok(()));
    assert_eq!(check_duration_status(204, "f"), Ok(()));
    assert_eq!(
        check_duration_status(500, "f"),
        Err(IflyrecError::DurationCalculationError(
            "Failed to calculate duration for file_id: f".to_string()
        ))
    );
}
