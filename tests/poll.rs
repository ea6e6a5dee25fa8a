use iflypen_api_rs::order::{find_order, poll_order};
use iflypen_api_rs::{IflyrecError, RetryDriver, RetryStep, TranscriptionOrder};

fn order(id: &str, status: &str) -> TranscriptionOrder {
    TranscriptionOrder {
        order_id: id.to_string(),
        origin_audio_id: format!("audio-{id}"),
        order_status: status.to_string(),
        order_name: format!("name-{id}"),
        create_time: 1,
        favorite_time: Some(2),
        last_operate_time: 3,
        audio_durations: 4,
        hj_from: "client".to_string(),
        hj_from_desc: String::new(),
        keyword: vec!["k".to_string()],
        full_text_abstract: None,
        hj_size: 5,
        favorite_status: None,
        hj_status: None,
        file_source: String::new(),
        file_re_source: String::new(),
        hj_lock_status: String::new(),
        order_type: "1".to_string(),
        transcript_status: None,
        type_: 0,
        output_type: 0,
        expedite_transcript: String::new(),
        file_id: String::new(),
        red_point_status: 0,
        example_order: None,
        thumbnail_link_list: None,
    }
}

/// Polls the listings in turn under the retry driver: how many polls it made and
/// how polling ended.
fn poll(listings: Vec<Vec<TranscriptionOrder>>, id: &str) -> (u32, Result<TranscriptionOrder, IflyrecError>) {
    let mut driver = RetryDriver::new();
    for list in listings {
        match driver.record(poll_order(list, id)) {
            RetryStep::Done(o) => return (driver.attempts(), Ok(o)),
            RetryStep::GiveUp(e) => return (driver.attempts(), Err(e)),
            RetryStep::Wait(_) => {}
        }
    }
    panic!("the driver asked for more polls than there are listings");
}

#[test]
fn order_found_on_call_m_plus_one() {
    for m in 0..5usize {
        let mut listings = Vec::new();
        for _ in 0..m {
            listings.push(vec![order("other", "completed")]);
        }
        listings.push(vec![order("other", "completed"), order("target", "processing")]);
        let (calls, result) = poll(listings, "target");
        assert_eq!(calls as usize, m + 1);
        let found = result.unwrap();
        assert_eq!(found.order_id, "target");
        assert_eq!(found.order_status, "processing");
    }
}

#[test]
fn order_never_listed_fails_after_five_calls() {
    let listings = (0..8).map(|_| vec![order("other", "completed")]).collect();
    let (calls, result) = poll(listings, "target");
    assert_eq!(calls, 5);
    assert!(matches!(result, Err(IflyrecError::OrderProcessing(_))));
}

#[test]
fn find_takes_first_matching_order() {
    let list = vec![order("a", "x"), order("b", "first"), order("b", "second")];
    let found = find_order(list, "b").unwrap();
    assert_eq!(found.order_status, "first");
}

#[test]
fn find_in_empty_list_is_none() {
    assert_eq!(find_order(vec![], "a"), None);
    assert_eq!(find_order(vec![order("ab", "x")], "a"), None);
}

#[test]
fn poll_of_missing_order_is_processing() {
    assert!(matches!(poll_order(vec![order("a", "x")], "b"), Err(IflyrecError::OrderProcessing(_))));
    assert_eq!(poll_order(vec![order("a", "x")], "a"), Ok(order("a", "x")));
}
