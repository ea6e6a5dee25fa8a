//! Data carried by the workflow: upload metadata, order options, server
//! response envelopes, orders and transcripts.

use crate::constants::DEFAULT_LANGUAGE;
use vstd::prelude::*;

verus! {

/// Envelope answered by the upload endpoint.
#[derive(Clone, Debug, PartialEq)]
pub struct FileUploadApiResponse {
    pub code: String,
    pub desc: String,
    pub biz: FileUploadApiBizData,
}

/// Business payload of an upload answer.
#[derive(Clone, Debug, PartialEq)]
pub struct FileUploadApiBizData {
    pub file_id: String,
}

/// Envelope answered by the order-submission endpoint.
#[derive(Clone, Debug, PartialEq)]
pub struct SubmitTranscriptionOrderResponse {
    pub code: String,
    pub desc: String,
    pub biz: Option<BizData>,
}

/// Business payload of an order-submission answer.
#[derive(Clone, Debug, PartialEq)]
pub struct BizData {
    pub order_id: String,
    pub success: bool,
}

/// Options of a transcription order.
#[derive(Clone, Debug, PartialEq)]
pub struct TranscriptionOptions {
    pub need_sms: bool,
    /// Hot words, separated by the full-width comma `，`.
    pub hot_words: String,
    pub language: String,
}

/// Metadata sent in front of every upload block.
#[derive(Clone, Debug, PartialEq)]
pub struct AudioMetadata {
    pub audio_name: String,
    pub audio_path: String,
    pub audio_size: u64,
    pub is_last: u8,
    pub block_index: u64,
    pub audio_time: String,
    pub file_id: String,
}

/// Envelope answered by the order-result endpoint.
#[derive(Clone, Debug, PartialEq)]
pub struct GetOrderResultResponse {
    pub biz: GetOrderResultBiz,
}

/// Business payload of an order-result answer; the transcript is itself JSON text.
#[derive(Clone, Debug, PartialEq)]
pub struct GetOrderResultBiz {
    pub transcript_result: String,
}

/// A finished transcript: paragraphs of words, and the speakers.
#[derive(Clone, Debug, PartialEq)]
pub struct TranscriptResult {
    pub paragraphs: Vec<Paragraph>,
    pub roles: Vec<Role>,
}

/// One paragraph of a transcript.
#[derive(Clone, Debug, PartialEq)]
pub struct Paragraph {
    /// Start and end time of the paragraph.
    pub paragraph_time: Vec<i64>,
    pub role: String,
    pub words: Vec<Word>,
}

/// One word of a transcript.
#[derive(Clone, Debug, PartialEq)]
pub struct Word {
    pub modal: bool,
    pub role: String,
    pub text: String,
    pub time: Vec<i64>,
    pub wp: String,
}

/// A speaker of a transcript.
#[derive(Clone, Debug, PartialEq)]
pub struct Role {
    pub name: String,
    pub role: String,
    pub updated_at: i64,
}

/// Envelope answered by the recent-orders endpoint.
#[derive(Clone, Debug, PartialEq)]
pub struct GetRecentOrdersResponse {
    pub biz: GetRecentOrdersBiz,
}

/// Business payload of a recent-orders answer.
#[derive(Clone, Debug, PartialEq)]
pub struct GetRecentOrdersBiz {
    pub hj_list: Vec<TranscriptionOrder>,
}

/// A transcription order as the server lists it.
#[derive(Clone, Debug, PartialEq)]
pub struct TranscriptionOrder {
    pub order_id: String,
    pub origin_audio_id: String,
    pub order_status: String,
    pub order_name: String,
    pub create_time: i64,
    pub favorite_time: Option<i64>,
    pub last_operate_time: i64,
    pub audio_durations: i64,
    pub hj_from: String,
    pub hj_from_desc: String,
    pub keyword: Vec<String>,
    pub full_text_abstract: Option<String>,
    pub hj_size: i64,
    pub favorite_status: Option<String>,
    pub hj_status: Option<String>,
    pub file_source: String,
    pub file_re_source: String,
    pub hj_lock_status: String,
    pub order_type: String,
    pub transcript_status: Option<String>,
    pub type_: i32,
    pub output_type: i32,
    pub expedite_transcript: String,
    pub file_id: String,
    pub red_point_status: i32,
    pub example_order: Option<String>,
    pub thumbnail_link_list: Option<Vec<String>>,
}

/// Paging cursor of the recent-orders listing; none of its fields is read.
#[derive(Clone, Debug, PartialEq)]
pub struct ScrollQueryParam {}

impl AudioMetadata {
    /// Collects the metadata fields.
    pub fn new(
        audio_name: String,
        audio_path: String,
        audio_size: u64,
        audio_time: String,
        is_last: u8,
        block_index: u64,
        file_id: String,
    ) -> (r: Self)
        ensures
            r.audio_name == audio_name,
            r.audio_path == audio_path,
            r.audio_size == audio_size,
            r.audio_time == audio_time,
            r.is_last == is_last,
            r.block_index == block_index,
            r.file_id == file_id,
    {
        AudioMetadata { audio_name, audio_path, audio_size, is_last, block_index, audio_time, file_id }
    }
}

impl Default for TranscriptionOptions {
    /// No SMS notice, no hot words, language "cn".
    fn default() -> (r: Self)
        ensures
            !r.need_sms,
            r.hot_words@.len() == 0,
            r.language@ == DEFAULT_LANGUAGE@,
    {
        TranscriptionOptions {
            need_sms: false,
            hot_words: String::new(),
            language: String::from_str(DEFAULT_LANGUAGE),
        }
    }
}

} // verus!
