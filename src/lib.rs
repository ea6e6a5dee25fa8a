//! Client-side core of a speech-transcription workflow: the length-prefixed
//! upload framing, order submission with its retry policy, the polling state
//! machine, and flattening of finished transcripts into text.

pub mod constants;
pub mod error;
pub mod frame;
pub mod json;
pub mod model;
pub mod order;
pub mod retry;
pub mod session;
pub mod text;
pub mod transcript;
pub mod transport;
pub mod upload;
pub mod util;

pub use error::{map_api_error, IflyrecError};
pub use model::{
    AudioMetadata, BizData, FileUploadApiBizData, FileUploadApiResponse, GetOrderResultBiz,
    GetOrderResultResponse, GetRecentOrdersBiz, GetRecentOrdersResponse, Paragraph, Role,
    ScrollQueryParam, SubmitTranscriptionOrderResponse, TranscriptResult, TranscriptionOptions,
    TranscriptionOrder, Word,
};
pub use retry::{RetryDriver, RetryStep};
pub use util::{
    build_transcription_options, calculate_wav_duration, extract_task_name,
    generate_random_file_name, process_hot_words,
};
