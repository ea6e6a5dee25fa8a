//! Endpoints and fixed protocol values of the transcription service.

use vstd::prelude::*;

verus! {

/// Upload endpoint for framed blocks.
pub const FILE_UPLOAD_URL: &'static str = "https://www.iflyrec.com/AudioStreamService/v1/audios?type=block";

/// Order-submission endpoint.
pub const SUBMIT_TRANSCRIPTION_ORDER_URL: &'static str =
    "https://www.iflyrec.com/XFTJPCAdaptService/v1/B1/orders/";

/// Recent-orders endpoint.
pub const GET_RECENT_ORDERS_URL: &'static str =
    "https://www.iflyrec.com/XFTJWebAdaptService/v2/hjProcess/recentOperationFiles";

/// Duration endpoint, before the file identifier.
pub const CALCULATE_DURATION_URL_PREFIX: &'static str =
    "https://www.iflyrec.com/TranscriptOrderService/v1/tempAudios/";

/// Duration endpoint, after the file identifier.
pub const CALCULATE_DURATION_URL_SUFFIX: &'static str = "/calculateDuration";

/// Order-result endpoint, before the order id.
pub const GET_ORDER_RESULT_URL_PREFIX: &'static str =
    "https://www.iflyrec.com/XFTJWebAdaptService/v1/hyjy/";

/// Order-result endpoint, between the order id and the origin-audio id.
pub const GET_ORDER_RESULT_URL_MIDDLE: &'static str =
    "/transcriptResults/16?fileSource=app&originAudioId=";

/// Business id sent with every request.
pub const BIZ_ID: &'static str = "tjzs";

/// Default order language.
pub const DEFAULT_LANGUAGE: &'static str = "cn";

/// Prefix of the server-side audio path.
pub const DEFAULT_AUDIO_PATH_PREFIX: &'static str = "tjb1/";

/// Response code of a successful call.
pub const SUCCESS_CODE: &'static str = "000000";

/// Response description of a successful final upload.
pub const SUCCESS_DESC: &'static str = "success";

/// Description text of an order refused while the server still computes the audio duration.
pub const DURATION_COMPUTING_MARKER: &'static str = "订单音频时长计算中";

} // verus!
