//! The decisions of the two-phase upload: metadata of the registration and of
//! the final block, their frames, and the reading of both answers.

use crate::constants::{DEFAULT_AUDIO_PATH_PREFIX, SUCCESS_CODE, SUCCESS_DESC};
use crate::error::IflyrecError;
use crate::frame::{be32_value, frame, frame_block, law_frame_round_trip, unframe, MAX_BODY_LEN};
use crate::json::metadata_json;
use crate::model::{AudioMetadata, FileUploadApiResponse};
use crate::text::{decimal, decimal_string, str_equal};
use crate::util::{calculate_wav_duration, wav_duration};
use vstd::prelude::*;
use vstd::utf8::encode_utf8;

verus! {

/// The UTF-8 bytes of the metadata's JSON text.
pub open spec fn metadata_bytes(m: AudioMetadata) -> Seq<u8> {
    encode_utf8(metadata_json(m))
}

impl AudioMetadata {
    /// The framed metadata: the byte length of its JSON text in four big-endian
    /// bytes, then that text in UTF-8.
    /// Fails only when that text is too long for the prefix.
    pub fn to_binary_block(&self) -> (r: Result<Vec<u8>, IflyrecError>)
        ensures
            r is Ok <==> metadata_bytes(*self).len() <= MAX_BODY_LEN,
            r matches Ok(b) ==> b@ == frame(metadata_bytes(*self)),
            r matches Err(e) ==> e is InvalidParameter,
    {
        let text = self.to_json();
        let bytes = text.as_str().as_bytes();
        frame_block(bytes)
    }

    /// The metadata of the final block: this metadata marked as last, block index
    /// one, with the file identifier handed out by the registration.
    pub fn into_final(self, file_id: String) -> (r: AudioMetadata)
        ensures
            r == (AudioMetadata { is_last: 1, block_index: 1, file_id, ..self }),
    {
        AudioMetadata { is_last: 1, block_index: 1, file_id, ..self }
    }
}

/// The prefix of a metadata block states the exact byte length of the JSON text
/// that follows it, and reading the block, with the audio bytes after it, gives
/// back that JSON text and the audio bytes.
pub proof fn law_metadata_block_round_trip(m: AudioMetadata, audio: Seq<u8>)
    requires
        metadata_bytes(m).len() <= MAX_BODY_LEN,
    ensures
        be32_value(frame(metadata_bytes(m)).take(4)) == metadata_bytes(m).len(),
        unframe(frame(metadata_bytes(m)) + audio) == Some((metadata_bytes(m), audio)),
{
    law_frame_round_trip(metadata_bytes(m), audio);
}

/// Server-side path of an uploaded file named `file_name`.
pub open spec fn server_audio_path_of(file_name: Seq<char>) -> Seq<char> {
    DEFAULT_AUDIO_PATH_PREFIX@ + file_name
}

/// The server-side path for the file name `file_name`.
pub fn server_audio_path(file_name: &str) -> (r: String)
    ensures
        r@ == server_audio_path_of(file_name@),
{
    let mut r = String::from_str(DEFAULT_AUDIO_PATH_PREFIX);
    r.append(file_name);
    r
}

/// The metadata that registers a file of `file_size` bytes: not last, block index
/// zero, no file identifier, and the duration estimate of the size.
pub fn initial_metadata(task_name: String, audio_path: String, file_size: u64) -> (r: AudioMetadata)
    ensures
        r.audio_name == task_name,
        r.audio_path == audio_path,
        r.audio_size == file_size,
        r.audio_time@ == wav_duration(file_size),
        r.is_last == 0,
        r.block_index == 0,
        r.file_id@.len() == 0,
{
    let audio_time = calculate_wav_duration(file_size);
    AudioMetadata::new(task_name, audio_path, file_size, audio_time, 0, 0, String::new())
}

/// The answer to a registration hands out a file identifier: success code and a
/// non-empty identifier.
pub open spec fn registration_accepted(r: FileUploadApiResponse) -> bool {
    r.code@ == SUCCESS_CODE@ && r.biz.file_id@.len() > 0
}

/// The file identifier that a registration answer hands out; a registration error
/// when the code is not the success code or the identifier is empty.
pub fn registration_file_id(resp: &FileUploadApiResponse) -> (r: Result<String, IflyrecError>)
    ensures
        r is Ok <==> registration_accepted(*resp),
        r matches Ok(id) ==> id == resp.biz.file_id,
        r matches Err(e) ==> e is RegistrationError,
        resp.code@ != SUCCESS_CODE@ ==> (r matches Err(IflyrecError::RegistrationError(m)) && m@
            == "registration refused: "@ + resp.code@ + " - "@ + resp.desc@),
{
    if !str_equal(resp.code.as_str(), SUCCESS_CODE) {
        let mut m = String::from_str("registration refused: ");
        m.append(resp.code.as_str());
        m.append(" - ");
        m.append(resp.desc.as_str());
        return Err(IflyrecError::RegistrationError(m));
    }
    if resp.biz.file_id.as_str().is_empty() {
        return Err(IflyrecError::RegistrationError(String::from_str("registration returned no file id")));
    }
    Ok(resp.biz.file_id.clone())
}

/// The body of the final upload: the framed metadata, then the audio bytes with
/// nothing between.
pub fn final_upload_body(meta: &AudioMetadata, audio: Vec<u8>) -> (r: Result<Vec<u8>, IflyrecError>)
    ensures
        r is Ok <==> metadata_bytes(*meta).len() <= MAX_BODY_LEN,
        r matches Ok(b) ==> b@ == frame(metadata_bytes(*meta)) + audio@,
        r matches Err(e) ==> e is InvalidParameter,
{
    let mut block = meta.to_binary_block()?;
    let mut audio = audio;
    block.append(&mut audio);
    Ok(block)
}

/// Text of the error for an HTTP status that is not a success.
pub open spec fn status_failure_text(status: u16) -> Seq<char> {
    "Upload request failed with status: "@ + decimal(status as nat)
}

/// Whether an HTTP status is a success (2xx).
pub open spec fn is_success_status(status: u16) -> bool {
    200 <= status <= 299
}

/// Checks the HTTP status of the final upload.
pub fn check_upload_status(status: u16) -> (r: Result<(), IflyrecError>)
    ensures
        r is Ok <==> is_success_status(status),
        r matches Err(e) ==> e matches IflyrecError::UploadError(m) && m@ == status_failure_text(
            status,
        ),
{
    if 200 <= status && status <= 299 {
        Ok(())
    } else {
        let mut m = String::from_str("Upload request failed with status: ");
        m.append(decimal_string(status as u64).as_str());
        Err(IflyrecError::UploadError(m))
    }
}

/// The answer to the final upload accepts it: success code and success description.
pub open spec fn final_upload_accepted(r: FileUploadApiResponse) -> bool {
    r.code@ == SUCCESS_CODE@ && r.desc@ == SUCCESS_DESC@
}

/// Reads the answer to the final upload: the registered `file_id` when it is
/// accepted, else an upload error with the code and description.
pub fn final_upload_file_id(resp: &FileUploadApiResponse, file_id: String) -> (r: Result<
    String,
    IflyrecError,
>)
    ensures
        r is Ok <==> final_upload_accepted(*resp),
        r matches Ok(id) ==> id == file_id,
        r matches Err(e) ==> e matches IflyrecError::UploadError(m) && m@ == resp.code@ + " - "@
            + resp.desc@,
{
    if str_equal(resp.code.as_str(), SUCCESS_CODE) && str_equal(resp.desc.as_str(), SUCCESS_DESC) {
        Ok(file_id)
    } else {
        let mut m = resp.code.clone();
        m.append(" - ");
        m.append(resp.desc.as_str());
        Err(IflyrecError::UploadError(m))
    }
}

} // verus!
