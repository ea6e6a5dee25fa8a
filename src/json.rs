//! JSON texts sent to the service: upload metadata and order payloads. String
//! values are written by serde_json, whose escaping is stated here; the objects
//! around them are assembled here.

use crate::model::{AudioMetadata, TranscriptionOptions};
use crate::text::{decimal, digit_char};
use vstd::prelude::*;

verus! {

/// Lower-case hexadecimal digit of a value below sixteen.
pub open spec fn hex_digit(d: nat) -> char {
    if d < 10 {
        digit_char(d)
    } else if d == 10 {
        'a'
    } else if d == 11 {
        'b'
    } else if d == 12 {
        'c'
    } else if d == 13 {
        'd'
    } else if d == 14 {
        'e'
    } else {
        'f'
    }
}

/// How a character stands inside a JSON string literal: quote and backslash
/// behind a backslash; backspace, tab, line feed, form feed and carriage return
/// as `\b`, `\t`, `\n`, `\f`, `\r`; other characters below 0x20 as `\u00`
/// and two lower-case hex digits; every other character as itself.
pub open spec fn json_escape(c: char) -> Seq<char> {
    if c == '"' {
        seq!['\\', '"']
    } else if c == '\\' {
        seq!['\\', '\\']
    } else if c == '\x08' {
        seq!['\\', 'b']
    } else if c == '\t' {
        seq!['\\', 't']
    } else if c == '\n' {
        seq!['\\', 'n']
    } else if c == '\x0C' {
        seq!['\\', 'f']
    } else if c == '\r' {
        seq!['\\', 'r']
    } else if (c as u32) < 0x20 {
        seq![
            '\\',
            'u',
            '0',
            '0',
            hex_digit((c as u32 / 16) as nat),
            hex_digit((c as u32 % 16) as nat),
        ]
    } else {
        seq![c]
    }
}

/// The characters of `s`, each as it stands inside a JSON string literal.
pub open spec fn json_escaped(s: Seq<char>) -> Seq<char>
    decreases s.len(),
{
    if s.len() == 0 {
        Seq::empty()
    } else {
        json_escaped(s.drop_last()) + json_escape(s.last())
    }
}

/// The JSON string literal of `s`: its escaped characters between double quotes.
pub open spec fn json_string_of(s: Seq<char>) -> Seq<char> {
    seq!['"'] + json_escaped(s) + seq!['"']
}

/// Relies on serde_json::to_string on a `str`: it writes into a byte vector and
/// so always succeeds, with the string between quotes and the escapes above
/// (serde_json's `format_escaped_str` and its `ESCAPE` table).
#[verifier::external_body]
fn json_string(s: &str) -> (r: Result<String, String>)
    ensures
        r is Ok,
        r matches Ok(q) ==> q@ == json_string_of(s@),
{
    match serde_json::to_string(s) {
        Ok(q) => Ok(q),
        Err(e) => Err(e.to_string()),
    }
}

fn quoted(s: &str) -> (q: String)
    ensures
        q@ == json_string_of(s@),
{
    match json_string(s) {
        Ok(q) => q,
        Err(_) => String::new(),
    }
}

/// The metadata object with its string fields already written as JSON literals,
/// keys in lower camel case, in the order of the metadata's fields.
pub open spec fn metadata_json_from(
    name_q: Seq<char>,
    path_q: Seq<char>,
    audio_size: u64,
    is_last: u8,
    block_index: u64,
    time_q: Seq<char>,
    id_q: Seq<char>,
) -> Seq<char> {
    "{\"audioName\":"@ + name_q + ",\"audioPath\":"@ + path_q + ",\"audioSize\":"@ + decimal(
        audio_size as nat,
    ) + ",\"isLast\":"@ + decimal(is_last as nat) + ",\"blockIndex\":"@ + decimal(
        block_index as nat,
    ) + ",\"audioTime\":"@ + time_q + ",\"fileId\":"@ + id_q + "}"@
}

/// The JSON text of `m`.
pub open spec fn metadata_json(m: AudioMetadata) -> Seq<char> {
    metadata_json_from(
        json_string_of(m.audio_name@),
        json_string_of(m.audio_path@),
        m.audio_size,
        m.is_last,
        m.block_index,
        json_string_of(m.audio_time@),
        json_string_of(m.file_id@),
    )
}

/// Assembles the metadata object from its string fields, already written as
/// JSON literals, and its numbers.
pub fn metadata_json_text(
    name_q: &str,
    path_q: &str,
    audio_size: u64,
    is_last: u8,
    block_index: u64,
    time_q: &str,
    id_q: &str,
) -> (r: String)
    ensures
        r@ == metadata_json_from(
            name_q@,
            path_q@,
            audio_size,
            is_last,
            block_index,
            time_q@,
            id_q@,
        ),
{
    let mut r = String::from_str("{\"audioName\":");
    r.append(name_q);
    r.append(",\"audioPath\":");
    r.append(path_q);
    r.append(",\"audioSize\":");
    r.append(crate::text::decimal_string(audio_size).as_str());
    r.append(",\"isLast\":");
    r.append(crate::text::decimal_string(is_last as u64).as_str());
    r.append(",\"blockIndex\":");
    r.append(crate::text::decimal_string(block_index).as_str());
    r.append(",\"audioTime\":");
    r.append(time_q);
    r.append(",\"fileId\":");
    r.append(id_q);
    r.append("}");
    r
}

impl AudioMetadata {
    /// The JSON text of the metadata.
    pub fn to_json(&self) -> (r: String)
        ensures
            r@ == metadata_json(*self),
    {
        let name_q = quoted(self.audio_name.as_str());
        let path_q = quoted(self.audio_path.as_str());
        let time_q = quoted(self.audio_time.as_str());
        let id_q = quoted(self.file_id.as_str());
        metadata_json_text(
            name_q.as_str(),
            path_q.as_str(),
            self.audio_size,
            self.is_last,
            self.block_index,
            time_q.as_str(),
            id_q.as_str(),
        )
    }
}

/// The order payload with its string values already written as JSON literals.
/// Keys stand in sorted order; the SMS flag is the string "1" or "0".
pub open spec fn order_payload_from(
    id_q: Seq<char>,
    hot_words_q: Seq<char>,
    need_sms: bool,
    language_q: Seq<char>,
) -> Seq<char> {
    "{\"files\":[{\"audioFrom\":\"B1\",\"fileFrom\":\"client\",\"fileId\":"@ + id_q
        + ",\"hotWords\":"@ + hot_words_q + ",\"keyWords\":\"\",\"roleNum\":\"\"}],\"hotWords\":"@
        + hot_words_q + ",\"language\":"@ + language_q + ",\"needSms\":"@ + (if need_sms {
        "\"1\""@
    } else {
        "\"0\""@
    }) + ",\"orderName\":\"\",\"orderType\":1,\"professionalField\":\"\",\"subtitleCount\":\"\"}"@
}

/// The order payload for the file `file_id` under `options`.
pub open spec fn order_payload(file_id: Seq<char>, options: TranscriptionOptions) -> Seq<char> {
    order_payload_from(
        json_string_of(file_id),
        json_string_of(options.hot_words@),
        options.need_sms,
        json_string_of(options.language@),
    )
}

/// Assembles the order payload from its string values, already written as JSON
/// literals, and the SMS flag.
pub fn order_payload_text(id_q: &str, hot_words_q: &str, need_sms: bool, language_q: &str) -> (r:
    String)
    ensures
        r@ == order_payload_from(id_q@, hot_words_q@, need_sms, language_q@),
{
    let mut r = String::from_str("{\"files\":[{\"audioFrom\":\"B1\",\"fileFrom\":\"client\",\"fileId\":");
    r.append(id_q);
    r.append(",\"hotWords\":");
    r.append(hot_words_q);
    r.append(",\"keyWords\":\"\",\"roleNum\":\"\"}],\"hotWords\":");
    r.append(hot_words_q);
    r.append(",\"language\":");
    r.append(language_q);
    r.append(",\"needSms\":");
    if need_sms {
        r.append("\"1\"");
    } else {
        r.append("\"0\"");
    }
    r.append(",\"orderName\":\"\",\"orderType\":1,\"professionalField\":\"\",\"subtitleCount\":\"\"}");
    r
}

/// The JSON payload that submits an order for `file_id` under `options`.
pub fn build_order_payload(file_id: &str, options: &TranscriptionOptions) -> (r: String)
    ensures
        r@ == order_payload(file_id@, *options),
{
    let id_q = quoted(file_id);
    let hot_words_q = quoted(options.hot_words.as_str());
    let language_q = quoted(options.language.as_str());
    order_payload_text(id_q.as_str(), hot_words_q.as_str(), options.need_sms, language_q.as_str())
}

} // verus!
