//! Helpers of the upload workflow and the command line: duration estimate,
//! server-side file names, task names and hot words.

use crate::model::TranscriptionOptions;
use crate::text::{chars_of, decimal, decimal_string};
use rand::Rng;
use vstd::prelude::*;

verus! {

/// Duration estimate of a file of `file_size` bytes: the size divided by 32,
/// truncated, in base ten.
pub open spec fn wav_duration(file_size: u64) -> Seq<char> {
    decimal((file_size / 32) as nat)
}

/// Estimates the duration of an audio file from its size alone.
pub fn calculate_wav_duration(file_size: u64) -> (r: String)
    ensures
        r@ == wav_duration(file_size),
{
    decimal_string(file_size / 32)
}

/// Server-side file name for the number `n`: `audio_{n}.wav`.
pub open spec fn audio_file_name_of(n: u32) -> Seq<char> {
    "audio_"@ + decimal(n as nat) + ".wav"@
}

/// The server-side file name for the number `n`.
pub fn audio_file_name(n: u32) -> (r: String)
    ensures
        r@ == audio_file_name_of(n),
{
    let mut r = String::from_str("audio_");
    r.append(decimal_string(n as u64).as_str());
    r.append(".wav");
    r
}

/// Smallest number of a server-side file name.
pub const AUDIO_NUMBER_MIN: u32 = 1000;

/// Largest number of a server-side file name.
pub const AUDIO_NUMBER_MAX: u32 = 9999;

/// Relies on rand's `rng().random_range(lo..=hi)`: a number drawn from that
/// range, which is not empty.
#[verifier::external_body]
fn random_in_range(lo: u32, hi: u32) -> (n: u32)
    requires
        lo <= hi,
    ensures
        lo <= n <= hi,
{
    rand::rng().random_range(lo..=hi)
}

/// A server-side file name with a random four-digit number.
pub fn generate_random_file_name() -> (r: String)
    ensures
        exists|n: u32| AUDIO_NUMBER_MIN <= n <= AUDIO_NUMBER_MAX && r@ == audio_file_name_of(n),
{
    let n = random_in_range(AUDIO_NUMBER_MIN, AUDIO_NUMBER_MAX);
    audio_file_name(n)
}

/// What `std::path::Path::file_stem` gives for the path `path`: the file name
/// without its extension, if the path has a file name.
pub uninterp spec fn file_stem_of(path: Seq<char>) -> Option<Seq<char>>;

/// Relies on std's `Path::file_stem` for the path `path`, which is valid UTF-8 as
/// is every part of it.
#[verifier::external_body]
fn path_file_stem(path: &str) -> (r: Option<String>)
    ensures
        r matches Some(s) ==> file_stem_of(path@) == Some(s@),
        r is None ==> file_stem_of(path@) is None,
{
    match std::path::Path::new(path).file_stem() {
        Some(s) => Some(s.to_string_lossy().into_owned()),
        None => None,
    }
}

/// The task name: `custom_name` when given, else the file's stem, else "output".
pub open spec fn task_name_for(audio_path: Seq<char>, custom_name: Option<Seq<char>>) -> Seq<char> {
    match custom_name {
        Some(n) => n,
        None => match file_stem_of(audio_path) {
            Some(s) => s,
            None => "output"@,
        },
    }
}

/// The name of a transcription task for the file at `audio_path`.
pub fn extract_task_name(audio_path: &str, custom_name: Option<String>) -> (r: String)
    ensures
        r@ == task_name_for(
            audio_path@,
            match custom_name {
                Some(n) => Some(n@),
                None => None,
            },
        ),
{
    match custom_name {
        Some(name) => name,
        None => match path_file_stem(audio_path) {
            Some(s) => s,
            None => String::from_str("output"),
        },
    }
}

/// `s` with every ASCII comma replaced by the full-width comma `，`.
pub open spec fn full_width_commas(s: Seq<char>) -> Seq<char> {
    s.map_values(|c: char| if c == ',' { '，' } else { c })
}

/// The hot words for an order: ASCII commas become full-width commas; none given
/// is the empty text.
pub fn process_hot_words(hot_words: Option<String>) -> (r: String)
    ensures
        r@ == match hot_words {
            Some(w) => full_width_commas(w@),
            None => Seq::empty(),
        },
{
    match hot_words {
        None => String::new(),
        Some(words) => {
            let s = words.as_str();
            let v = chars_of(s);
            let mut out = String::new();
            let mut start: usize = 0;
            for i in 0..v.len()
                invariant
                    v@ == s@,
                    s@ == words@,
                    start <= i,
                    out@ == full_width_commas(s@.subrange(0, start as int)),
                    forall|k: int| start <= k < i ==> s@[k] != ',',
            {
                if v[i] == ',' {
                    let ghost before = out@;
                    proof {
                        reveal_strlit("，");
                    }
                    out.append(s.substring_char(start, i));
                    out.append("，");
                    assert(full_width_commas(s@.subrange(0, i + 1)) =~= before + s@.subrange(
                        start as int,
                        i as int,
                    ) + seq!['，']);
                    start = i + 1;
                }
            }
            let ghost before = out@;
            out.append(s.substring_char(start, v.len()));
            assert(full_width_commas(s@) =~= before + s@.subrange(start as int, s@.len() as int));
            out
        },
    }
}

/// Transcription options from command-line values: the hot words with
/// full-width commas, the SMS flag and the language as given.
pub fn build_transcription_options(
    hot_words: Option<String>,
    need_sms: bool,
    language: String,
) -> (r: Option<TranscriptionOptions>)
    ensures
        r matches Some(o) && o.need_sms == need_sms && o.language == language && o.hot_words@
            == match hot_words {
            Some(w) => full_width_commas(w@),
            None => Seq::empty(),
        },
{
    let hot_words = process_hot_words(hot_words);
    Some(TranscriptionOptions { need_sms, hot_words, language })
}

} // verus!
