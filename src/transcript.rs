//! Flattening a transcript into plain text.

use crate::model::{Paragraph, TranscriptResult, Word};
use vstd::prelude::*;

verus! {

/// The texts of `words` one after the other, with no separator.
pub open spec fn words_text(words: Seq<Word>) -> Seq<char>
    decreases words.len(),
{
    if words.len() == 0 {
        Seq::empty()
    } else {
        words_text(words.drop_last()) + words.last().text@
    }
}

/// Each paragraph's words, each paragraph followed by two newlines.
pub open spec fn paragraphs_text(paragraphs: Seq<Paragraph>) -> Seq<char>
    decreases paragraphs.len(),
{
    if paragraphs.len() == 0 {
        Seq::empty()
    } else {
        paragraphs_text(paragraphs.drop_last()) + words_text(paragraphs.last().words@) + seq![
            '\n',
            '\n',
        ]
    }
}

/// The plain text of a transcript.
pub open spec fn transcript_text(t: TranscriptResult) -> Seq<char> {
    paragraphs_text(t.paragraphs@)
}

fn append_words(out: &mut String, words: &Vec<Word>)
    ensures
        final(out)@ == old(out)@ + words_text(words@),
{
    let ghost start = out@;
    for i in 0..words.len()
        invariant
            out@ == start + words_text(words@.subrange(0, i as int)),
    {
        out.append(words[i].text.as_str());
        assert(words@.subrange(0, i + 1).drop_last() =~= words@.subrange(0, i as int));
    }
    assert(words@.subrange(0, words@.len() as int) =~= words@);
}

impl TranscriptResult {
    /// The transcript as plain text: the words of each paragraph joined with no
    /// separator, each paragraph followed by two newlines. Roles and timings are
    /// left out.
    pub fn to_text(&self) -> (r: String)
        ensures
            r@ == transcript_text(*self),
    {
        let mut out = String::new();
        for i in 0..self.paragraphs.len()
            invariant
                out@ == paragraphs_text(self.paragraphs@.subrange(0, i as int)),
        {
            append_words(&mut out, &self.paragraphs[i].words);
            proof {
                reveal_strlit("\n\n");
            }
            out.append("\n\n");
            assert(self.paragraphs@.subrange(0, i + 1).drop_last() =~= self.paragraphs@.subrange(
                0,
                i as int,
            ));
        }
        assert(self.paragraphs@.subrange(0, self.paragraphs@.len() as int) =~= self.paragraphs@);
        out
    }
}

} // verus!
