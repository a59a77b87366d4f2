//! Sentence segmentation of the input text: locale-aware boundary detection
//! through an outside segmenter, then a verified planning pass that keeps the
//! non-empty sentences with their character offsets into the original text.

use vstd::prelude::*;
use unicode_segmentation::UnicodeSegmentation;
use crate::strutil::{trim_of, trim_str};
use crate::text::{sanitised_of, sanitise_sentence};

verus! {

/// The sentence pieces of a text under Unicode sentence-boundary rules,
/// a pure function of the text. The facts callers rely on — the pieces are
/// non-empty and concatenate back to the text — are stated on the splitter.
pub uninterp spec fn sentence_split_of(text: Seq<char>) -> Seq<Seq<char>>;

/// Relies on `unicode_segmentation::UnicodeSegmentation::split_sentence_bounds`:
/// yields consecutive, non-empty substrings of the text that concatenate back
/// to the whole of it, determined by the text alone.
#[verifier::external_body]
pub fn split_sentences(text: &str) -> (r: Vec<String>)
    ensures
        r.deep_view() == sentence_split_of(text@),
        r.deep_view().flatten() == text@,
        forall|i: int|
            0 <= i < r.deep_view().len() ==> (#[trigger] r.deep_view()[i]).len() > 0,
{
    text.split_sentence_bounds().map(str::to_owned).collect()
}

/// A sentence is kept for synthesis when something is left after trimming.
pub open spec fn kept(s: Seq<char>) -> bool {
    trim_of(s).len() > 0
}

/// What is handed to the engine for one kept sentence: trimmed, then smart
/// punctuation replaced, then trimmed again.
pub open spec fn cleaned_of(s: Seq<char>) -> Seq<char> {
    sanitised_of(trim_of(s))
}

/// One kept sentence, ready for synthesis: character offsets of the whole
/// (untrimmed) sentence within the input text, and the cleaned text to speak.
#[derive(Debug)]
pub struct PendingSentence {
    pub start_char: usize,
    pub end_char: usize,
    pub cleaned: String,
}

/// The plan for a sequence of sentence pieces starting at a character offset:
/// each kept piece contributes its offsets and cleaned text, skipped pieces
/// only advance the offset.
pub open spec fn pending_of(parts: Seq<Seq<char>>, offset: nat) -> Seq<(nat, nat, Seq<char>)>
    decreases parts.len(),
{
    if parts.len() == 0 {
        Seq::empty()
    } else {
        let rest = pending_of(parts.drop_first(), offset + parts[0].len());
        if kept(parts[0]) {
            seq![(offset, offset + parts[0].len(), cleaned_of(parts[0]))] + rest
        } else {
            rest
        }
    }
}

/// The plan of a whole text.
pub open spec fn plan_of(text: Seq<char>) -> Seq<(nat, nat, Seq<char>)> {
    pending_of(sentence_split_of(text), 0)
}

proof fn lemma_pending_skip(parts: Seq<Seq<char>>, idx: int, offset: nat)
    requires
        0 <= idx < parts.len(),
    ensures
        pending_of(parts.skip(idx), offset) == (if kept(parts[idx]) {
            seq![(offset, offset + parts[idx].len(), cleaned_of(parts[idx]))]
        } else {
            Seq::empty()
        }) + pending_of(parts.skip(idx + 1), offset + parts[idx].len()),
{
    let s = parts.skip(idx);
    assert(s[0] == parts[idx]);
    assert(s.drop_first() =~= parts.skip(idx + 1));
    if !kept(parts[idx]) {
        assert(Seq::<(nat, nat, Seq<char>)>::empty() + pending_of(
            parts.skip(idx + 1),
            offset + parts[idx].len(),
        ) =~= pending_of(parts.skip(idx + 1), offset + parts[idx].len()));
    }
}

/// Plans the synthesis of a text: splits it into sentences, keeps those with
/// content, and records each one's character span and cleaned text. Spans are
/// non-overlapping and in text order, and end within the text.
pub fn plan_sentences(text: &str) -> (r: Vec<PendingSentence>)
    ensures
        r@.len() == plan_of(text@).len(),
        forall|i: int|
            0 <= i < r@.len() ==> {
                &&& (#[trigger] r@[i]).start_char as nat == plan_of(text@)[i].0
                &&& r@[i].end_char as nat == plan_of(text@)[i].1
                &&& r@[i].cleaned@ == plan_of(text@)[i].2
            },
        forall|i: int| 0 <= i < r@.len() ==> (#[trigger] r@[i]).start_char <= r@[i].end_char,
        forall|i: int|
            0 <= i < r@.len() - 1 ==> (#[trigger] r@[i]).end_char <= r@[i + 1].start_char,
        forall|i: int| 0 <= i < r@.len() ==> (#[trigger] r@[i]).end_char as nat <= text@.len(),
{
    let parts = split_sentences(text);
    let ghost split = sentence_split_of(text@);
    let total = text.unicode_len();
    let mut r: Vec<PendingSentence> = Vec::new();
    let mut offset: usize = 0;
    let mut idx: usize = 0;
    proof {
        assert(split.skip(0) =~= split);
    }
    while idx < parts.len()
        invariant
            parts.deep_view() == split,
            sentence_split_of(text@) == split,
            split.flatten() == text@,
            total == text@.len(),
            idx <= parts@.len(),
            parts@.len() == split.len(),
            offset as nat + split.skip(idx as int).flatten().len() == text@.len(),
            plan_of(text@) == r@.map_values(
                |p: PendingSentence| (p.start_char as nat, p.end_char as nat, p.cleaned@),
            ) + pending_of(split.skip(idx as int), offset as nat),
            forall|i: int| 0 <= i < r@.len() ==> (#[trigger] r@[i]).start_char <= r@[i].end_char,
            forall|i: int|
                0 <= i < r@.len() - 1 ==> (#[trigger] r@[i]).end_char <= r@[i + 1].start_char,
            forall|i: int| 0 <= i < r@.len() ==> (#[trigger] r@[i]).end_char <= offset,
        decreases parts@.len() - idx,
    {
        let ghost pre = r@.map_values(
            |p: PendingSentence| (p.start_char as nat, p.end_char as nat, p.cleaned@),
        );
        let part = &parts[idx];
        let n = part.as_str().unicode_len();
        proof {
            assert(part@ == split[idx as int]);
            lemma_pending_skip(split, idx as int, offset as nat);
            let s = split.skip(idx as int);
            assert(s[0] == split[idx as int]);
            assert(s.drop_first() =~= split.skip(idx + 1));
            assert(s.flatten() == s[0] + s.drop_first().flatten());
            assert(offset + n + split.skip(idx + 1).flatten().len() == text@.len());
        }
        let trimmed = trim_str(part.as_str());
        if !trimmed.is_empty() {
            let cleaned = sanitise_sentence(trimmed);
            proof {
                assert(cleaned@ == cleaned_of(split[idx as int]));
            }
            let entry = PendingSentence { start_char: offset, end_char: offset + n, cleaned };
            r.push(entry);
            proof {
                assert(r@.map_values(
                    |p: PendingSentence| (p.start_char as nat, p.end_char as nat, p.cleaned@),
                ) =~= pre.push(
                    (offset as nat, (offset + n) as nat, cleaned_of(split[idx as int])),
                ));
                assert(pre.push((offset as nat, (offset + n) as nat, cleaned_of(split[idx as int])))
                    + pending_of(split.skip(idx + 1), (offset + n) as nat) =~= pre + (seq![
                    ((offset as nat), ((offset + n) as nat), cleaned_of(split[idx as int])),
                ] + pending_of(split.skip(idx + 1), (offset + n) as nat)));
            }
        } else {
            proof {
                assert(!kept(split[idx as int]));
                assert(pre + (Seq::<(nat, nat, Seq<char>)>::empty() + pending_of(
                    split.skip(idx + 1),
                    (offset + n) as nat,
                )) =~= pre + pending_of(split.skip(idx + 1), (offset + n) as nat));
            }
        }
        offset = offset + n;
        idx = idx + 1;
    }
    proof {
        assert(split.skip(parts@.len() as int) =~= Seq::<Seq<char>>::empty());
        assert(pending_of(Seq::<Seq<char>>::empty(), offset as nat) =~= Seq::<(
            nat,
            nat,
            Seq<char>,
        )>::empty());
        assert(plan_of(text@) =~= r@.map_values(
            |p: PendingSentence| (p.start_char as nat, p.end_char as nat, p.cleaned@),
        ));
        assert(forall|i: int|
            0 <= i < r@.len() ==> (#[trigger] r@[i]).start_char as nat == plan_of(text@)[i].0
                && r@[i].end_char as nat == plan_of(text@)[i].1 && r@[i].cleaned@ == plan_of(
                text@,
            )[i].2);
    }
    r
}

} // verus!
