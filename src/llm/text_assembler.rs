//! The text assembler: turns the growing token sequence of a generation into text
//! deltas that never end inside an unfinished character.
//!
//! The assembler keeps the ids pushed so far and the text handed out so far. After
//! each push the caller decodes the whole id sequence and hands that text to
//! `accept`; the assembler gives out the part beyond what it gave before, once that
//! text ends in a complete character (a decoder marks bytes that do not yet form a
//! character with U+FFFD). `flush` gives out whatever is left at the end.
use crate::text::str_equal;
use vstd::prelude::*;
use vstd::string::*;

verus! {

/// The character that a decoder puts where bytes do not form a complete character.
pub const REPLACEMENT_CHARACTER: char = '\u{FFFD}';

/// Whether `emitted` is the head of `text`.
pub open spec fn extends(text: Seq<char>, emitted: Seq<char>) -> bool {
    emitted.len() <= text.len() && text.take(emitted.len() as int) == emitted
}

/// Whether `text` ends in a complete character.
pub open spec fn ends_complete(text: Seq<char>) -> bool {
    text.len() > 0 && text.last() != REPLACEMENT_CHARACTER
}

/// What `accept` gives out when `emitted` was given out before and `text` is the
/// decoding of every id so far.
pub open spec fn step_delta(emitted: Seq<char>, text: Seq<char>) -> Option<Seq<char>> {
    if extends(text, emitted) && text.len() > emitted.len() && ends_complete(text) {
        Some(text.skip(emitted.len() as int))
    } else {
        None
    }
}

/// What `flush` gives out when `emitted` was given out before and `text` is the
/// decoding of the whole sequence: everything beyond the length already given out,
/// so that nothing is dropped even where the decoder rewrote earlier text.
pub open spec fn flush_delta(emitted: Seq<char>, text: Seq<char>) -> Option<Seq<char>> {
    if text.len() > emitted.len() {
        Some(text.skip(emitted.len() as int))
    } else {
        None
    }
}

/// The text given out so far, once after another.
pub open spec fn given_out(emitted: Seq<char>, d: Option<Seq<char>>) -> Seq<char> {
    match d {
        Some(t) => emitted + t,
        None => emitted,
    }
}

/// Collects token ids and gives out their text in valid pieces.
pub struct TextAssembler {
    tokens: Vec<u32>,
    emitted: String,
}

impl TextAssembler {
    /// The ids pushed so far.
    pub closed spec fn tokens(&self) -> Seq<u32> {
        self.tokens@
    }

    /// The concatenation of every delta given out so far.
    pub closed spec fn emitted(&self) -> Seq<char> {
        self.emitted@
    }

    /// An assembler with no ids and nothing given out.
    pub fn new() -> (r: TextAssembler)
        ensures
            r.tokens() == Seq::<u32>::empty(),
            r.emitted() == Seq::<char>::empty(),
    {
        TextAssembler { tokens: Vec::new(), emitted: String::new() }
    }

    /// Appends an id to the sequence.
    pub fn push(&mut self, id: u32)
        ensures
            final(self).tokens() == old(self).tokens().push(id),
            final(self).emitted() == old(self).emitted(),
    {
        self.tokens.push(id);
    }

    /// The ids pushed so far.
    pub fn token_ids(&self) -> (r: &[u32])
        ensures
            r@ == self.tokens(),
    {
        self.tokens.as_slice()
    }

    /// Gives out the new part of `text`, the decoding of every id pushed so far, where
    /// it extends what was given out before and ends in a complete character.
    pub fn accept(&mut self, text: &str) -> (r: Option<String>)
        ensures
            final(self).tokens() == old(self).tokens(),
            r matches Some(d) ==> step_delta(old(self).emitted(), text@) == Some(d@),
            r is None ==> step_delta(old(self).emitted(), text@) is None,
            final(self).emitted() == given_out(
                old(self).emitted(),
                step_delta(old(self).emitted(), text@),
            ),
    {
        let n = text.unicode_len();
        if n == 0 || text.get_char(n - 1) == REPLACEMENT_CHARACTER {
            return None;
        }
        self.give_rest(text)
    }

    /// Gives out whatever `text`, the decoding of the whole sequence, holds beyond
    /// the length given out before, complete or not.
    pub fn flush(&mut self, text: &str) -> (r: Option<String>)
        ensures
            final(self).tokens() == old(self).tokens(),
            r matches Some(d) ==> flush_delta(old(self).emitted(), text@) == Some(d@),
            r is None ==> flush_delta(old(self).emitted(), text@) is None,
            final(self).emitted() == given_out(
                old(self).emitted(),
                flush_delta(old(self).emitted(), text@),
            ),
    {
        let n = text.unicode_len();
        let e = self.emitted.as_str().unicode_len();
        if n <= e {
            return None;
        }
        let rest = text.substring_char(e, n);
        assert(rest@ == text@.skip(e as int));
        self.emitted.append(rest);
        Some(String::from_str(rest))
    }

    fn give_rest(&mut self, text: &str) -> (r: Option<String>)
        requires
            ends_complete(text@),
        ensures
            final(self).tokens == old(self).tokens,
            r matches Some(d) ==> step_delta(old(self).emitted@, text@) == Some(d@),
            r is None ==> step_delta(old(self).emitted@, text@) is None,
            final(self).emitted@ == given_out(
                old(self).emitted@,
                step_delta(old(self).emitted@, text@),
            ),
    {
        let n = text.unicode_len();
        let e = self.emitted.as_str().unicode_len();
        if n <= e {
            return None;
        }
        if !str_equal(text.substring_char(0, e), self.emitted.as_str()) {
            return None;
        }
        let rest = text.substring_char(e, n);
        assert(rest@ == text@.skip(e as int));
        self.emitted.append(rest);
        Some(String::from_str(rest))
    }
}

/// The deltas that `accept` gives out for the successive decodings `texts`.
pub open spec fn deltas(texts: Seq<Seq<char>>) -> Seq<Seq<char>>
    decreases texts.len(),
{
    if texts.len() == 0 {
        Seq::empty()
    } else {
        let before = deltas(texts.drop_last());
        match step_delta(concat(before), texts.last()) {
            Some(d) => before.push(d),
            None => before,
        }
    }
}

/// The pieces of `parts`, one after another.
pub open spec fn concat(parts: Seq<Seq<char>>) -> Seq<char>
    decreases parts.len(),
{
    if parts.len() == 0 {
        Seq::empty()
    } else {
        concat(parts.drop_last()) + parts.last()
    }
}

/// Accepting one more decoding extends the concatenated deltas by what `accept`
/// gives out for it.
pub proof fn lemma_deltas_push(texts: Seq<Seq<char>>, text: Seq<char>)
    ensures
        concat(deltas(texts.push(text))) == given_out(
            concat(deltas(texts)),
            step_delta(concat(deltas(texts)), text),
        ),
{
    let ts = texts.push(text);
    assert(ts.drop_last() =~= texts);
    let before = deltas(texts);
    match step_delta(concat(before), text) {
        Some(d) => {
            assert(before.push(d).drop_last() =~= before);
        },
        None => {},
    }
}

/// What an assembler has given out after accepting `texts`: nothing, or one of the
/// texts that ended in a complete character.
proof fn lemma_given_out_is_complete_text(texts: Seq<Seq<char>>)
    ensures
        concat(deltas(texts)).len() == 0 || exists|i: int|
            0 <= i < texts.len() && ends_complete(texts[i]) && #[trigger] texts[i] == concat(
                deltas(texts),
            ),
    decreases texts.len(),
{
    if texts.len() > 0 {
        let init = texts.drop_last();
        lemma_given_out_is_complete_text(init);
        let before = deltas(init);
        let e = concat(before);
        match step_delta(e, texts.last()) {
            Some(d) => {
                assert(before.push(d).drop_last() =~= before);
                assert(concat(before.push(d)) == e + d);
                assert(e + d =~= texts.last());
                assert(texts[texts.len() - 1] == concat(deltas(texts)));
            },
            None => {
                if e.len() != 0 {
                    let i = choose|i: int|
                        0 <= i < init.len() && ends_complete(init[i]) && #[trigger] init[i] == e;
                    assert(texts[i] == init[i]);
                }
            },
        }
    }
}

/// Round trip of the assembler: feed it the decodings `texts` of the growing id
/// sequence, one after each push, then flush it with `whole`, the decoding of the
/// entire sequence. Every delta that `accept` gave out ends in a complete
/// character, and where decoding more ids never rewrites a decoded text that ended
/// in a complete character (each such text is a head of `whole`), the deltas
/// followed by the flush spell out `whole` exactly.
pub proof fn lemma_assembler_round_trip(texts: Seq<Seq<char>>, whole: Seq<char>)
    requires
        forall|i: int| 0 <= i < texts.len() && ends_complete(#[trigger] texts[i]) ==> extends(
            whole,
            texts[i],
        ),
    ensures
        forall|j: int| 0 <= j < deltas(texts).len() ==> ends_complete(#[trigger] deltas(texts)[j]),
        given_out(concat(deltas(texts)), flush_delta(concat(deltas(texts)), whole)) == whole,
{
    lemma_deltas_complete(texts);
    lemma_given_out_is_complete_text(texts);
    let e = concat(deltas(texts));
    if e.len() == 0 {
        assert(extends(whole, e)) by {
            assert(whole.take(0) =~= e);
        }
    }
    assert(extends(whole, e));
    if whole.len() > e.len() {
        assert(e + whole.skip(e.len() as int) =~= whole);
    } else {
        assert(whole =~= e);
    }
}

/// Every delta that `accept` gives out ends in a complete character.
proof fn lemma_deltas_complete(texts: Seq<Seq<char>>)
    ensures
        forall|j: int| 0 <= j < deltas(texts).len() ==> ends_complete(#[trigger] deltas(texts)[j]),
    decreases texts.len(),
{
    if texts.len() > 0 {
        let init = texts.drop_last();
        lemma_deltas_complete(init);
        let before = deltas(init);
        let t = texts.last();
        match step_delta(concat(before), t) {
            Some(d) => {
                assert(d.last() == t.last());
                assert forall|j: int| 0 <= j < before.push(d).len() implies ends_complete(
                    #[trigger] before.push(d)[j],
                ) by {
                    if j < before.len() {
                        assert(before.push(d)[j] == before[j]);
                    }
                }
            },
            None => {},
        }
    }
}

} // verus!
