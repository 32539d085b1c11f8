//! A text generator double that replays a fixed text word by word.
use crate::text::{contains_str, is_white_space, push_char, spec_white_space, views};
use vstd::prelude::*;
use vstd::string::*;

verus! {

/// Progress of `generate` through the text.
pub struct SplitState {
    /// Text produced so far.
    pub out: Seq<char>,
    /// Pieces (words and whitespace characters) produced so far.
    pub count: nat,
    /// The word being read.
    pub current: Seq<char>,
    /// Whether a stop word ended the generation.
    pub stopped: bool,
}

/// One character of the text: whitespace completes the current word, which is
/// produced unless it is a stop word (which ends everything) or the limit is
/// reached, and is itself produced while the limit allows; any other character
/// extends the current word.
pub open spec fn split_step(st: SplitState, c: char, limit: nat, stops: Seq<Seq<char>>) -> SplitState {
    if st.stopped {
        st
    } else if spec_white_space(c) {
        if st.current.len() > 0 && st.count < limit && stops.contains(st.current) {
            SplitState { stopped: true, ..st }
        } else {
            let st1 = if st.current.len() > 0 && st.count < limit {
                SplitState { out: st.out + st.current, current: Seq::empty(), count: st.count + 1, ..st }
            } else {
                st
            };
            if st1.count < limit {
                SplitState { out: st1.out.push(c), count: st1.count + 1, ..st1 }
            } else {
                st1
            }
        }
    } else {
        SplitState { current: st.current.push(c), ..st }
    }
}

/// The state after reading all of `text`.
pub open spec fn split_run(text: Seq<char>, limit: nat, stops: Seq<Seq<char>>) -> SplitState
    decreases text.len(),
{
    if text.len() == 0 {
        SplitState { out: Seq::empty(), count: 0, current: Seq::empty(), stopped: false }
    } else {
        split_step(split_run(text.drop_last(), limit, stops), text.last(), limit, stops)
    }
}

/// The text that `generate` returns: what was produced, with the last word added
/// unless the generation stopped, the limit was reached or the word is a stop word.
pub open spec fn spec_generate(text: Seq<char>, limit: nat, stops: Seq<Seq<char>>) -> Seq<char> {
    let st = split_run(text, limit, stops);
    if !st.stopped && st.current.len() > 0 && st.count < limit && !stops.contains(st.current) {
        st.out + st.current
    } else {
        st.out
    }
}

/// Words and whitespace characters read so far, and the word being read.
pub struct PieceState {
    /// Completed pieces.
    pub pieces: Seq<Seq<char>>,
    /// The word being read.
    pub current: Seq<char>,
}

/// The pieces after reading all of `text`.
pub open spec fn piece_run(text: Seq<char>) -> PieceState
    decreases text.len(),
{
    if text.len() == 0 {
        PieceState { pieces: Seq::empty(), current: Seq::empty() }
    } else {
        let st = piece_run(text.drop_last());
        let c = text.last();
        if spec_white_space(c) {
            let ps = if st.current.len() > 0 {
                st.pieces.push(st.current)
            } else {
                st.pieces
            };
            PieceState { pieces: ps.push(seq![c]), current: Seq::empty() }
        } else {
            PieceState { current: st.current.push(c), ..st }
        }
    }
}

/// The text cut into words and single whitespace characters, in order.
pub open spec fn spec_pieces(text: Seq<char>) -> Seq<Seq<char>> {
    let st = piece_run(text);
    if st.current.len() > 0 {
        st.pieces.push(st.current)
    } else {
        st.pieces
    }
}

/// Replays a fixed text as if it were generated.
pub struct DummyTextGenerator {
    text: String,
}

impl DummyTextGenerator {
    /// The text that is replayed.
    pub closed spec fn text(&self) -> Seq<char> {
        self.text@
    }

    /// A double that replays `text`.
    pub fn new(text: String) -> (r: DummyTextGenerator)
        ensures
            r.text() == text@,
    {
        DummyTextGenerator { text }
    }

    /// Replays the text: at most `sample_len` pieces (words and whitespace
    /// characters), ending before the first stop word. The prompt is ignored.
    pub fn generate(
        &mut self,
        _prompt: &str,
        sample_len: usize,
        stop_tokens: Option<Vec<String>>,
    ) -> (r: Option<String>)
        ensures
            final(self).text() == old(self).text(),
            r matches Some(t) && t@ == spec_generate(
                old(self).text(),
                sample_len as nat,
                views(
                    match stop_tokens {
                        Some(v) => v@,
                        None => Seq::empty(),
                    },
                ),
            ),
    {
        let stops = match stop_tokens {
            Some(v) => v,
            None => Vec::new(),
        };
        let ghost sv = views(stops@);
        let text = self.text.as_str();
        let n = text.unicode_len();
        let mut out = String::new();
        let mut count: usize = 0;
        let mut current = String::new();
        let mut stopped = false;
        let mut i: usize = 0;
        while i < n
            invariant
                n == text@.len(),
                text@ == self.text@,
                i <= n,
                sv == views(stops@),
                count <= sample_len,
                (SplitState { out: out@, count: count as nat, current: current@, stopped })
                    == split_run(text@.take(i as int), sample_len as nat, sv),
            decreases n - i,
        {
            let c = text.get_char(i);
            assert(text@.take(i + 1).drop_last() =~= text@.take(i as int));
            if !stopped {
                if is_white_space(c) {
                    let word = current.as_str().unicode_len() > 0;
                    if word && count < sample_len && contains_str(&stops, current.as_str()) {
                        stopped = true;
                    } else {
                        if word && count < sample_len {
                            out.append(current.as_str());
                            current = String::new();
                            count = count + 1;
                        }
                        if count < sample_len {
                            push_char(&mut out, c);
                            count = count + 1;
                        }
                    }
                } else {
                    push_char(&mut current, c);
                }
            }
            i = i + 1;
        }
        assert(text@.take(n as int) =~= text@);
        if !stopped && current.as_str().unicode_len() > 0 && count < sample_len && !contains_str(
            &stops,
            current.as_str(),
        ) {
            out.append(current.as_str());
        }
        Some(out)
    }

    /// The pieces of the text, in order: each word and each whitespace character.
    /// The prompt, the limit and the stop words are ignored.
    pub fn generate_stream(
        &mut self,
        _prompt: &str,
        _sample_len: usize,
        _stop_tokens: Option<Vec<String>>,
    ) -> (r: Vec<String>)
        ensures
            final(self).text() == old(self).text(),
            views(r@) == spec_pieces(old(self).text()),
    {
        let text = self.text.as_str();
        let n = text.unicode_len();
        let mut pieces: Vec<String> = Vec::new();
        let mut current = String::new();
        let mut i: usize = 0;
        assert(views(pieces@) =~= Seq::<Seq<char>>::empty());
        assert(text@.take(0) =~= Seq::<char>::empty());
        while i < n
            invariant
                n == text@.len(),
                text@ == self.text@,
                i <= n,
                (PieceState { pieces: views(pieces@), current: current@ }) == piece_run(
                    text@.take(i as int),
                ),
            decreases n - i,
        {
            let c = text.get_char(i);
            assert(text@.take(i + 1).drop_last() =~= text@.take(i as int));
            if is_white_space(c) {
                if current.as_str().unicode_len() > 0 {
                    let ghost before = pieces@;
                    pieces.push(current);
                    assert(views(pieces@) =~= views(before).push(current@));
                    current = String::new();
                }
                let mut single = String::new();
                push_char(&mut single, c);
                let ghost before = pieces@;
                pieces.push(single);
                assert(views(pieces@) =~= views(before).push(seq![c]));
            } else {
                push_char(&mut current, c);
            }
            i = i + 1;
        }
        assert(text@.take(n as int) =~= text@);
        if current.as_str().unicode_len() > 0 {
            let ghost before = pieces@;
            pieces.push(current);
            assert(views(pieces@) =~= views(before).push(current@));
        }
        pieces
    }
}

} // verus!
