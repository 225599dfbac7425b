//! Incremental token-to-text streaming: turns a growing token sequence into
//! non-overlapping text fragments as soon as they are stable. The stream
//! re-decodes the window from the last released boundary on every push,
//! because a subword tokenizer may re-render earlier tokens once later ones
//! arrive; comparing against the window's previous rendering is what detects
//! and suppresses such instability.
use vstd::prelude::*;
use crate::errors::CaptionError;

verus! {

#[verifier::external_type_specification]
#[verifier::external_body]
pub struct ExTokenizer(tokenizers::Tokenizer);

/// The text that `Tokenizer::decode` with `skip_special_tokens = true`
/// renders for a token-id sequence. The rendering is a function of the
/// tokenizer's fixed vocabulary and the ids alone.
pub uninterp spec fn decoded(t: tokenizers::Tokenizer, tokens: Seq<u32>) -> Seq<char>;

/// The id that the tokenizer's vocabulary (added tokens included) assigns to
/// a token string, if any.
pub uninterp spec fn vocab_id(t: tokenizers::Tokenizer, token: Seq<char>) -> Option<u32>;

/// Whether `Tokenizer::decode` with `skip_special_tokens = true` succeeds on
/// a token-id sequence: like the text itself, a function of the tokenizer
/// and the ids alone.
pub uninterp spec fn decode_ok(t: tokenizers::Tokenizer, tokens: Seq<u32>) -> bool;

/// Whether Unicode classes the character as alphanumeric, as
/// `char::is_alphanumeric` reports it.
pub uninterp spec fn char_is_alphanumeric(c: char) -> bool;

pub assume_specification[ char::is_alphanumeric ](c: char) -> (r: bool)
    ensures
        r == char_is_alphanumeric(c),
;

pub assume_specification[ String::push ](s: &mut String, ch: char)
    ensures
        final(s)@ == old(s)@.push(ch),
;

/// Relies on tokenizers::Tokenizer::decode with skip_special_tokens = true:
/// renders the given ids to text; both the text and whether decoding
/// succeeds depend on the tokenizer and the ids alone. A failure carries the
/// underlying decoder's message.
#[verifier::external_body]
pub(crate) fn decode_tokens(t: &tokenizers::Tokenizer, tokens: &Vec<u32>) -> (r: Result<
    Vec<char>,
    String,
>)
    ensures
        r is Ok <==> decode_ok(*t, tokens@),
        r is Ok ==> r->Ok_0@ == decoded(*t, tokens@),
{
    match t.decode(tokens.as_slice(), true) {
        Ok(s) => Ok(s.chars().collect()),
        Err(e) => Err(e.to_string()),
    }
}

/// Copies the window `[a, b)` of a vector.
pub(crate) fn copy_window<T: Copy>(v: &Vec<T>, a: usize, b: usize) -> (r: Vec<T>)
    requires
        a <= b <= v@.len(),
    ensures
        r@ == v@.subrange(a as int, b as int),
{
    let mut out: Vec<T> = Vec::new();
    let mut i: usize = a;
    while i < b
        invariant
            a <= i <= b <= v@.len(),
            out@ == v@.subrange(a as int, i as int),
        decreases b - i,
    {
        out.push(v[i]);
        proof {
            assert(v@.subrange(a as int, i + 1 as int) =~= v@.subrange(a as int, i as int).push(
                v@[i as int],
            ));
        }
        i = i + 1;
    }
    out
}

/// Builds the string of a character sequence.
pub(crate) fn string_from_chars(chars: &Vec<char>) -> (r: String)
    ensures
        r@ == chars@,
{
    let mut s = String::new();
    let mut i: usize = 0;
    while i < chars.len()
        invariant
            i <= chars@.len(),
            s@ == chars@.subrange(0, i as int),
        decreases chars@.len() - i,
    {
        s.push(chars[i]);
        proof {
            assert(chars@.subrange(0, i + 1 as int) =~= chars@.subrange(0, i as int).push(
                chars@[i as int],
            ));
        }
        i = i + 1;
    }
    proof {
        assert(chars@.subrange(0, chars@.len() as int) =~= chars@);
    }
    s
}

/// The text a stream fails with when the tokenizer cannot decode a window.
pub(crate) fn decode_failure(m: String) -> (r: CaptionError)
    ensures
        r is ProcessingFailure,
{
    let mut s = "cannot decode: ".to_owned();
    s.append(m.as_str());
    CaptionError::ProcessingFailure(s)
}

/// Whether the tokenizer renders the token window `[a, b)`: an empty window
/// always renders, as the empty text.
pub open spec fn window_decodes(t: tokenizers::Tokenizer, toks: Seq<u32>, a: int, b: int) -> bool {
    a >= b || decode_ok(t, toks.subrange(a, b))
}

/// The text of the token window `[a, b)`: empty for an empty window, else
/// what the tokenizer renders for it.
pub open spec fn window_text(t: tokenizers::Tokenizer, toks: Seq<u32>, a: int, b: int) -> Seq<
    char,
> {
    if a >= b {
        Seq::empty()
    } else {
        decoded(t, toks.subrange(a, b))
    }
}

/// Whether the candidate window `[p, ..)` now renders strictly more text than
/// its released prefix `[p, c)` did: the condition under which a flush
/// releases the grown tail.
pub open spec fn flush_emits(t: tokenizers::Tokenizer, toks: Seq<u32>, p: int, c: int) -> bool {
    window_text(t, toks, p, toks.len() as int).len() > window_text(t, toks, p, c).len()
}

/// Whether a push releases the grown tail: the text must have grown and its
/// last character must be alphanumeric — a non-alphanumeric trailing
/// character signals that the subword boundary may still shift.
pub open spec fn push_emits(t: tokenizers::Tokenizer, toks: Seq<u32>, p: int, c: int) -> bool {
    flush_emits(t, toks, p, c) && char_is_alphanumeric(
        window_text(t, toks, p, toks.len() as int).last(),
    )
}

/// The tail a release hands out: the candidate window's text minus the
/// already-rendered prefix.
pub open spec fn pending_delta(t: tokenizers::Tokenizer, toks: Seq<u32>, p: int, c: int) -> Seq<
    char,
> {
    window_text(t, toks, p, toks.len() as int).skip(window_text(t, toks, p, c).len() as int)
}

/// A wrapper around a tokenizer that releases the text of a growing token
/// sequence fragment by fragment, each fragment final as soon as it is
/// released. `prev_index` and `current_index` delimit the last span already
/// considered final.
pub struct TokenOutputStream {
    tokenizer: tokenizers::Tokenizer,
    tokens: Vec<u32>,
    prev_index: usize,
    current_index: usize,
}

impl TokenOutputStream {
    pub closed spec fn spec_tokenizer(&self) -> tokenizers::Tokenizer {
        self.tokenizer
    }

    pub closed spec fn spec_tokens(&self) -> Seq<u32> {
        self.tokens@
    }

    pub closed spec fn spec_prev(&self) -> int {
        self.prev_index as int
    }

    pub closed spec fn spec_current(&self) -> int {
        self.current_index as int
    }

    /// The boundary indices never pass each other or the end of the tokens.
    pub open spec fn wf(&self) -> bool {
        0 <= self.spec_prev() <= self.spec_current() <= self.spec_tokens().len()
    }

    /// A fresh stream around the given tokenizer.
    pub fn new(tokenizer: tokenizers::Tokenizer) -> (r: TokenOutputStream)
        ensures
            r.wf(),
            r.spec_tokenizer() == tokenizer,
            r.spec_tokens() == Seq::<u32>::empty(),
            r.spec_prev() == 0,
            r.spec_current() == 0,
    {
        TokenOutputStream { tokenizer, tokens: Vec::new(), prev_index: 0, current_index: 0 }
    }

    /// A stream resumed at the given state.
    pub fn from_parts(
        tokenizer: tokenizers::Tokenizer,
        tokens: Vec<u32>,
        prev_index: usize,
        current_index: usize,
    ) -> (r: TokenOutputStream)
        requires
            prev_index <= current_index <= tokens@.len(),
        ensures
            r.wf(),
            r.spec_tokenizer() == tokenizer,
            r.spec_tokens() == tokens@,
            r.spec_prev() == prev_index,
            r.spec_current() == current_index,
    {
        TokenOutputStream { tokenizer, tokens, prev_index, current_index }
    }

    /// Consumes the stream, returning the inner tokenizer.
    pub fn into_inner(self) -> (r: tokenizers::Tokenizer)
        ensures
            r == self.spec_tokenizer(),
    {
        self.tokenizer
    }

    /// A reference to the inner tokenizer.
    pub fn tokenizer(&self) -> (r: &tokenizers::Tokenizer)
        ensures
            *r == self.spec_tokenizer(),
    {
        &self.tokenizer
    }

    /// Relies on tokenizers::Tokenizer::get_vocab(true) and the lookup in the
    /// map it returns: the id the vocabulary assigns to the given token
    /// string, a function of the tokenizer and the string alone.
    #[verifier::external_body]
    pub fn get_token(&self, token_s: &str) -> (r: Option<u32>)
        ensures
            r == vocab_id(self.spec_tokenizer(), token_s@),
    {
        self.tokenizer.get_vocab(true).get(token_s).copied()
    }

    /// Resets the stream for reuse across sessions: the tokens are cleared
    /// and both boundaries return to the start.
    pub fn clear(&mut self)
        ensures
            final(self).wf(),
            final(self).spec_tokenizer() == old(self).spec_tokenizer(),
            final(self).spec_tokens() == Seq::<u32>::empty(),
            final(self).spec_prev() == 0,
            final(self).spec_current() == 0,
    {
        self.tokens.clear();
        self.prev_index = 0;
        self.current_index = 0;
    }

    /// Appends one token and, when the candidate window's text strictly grew
    /// and now ends in an alphanumeric character, releases the grown tail as
    /// the next stable fragment and advances the boundaries. On a decode
    /// failure nothing changes. This is the transition `feed_step` describes.
    pub fn next_token(&mut self, token: u32) -> (r: Result<Option<String>, CaptionError>)
        requires
            old(self).wf(),
        ensures
            final(self).wf(),
            final(self).spec_tokenizer() == old(self).spec_tokenizer(),
            r is Err ==> *final(self) == *old(self) && r->Err_0 is ProcessingFailure,
            r is Ok ==> final(self).spec_tokens() == old(self).spec_tokens().push(token),
            ({
                let t = old(self).spec_tokenizer();
                let toks2 = old(self).spec_tokens().push(token);
                let p = old(self).spec_prev();
                let c = old(self).spec_current();
                &&& (r is Ok && push_emits(t, toks2, p, c) ==> (r->Ok_0 matches Some(s) && s@
                    == pending_delta(t, toks2, p, c) && final(self).spec_prev() == c
                    && final(self).spec_current() == toks2.len()))
                &&& (r is Ok && !push_emits(t, toks2, p, c) ==> r->Ok_0 is None
                    && final(self).spec_prev() == p && final(self).spec_current() == c)
                &&& (r is Ok <==> window_decodes(t, toks2, p, c) && window_decodes(
                    t,
                    toks2,
                    p,
                    toks2.len() as int,
                ))
            }),
    {
        let ghost t = self.tokenizer;
        let ghost toks0 = self.tokens@;
        let ghost p = self.prev_index as int;
        let ghost c = self.current_index as int;
        let ghost toks2 = toks0.push(token);

        let prev_chars: Vec<char>;
        if self.prev_index == self.current_index {
            prev_chars = Vec::new();
        } else {
            let w = copy_window(&self.tokens, self.prev_index, self.current_index);
            proof {
                assert(toks2.subrange(p, c) =~= toks0.subrange(p, c));
            }
            prev_chars = match decode_tokens(&self.tokenizer, &w) {
                Ok(cs) => cs,
                Err(m) => {
                    return Err(decode_failure(m));
                },
            };
        }
        assert(prev_chars@ == window_text(t, toks2, p, c));
        assert(window_decodes(t, toks2, p, c));

        let mut grown = copy_window(&self.tokens, self.prev_index, self.tokens.len());
        grown.push(token);
        proof {
            assert(grown@ =~= toks2.subrange(p, toks2.len() as int));
        }
        let text_chars = match decode_tokens(&self.tokenizer, &grown) {
            Ok(cs) => cs,
            Err(m) => {
                return Err(decode_failure(m));
            },
        };
        assert(text_chars@ == window_text(t, toks2, p, toks2.len() as int));

        self.tokens.push(token);
        if text_chars.len() > prev_chars.len() && text_chars[text_chars.len()
            - 1].is_alphanumeric() {
            let delta = copy_window(&text_chars, prev_chars.len(), text_chars.len());
            proof {
                assert(delta@ =~= text_chars@.skip(prev_chars@.len() as int));
            }
            let s = string_from_chars(&delta);
            self.prev_index = self.current_index;
            self.current_index = self.tokens.len();
            Ok(Some(s))
        } else {
            Ok(None)
        }
    }

    /// Releases whatever text of the candidate window is still pending,
    /// without requiring the alphanumeric condition; used once generation
    /// ends to flush the buffered tail. The stream itself is unchanged.
    pub fn decode_rest(&self) -> (r: Result<Option<String>, CaptionError>)
        requires
            self.wf(),
        ensures
            r is Err ==> r->Err_0 is ProcessingFailure,
            ({
                let t = self.spec_tokenizer();
                let toks = self.spec_tokens();
                let p = self.spec_prev();
                let c = self.spec_current();
                &&& (r is Ok && flush_emits(t, toks, p, c) ==> (r->Ok_0 matches Some(s) && s@
                    == pending_delta(t, toks, p, c)))
                &&& (r is Ok && !flush_emits(t, toks, p, c) ==> r->Ok_0 is None)
                &&& (r is Ok <==> window_decodes(t, toks, p, c) && window_decodes(
                    t,
                    toks,
                    p,
                    toks.len() as int,
                ))
            }),
    {
        let ghost t = self.tokenizer;
        let ghost toks = self.tokens@;
        let ghost p = self.prev_index as int;
        let ghost c = self.current_index as int;

        let prev_chars: Vec<char>;
        if self.prev_index == self.current_index {
            prev_chars = Vec::new();
        } else {
            let w = copy_window(&self.tokens, self.prev_index, self.current_index);
            prev_chars = match decode_tokens(&self.tokenizer, &w) {
                Ok(cs) => cs,
                Err(m) => {
                    return Err(decode_failure(m));
                },
            };
        }
        assert(prev_chars@ == window_text(t, toks, p, c));

        let text_chars: Vec<char>;
        if self.prev_index == self.tokens.len() {
            text_chars = Vec::new();
        } else {
            let w = copy_window(&self.tokens, self.prev_index, self.tokens.len());
            text_chars = match decode_tokens(&self.tokenizer, &w) {
                Ok(cs) => cs,
                Err(m) => {
                    return Err(decode_failure(m));
                },
            };
        }
        assert(text_chars@ == window_text(t, toks, p, toks.len() as int));

        if text_chars.len() > prev_chars.len() {
            let delta = copy_window(&text_chars, prev_chars.len(), text_chars.len());
            proof {
                assert(delta@ =~= text_chars@.skip(prev_chars@.len() as int));
            }
            Ok(Some(string_from_chars(&delta)))
        } else {
            Ok(None)
        }
    }

    /// Decodes all tokens seen so far at once; succeeds exactly when the
    /// tokenizer renders the whole sequence (an empty one always renders).
    pub fn decode_all(&self) -> (r: Result<String, CaptionError>)
        ensures
            r is Err ==> r->Err_0 is ProcessingFailure,
            r is Ok <==> window_decodes(
                self.spec_tokenizer(),
                self.spec_tokens(),
                0,
                self.spec_tokens().len() as int,
            ),
            r is Ok ==> r->Ok_0@ == window_text(
                self.spec_tokenizer(),
                self.spec_tokens(),
                0,
                self.spec_tokens().len() as int,
            ),
    {
        if self.tokens.len() == 0 {
            Ok(String::new())
        } else {
            proof {
                assert(self.tokens@.subrange(0, self.tokens@.len() as int) =~= self.tokens@);
            }
            match decode_tokens(&self.tokenizer, &self.tokens) {
                Ok(cs) => Ok(string_from_chars(&cs)),
                Err(m) => Err(decode_failure(m)),
            }
        }
    }
}

/// Boundary state of a stream while a token sequence is fed one token at a
/// time, together with the concatenation of every fragment released so far.
pub struct FeedState {
    pub toks: Seq<u32>,
    pub prev: int,
    pub current: int,
    pub released: Seq<char>,
}

/// The state a fresh stream starts a session in.
pub open spec fn initial_feed_state() -> FeedState {
    FeedState { toks: Seq::empty(), prev: 0, current: 0, released: Seq::empty() }
}

/// One push of the stream, exactly as `next_token`'s contract describes it:
/// the token is appended, and when the candidate window's text grew and ends
/// alphanumeric, the grown tail joins the released text and the boundaries
/// advance.
pub open spec fn feed_step(t: tokenizers::Tokenizer, st: FeedState, token: u32) -> FeedState {
    let toks2 = st.toks.push(token);
    if push_emits(t, toks2, st.prev, st.current) {
        FeedState {
            toks: toks2,
            prev: st.current,
            current: toks2.len() as int,
            released: st.released + pending_delta(t, toks2, st.prev, st.current),
        }
    } else {
        FeedState { toks: toks2, prev: st.prev, current: st.current, released: st.released }
    }
}

/// The state after feeding a whole token sequence, one token at a time, to a
/// fresh stream.
pub open spec fn feed_all(t: tokenizers::Tokenizer, toks: Seq<u32>) -> FeedState
    decreases toks.len(),
{
    if toks.len() == 0 {
        initial_feed_state()
    } else {
        feed_step(t, feed_all(t, toks.drop_last()), toks.last())
    }
}

/// The tokenizer decodes prefix-additively over this token sequence: the
/// text of a longer window extends the text of a shorter one by exactly the
/// text of the gap between them. Plain concatenative vocabularies satisfy
/// this; a decoder that joins tokens with separators, or a subword merge
/// that re-renders earlier tokens, does not.
pub open spec fn prefix_additive(t: tokenizers::Tokenizer, toks: Seq<u32>) -> bool {
    forall|a: int, b: int|
        0 <= a <= b <= toks.len() ==> window_text(t, toks, 0, b) == window_text(t, toks, 0, a)
            + #[trigger] window_text(t, toks, a, b)
}

/// One release decision agrees with whole-prefix decoding, at feed length
/// `k` and boundary state `(p, c)`: if the candidate window's text strictly
/// grew past its released prefix, the text of the whole first `k` tokens is
/// the text up to the released boundary followed by exactly that growth; and
/// if it did not grow, it is the text up to the released boundary already.
pub open spec fn release_consistent(
    t: tokenizers::Tokenizer,
    toks: Seq<u32>,
    k: int,
    p: int,
    c: int,
) -> bool {
    let whole = window_text(t, toks, 0, k);
    let released = window_text(t, toks, 0, c);
    let text = window_text(t, toks, p, k);
    let prev = window_text(t, toks, p, c);
    &&& (text.len() > prev.len() ==> whole == released + text.skip(prev.len() as int))
    &&& (text.len() <= prev.len() ==> whole == released)
}

/// `release_consistent` at the boundary state the feed is in when it pushes
/// token `k`, with the windows running to the new length `k + 1`.
pub open spec fn step_release_consistent(t: tokenizers::Tokenizer, toks: Seq<u32>, k: int) -> bool {
    let st = feed_all(t, toks.take(k));
    release_consistent(t, toks, k + 1, st.prev, st.current)
}

/// The decoder releases consistently at every push this feed makes.
pub open spec fn feed_steps_consistent(t: tokenizers::Tokenizer, toks: Seq<u32>) -> bool {
    forall|k: int| 0 <= k < toks.len() ==> #[trigger] step_release_consistent(t, toks, k)
}

/// The decoder releases consistently at every boundary state this feed
/// actually reaches: at each push, and at the final flush. Nothing is asked
/// at states the feed never enters. A decoder that joins tokens with
/// separators meets this (each released fragment carries its separator in
/// the growth), and so does plain concatenative decoding (the lemma below);
/// a decoder whose merges re-render already released text does not, and the
/// stream then withholds the unstable tail instead of matching the whole
/// decode.
pub open spec fn stream_consistent(t: tokenizers::Tokenizer, toks: Seq<u32>) -> bool {
    &&& feed_steps_consistent(t, toks)
    &&& ({
        let st = feed_all(t, toks);
        release_consistent(t, toks, toks.len() as int, st.prev, st.current)
    })
}

/// Whatever the decode outcomes, the feed's boundary indices stay in range.
proof fn lemma_feed_bounds(t: tokenizers::Tokenizer, toks: Seq<u32>)
    ensures
        ({
            let st = feed_all(t, toks);
            &&& st.toks == toks
            &&& 0 <= st.prev <= st.current <= toks.len()
        }),
    decreases toks.len(),
{
    if toks.len() == 0 {
        assert(feed_all(t, toks).toks =~= toks);
    } else {
        lemma_feed_bounds(t, toks.drop_last());
        assert(feed_all(t, toks.drop_last()).toks.push(toks.last()) =~= toks);
    }
}

/// A shorter window of a prefix of the tokens reads the same text.
proof fn lemma_window_of_prefix(t: tokenizers::Tokenizer, toks: Seq<u32>, k: int, a: int, b: int)
    requires
        0 <= a,
        a <= b,
        b <= k <= toks.len(),
    ensures
        window_text(t, toks.take(k), a, b) == window_text(t, toks, a, b),
{
    if a < b {
        assert(toks.take(k).subrange(a, b) =~= toks.subrange(a, b));
    }
}

/// Prefix-additivity restricts to every prefix of the sequence.
proof fn lemma_prefix_additive_take(t: tokenizers::Tokenizer, toks: Seq<u32>, k: int)
    requires
        prefix_additive(t, toks),
        0 <= k <= toks.len(),
    ensures
        prefix_additive(t, toks.take(k)),
{
    let pre = toks.take(k);
    assert forall|a: int, b: int| 0 <= a <= b <= pre.len() implies window_text(t, pre, 0, b)
        == window_text(t, pre, 0, a) + #[trigger] window_text(t, pre, a, b) by {
        lemma_window_of_prefix(t, toks, k, 0, a);
        lemma_window_of_prefix(t, toks, k, 0, b);
        lemma_window_of_prefix(t, toks, k, a, b);
        assert(window_text(t, toks, 0, b) == window_text(t, toks, 0, a) + window_text(
            t,
            toks,
            a,
            b,
        ));
    }
}

/// Under prefix-additive decoding, a window's text splits at any inner
/// boundary: text of `[p, n)` is text of `[p, c)` followed by text of
/// `[c, n)`.
proof fn lemma_window_splits(t: tokenizers::Tokenizer, toks: Seq<u32>, p: int, c: int)
    requires
        prefix_additive(t, toks),
        0 <= p <= c <= toks.len(),
    ensures
        window_text(t, toks, p, toks.len() as int) == window_text(t, toks, p, c) + window_text(
            t,
            toks,
            c,
            toks.len() as int,
        ),
{
    let n = toks.len() as int;
    let w0p = window_text(t, toks, 0, p);
    let wpc = window_text(t, toks, p, c);
    let wpn = window_text(t, toks, p, n);
    let wcn = window_text(t, toks, c, n);
    assert(window_text(t, toks, 0, c) == w0p + wpc);
    assert(window_text(t, toks, 0, n) == w0p + wpn);
    assert(window_text(t, toks, 0, n) == window_text(t, toks, 0, c) + wcn);
    assert(w0p + wpn == w0p + (wpc + wcn)) by {
        assert((w0p + wpc) + wcn =~= w0p + (wpc + wcn));
    }
    w0p.lemma_concat_injective(wpn, wpc + wcn);
}

/// Under prefix-additive decoding, one release agrees with whole-prefix
/// decoding at any in-range boundary state: the growth a release hands out
/// is exactly the text of the tokens past the released boundary.
proof fn lemma_additive_release_consistent(
    t: tokenizers::Tokenizer,
    toks: Seq<u32>,
    k: int,
    p: int,
    c: int,
)
    requires
        prefix_additive(t, toks),
        0 <= p <= c <= k <= toks.len(),
    ensures
        release_consistent(t, toks, k, p, c),
{
    let pre = toks.take(k);
    lemma_prefix_additive_take(t, toks, k);
    lemma_window_splits(t, pre, p, c);
    lemma_window_of_prefix(t, toks, k, 0, k);
    lemma_window_of_prefix(t, toks, k, 0, c);
    lemma_window_of_prefix(t, toks, k, p, k);
    lemma_window_of_prefix(t, toks, k, p, c);
    lemma_window_of_prefix(t, toks, k, c, k);
    assert(pre.len() == k);
    let prev = window_text(t, toks, p, c);
    let gap = window_text(t, toks, c, k);
    assert(window_text(t, toks, p, k) == prev + gap);
    assert(window_text(t, toks, 0, k) == window_text(t, toks, 0, c) + gap) by {
        assert(window_text(t, pre, 0, k) == window_text(t, pre, 0, c) + window_text(
            t,
            pre,
            c,
            k,
        ));
    }
    assert((prev + gap).skip(prev.len() as int) =~= gap);
    if gap.len() == 0 {
        assert(window_text(t, toks, 0, c) + gap =~= window_text(t, toks, 0, c));
    }
}

/// A prefix-additive decoder is stream-consistent over every feed: with
/// neither separators nor merge effects, every reachable release is the text
/// of the tokens past the released boundary.
pub proof fn lemma_prefix_additive_streams(t: tokenizers::Tokenizer, toks: Seq<u32>)
    requires
        prefix_additive(t, toks),
    ensures
        stream_consistent(t, toks),
{
    assert forall|k: int| 0 <= k < toks.len() implies #[trigger] step_release_consistent(
        t,
        toks,
        k,
    ) by {
        lemma_feed_bounds(t, toks.take(k));
        assert(toks.take(k).len() == k);
        let st = feed_all(t, toks.take(k));
        lemma_additive_release_consistent(t, toks, k + 1, st.prev, st.current);
    }
    lemma_feed_bounds(t, toks);
    let st = feed_all(t, toks);
    lemma_additive_release_consistent(t, toks, toks.len() as int, st.prev, st.current);
}

/// The invariant the feed keeps: the boundaries stay in range, and the
/// released text is exactly the rendering of the tokens up to the
/// `current_index` boundary.
proof fn lemma_feed_invariant(t: tokenizers::Tokenizer, toks: Seq<u32>)
    requires
        feed_steps_consistent(t, toks),
    ensures
        ({
            let st = feed_all(t, toks);
            &&& st.toks == toks
            &&& 0 <= st.prev <= st.current <= toks.len()
            &&& st.released == window_text(t, toks, 0, st.current)
        }),
    decreases toks.len(),
{
    if toks.len() == 0 {
        assert(feed_all(t, toks).toks =~= toks);
    } else {
        let n = toks.len() as int;
        let pre = toks.drop_last();
        let token = toks.last();
        assert(pre =~= toks.take(n - 1));
        assert(feed_steps_consistent(t, pre)) by {
            assert forall|k: int| 0 <= k < pre.len() implies #[trigger] step_release_consistent(
                t,
                pre,
                k,
            ) by {
                assert(step_release_consistent(t, toks, k));
                assert(pre.take(k) =~= toks.take(k));
                let st = feed_all(t, toks.take(k));
                lemma_feed_bounds(t, toks.take(k));
                assert(toks.take(k).len() == k);
                lemma_window_of_prefix(t, toks, n - 1, 0, k + 1);
                lemma_window_of_prefix(t, toks, n - 1, 0, st.current);
                lemma_window_of_prefix(t, toks, n - 1, st.prev, k + 1);
                lemma_window_of_prefix(t, toks, n - 1, st.prev, st.current);
            }
        }
        lemma_feed_invariant(t, pre);
        let st0 = feed_all(t, pre);
        let toks2 = st0.toks.push(token);
        assert(toks2 =~= toks);
        let p = st0.prev;
        let c = st0.current;
        lemma_window_of_prefix(t, toks, n - 1, 0, c);
        assert(st0.released == window_text(t, toks, 0, c));
        // the step instance for this push
        assert(step_release_consistent(t, toks, n - 1));
        assert(toks.take(n - 1) =~= pre);
        assert(release_consistent(t, toks, n, p, c));
        if push_emits(t, toks2, p, c) {
            let text = window_text(t, toks, p, n);
            let prev = window_text(t, toks, p, c);
            assert(text.len() > prev.len());
            assert(window_text(t, toks, 0, n) == window_text(t, toks, 0, c) + text.skip(
                prev.len() as int,
            ));
            assert(feed_all(t, toks).released == window_text(t, toks, 0, n));
        }
    }
}

/// Law of streaming decode: feed a token sequence one token at a time to a
/// fresh stream, concatenate every fragment the pushes release, and append
/// whatever the final flush still releases; over any tokenizer that decodes
/// this sequence consistently at the boundary states the feed reaches, the
/// result is exactly the text of decoding the whole sequence at once. (Over
/// a tokenizer whose subword merges re-render already released text, the
/// hypothesis fails, and the stream instead withholds the unstable tail.)
pub proof fn lemma_stream_releases_whole_decode(t: tokenizers::Tokenizer, toks: Seq<u32>)
    requires
        stream_consistent(t, toks),
    ensures
        ({
            let st = feed_all(t, toks);
            let tail = if flush_emits(t, st.toks, st.prev, st.current) {
                pending_delta(t, st.toks, st.prev, st.current)
            } else {
                Seq::<char>::empty()
            };
            st.released + tail == window_text(t, toks, 0, toks.len() as int)
        }),
{
    lemma_feed_invariant(t, toks);
    let st = feed_all(t, toks);
    let n = toks.len() as int;
    let p = st.prev;
    let c = st.current;
    let text = window_text(t, toks, p, n);
    let prev = window_text(t, toks, p, c);
    assert(release_consistent(t, toks, n, p, c));
    if flush_emits(t, st.toks, p, c) {
        assert(text.len() > prev.len());
        assert(window_text(t, toks, 0, n) == window_text(t, toks, 0, c) + text.skip(
            prev.len() as int,
        ));
    } else {
        assert(text.len() <= prev.len());
        assert(window_text(t, toks, 0, n) == window_text(t, toks, 0, c));
        assert(st.released + Seq::<char>::empty() =~= st.released);
    }
}

} // verus!

