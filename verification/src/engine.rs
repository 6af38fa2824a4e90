//! The recognition engine seam: what a recogniser hands back, how it fails, and how its raw
//! output is tidied before anyone sees it.

use crate::text::{
    chars_of, is_ws, join, join_chars, lines, lines_chars, push_str, string_of, trim, trim_chars,
    views, words, words_chars,
};
use vstd::prelude::*;

verus! {

#[derive(Debug, Clone, PartialEq)]
pub struct TranscriptionResult {
    pub text: String,
    /// Wall-clock recognition time, kept so normal use exposes latency regressions.
    pub elapsed_ms: u128,
}

#[derive(Debug)]
pub enum EngineError {
    /// The model file is absent. The user is told how to fetch it, not given a stack trace.
    ModelMissing { path: String },
    ModelLoad(String),
    Recognition(String),
}

/// What the user reads for each failure.
pub open spec fn engine_message(e: EngineError) -> Seq<char> {
    match e {
        EngineError::ModelMissing { path } => "No speech model found at "@ + path@
            + ". Run app/scripts/fetch-model.sh to download one."@,
        EngineError::ModelLoad(d) => "Could not load the speech model: "@ + d@,
        EngineError::Recognition(d) => "Recognition failed: "@ + d@,
    }
}

impl EngineError {
    /// The sentence shown to the user.
    pub fn message(&self) -> (r: String)
        ensures
            r@ == engine_message(*self),
    {
        let mut m = String::new();
        match self {
            EngineError::ModelMissing { path } => {
                push_str(&mut m, "No speech model found at ");
                push_str(&mut m, path.as_str());
                push_str(&mut m, ". Run app/scripts/fetch-model.sh to download one.");
            },
            EngineError::ModelLoad(d) => {
                push_str(&mut m, "Could not load the speech model: ");
                push_str(&mut m, d.as_str());
            },
            EngineError::Recognition(d) => {
                push_str(&mut m, "Recognition failed: ");
                push_str(&mut m, d.as_str());
            },
        }
        m
    }
}

// ---------------------------------------------------------------------------- tidying

/// Whisper marks non-speech as a bracketed annotation, `[BLANK_AUDIO]` or `(typing)`.
pub open spec fn is_annotation(t: Seq<char>) -> bool {
    t.len() > 0 && ((t[0] == '[' && t.last() == ']') || (t[0] == '(' && t.last() == ')'))
}

/// A trimmed line worth keeping: not empty, not an annotation.
pub open spec fn speech_pred() -> spec_fn(Seq<char>) -> bool {
    |t: Seq<char>| t.len() > 0 && !is_annotation(t)
}

/// The lines of the raw output, each trimmed.
pub open spec fn trimmed_lines(raw: Seq<char>) -> Seq<Seq<char>> {
    Seq::new(lines(raw).len(), |i: int| trim(lines(raw)[i]))
}

/// The lines that carry speech, trimmed, in order.
pub open spec fn speech_lines(raw: Seq<char>) -> Seq<Seq<char>> {
    trimmed_lines(raw).filter(speech_pred())
}

/// The tidied text: speech lines joined into one paragraph, every run of white space made a
/// single space, none at either end.
pub open spec fn tidied(raw: Seq<char>) -> Seq<char> {
    join(words(join(speech_lines(raw), " "@)), " "@)
}

fn annotation(t: &[char]) -> (r: bool)
    ensures
        r == is_annotation(t@),
{
    let n = t.len();
    n > 0 && ((t[0] == '[' && t[n - 1] == ']') || (t[0] == '(' && t[n - 1] == ')'))
}

/// Tidy the raw recogniser output. Deliberately rule-based and tiny: heavier restructuring is
/// something the user asks for, never a pipeline stage.
pub fn tidy(raw: &str) -> (r: String)
    ensures
        r@ == tidied(raw@),
{
    let chars = chars_of(raw);
    let ls = lines_chars(chars.as_slice());
    let ghost tl = trimmed_lines(raw@);
    let n = ls.len();
    assert(tl.len() == n);
    let mut kept: Vec<Vec<char>> = Vec::new();
    let mut i: usize = 0;
    while i < n
        invariant
            n == ls@.len(),
            views(ls@) == lines(raw@),
            tl == trimmed_lines(raw@),
            tl.len() == n,
            i <= n,
            views(kept@) == tl.take(i as int).filter(speech_pred()),
        decreases n - i,
    {
        assert(views(ls@)[i as int] == ls@[i as int]@);
        let t = trim_chars(ls[i].as_slice());
        let ghost before = tl.take(i as int);
        let ghost after = tl.take(i + 1);
        assert(after.drop_last() =~= before);
        assert(after.last() == t@);
        proof {
            reveal(Seq::filter);
        }
        if t.len() > 0 && !annotation(t.as_slice()) {
            let ghost prev = views(kept@);
            kept.push(t);
            assert(views(kept@) =~= prev.push(after.last()));
            assert(speech_pred()(after.last()));
            assert(after.filter(speech_pred()) == after.drop_last().filter(speech_pred()).push(
                after.last(),
            ));
        } else {
            assert(!speech_pred()(after.last()));
            assert(after.filter(speech_pred()) == after.drop_last().filter(speech_pred()));
        }
        assert(after.filter(speech_pred()) == views(kept@));
        i = i + 1;
    }
    assert(tl.take(n as int) =~= tl);
    let space = chars_of(" ");
    let paragraph = join_chars(&kept, space.as_slice());
    let ws = words_chars(paragraph.as_slice());
    let out = join_chars(&ws, space.as_slice());
    string_of(out.as_slice())
}

// ---------------------------------------------------------------------------- the recogniser

/// The recogniser's segments, each followed by a line break; a segment whose text could not
/// be read is skipped.
pub open spec fn segments_raw(segments: Seq<Option<String>>) -> Seq<char>
    decreases segments.len(),
{
    if segments.len() == 0 {
        Seq::empty()
    } else {
        segments_raw(segments.drop_last()) + match segments.last() {
            Some(t) => t@.push('\n'),
            None => Seq::empty(),
        }
    }
}

/// The transcript of a recognition: its segments, one per line, tidied.
pub fn segments_text(segments: &[Option<String>]) -> (r: String)
    ensures
        r@ == tidied(segments_raw(segments@)),
{
    let mut raw = String::new();
    let mut i: usize = 0;
    while i < segments.len()
        invariant
            i <= segments@.len(),
            raw@ == segments_raw(segments@.take(i as int)),
        decreases segments@.len() - i,
    {
        let ghost after = segments@.take(i + 1);
        assert(after.drop_last() =~= segments@.take(i as int));
        match &segments[i] {
            Some(t) => {
                push_str(&mut raw, t.as_str());
                crate::text::push_char(&mut raw, '\n');
            },
            None => {},
        }
        assert(raw@ =~= segments_raw(after));
        i = i + 1;
    }
    assert(segments@.take(segments@.len() as int) =~= segments@);
    tidy(raw.as_str())
}

/// Recognition threads: one fewer than the processors available (four assumed when unknown),
/// and at least one, as an `i32` the way a cast gives it.
pub open spec fn worker_threads_spec(available: Option<usize>) -> i32 {
    let n = match available {
        Some(n) => n as int,
        None => 4,
    };
    let m = if n >= 1 { n - 1 } else { 0 };
    (if m >= 1 { m } else { 1 }) as i32
}

pub fn worker_threads(available: Option<usize>) -> (r: i32)
    ensures
        r == worker_threads_spec(available),
{
    let n: usize = match available {
        Some(n) => n,
        None => 4,
    };
    let m: usize = if n >= 1 { n - 1 } else { 0 };
    let t: usize = if m >= 1 { m } else { 1 };
    t as i32
}

/// Which model file to load: the one in the program's models folder if it is there, else one
/// bundled beside the program if that is there, else the models folder's (which then reports
/// the model missing).
pub fn model_choice(own: Option<String>, own_exists: bool, bundled: Option<String>, bundled_exists: bool) -> (r: Option<String>)
    ensures
        own is Some && own_exists ==> r == own,
        !(own is Some && own_exists) && bundled is Some && bundled_exists ==> r == bundled,
        !(own is Some && own_exists) && !(bundled is Some && bundled_exists) ==> r == own,
{
    if own.is_some() && own_exists {
        return own;
    }
    match bundled {
        Some(b) if bundled_exists => Some(b),
        _ => own,
    }
}

// ---------------------------------------------------------------------------- laws

/// Text with single spaces: every white-space character is a space, between two characters
/// that are not white space.
pub open spec fn single_spaced(t: Seq<char>) -> bool {
    forall|i: int|
        0 <= i < t.len() && is_ws(#[trigger] t[i]) ==> t[i] == ' ' && 0 < i < t.len() - 1 && !is_ws(
            t[i - 1],
        ) && !is_ws(t[i + 1])
}

/// Pieces that are words: not empty, and no white space in them.
pub open spec fn all_words(ps: Seq<Seq<char>>) -> bool {
    forall|k: int|
        0 <= k < ps.len() ==> (#[trigger] ps[k]).len() > 0 && forall|j: int|
            0 <= j < ps[k].len() ==> !is_ws(ps[k][j])
}

proof fn lemma_words_are_words(s: Seq<char>)
    ensures
        all_words(words(s)),
    decreases s.len(),
{
    if s.len() > 0 {
        lemma_words_are_words(s.drop_last());
        let w = words(s.drop_last());
        let c = s.last();
        if !is_ws(c) {
            if s.len() >= 2 && !is_ws(s[s.len() - 2]) && w.len() > 0 {
                let u = w.update(w.len() - 1, w.last().push(c));
                assert forall|k: int| 0 <= k < u.len() implies (#[trigger] u[k]).len() > 0 && forall|j: int|
                    0 <= j < u[k].len() ==> !is_ws(u[k][j]) by {
                    if k == w.len() - 1 {
                        assert forall|j: int| 0 <= j < u[k].len() implies !is_ws(u[k][j]) by {
                            if j < w.last().len() {
                                assert(u[k][j] == w[k][j]);
                            }
                        }
                    }
                }
            } else {
                let u = w.push(seq![c]);
                assert forall|k: int| 0 <= k < u.len() implies (#[trigger] u[k]).len() > 0 && forall|j: int|
                    0 <= j < u[k].len() ==> !is_ws(u[k][j]) by {
                    if k < w.len() {
                        assert(u[k] == w[k]);
                    }
                }
            }
        }
    }
}

proof fn lemma_join_single_spaced(ps: Seq<Seq<char>>)
    requires
        all_words(ps),
    ensures
        single_spaced(join(ps, " "@)),
        ps.len() > 0 ==> join(ps, " "@).len() > 0,
    decreases ps.len(),
{
    reveal_strlit(" ");
    if ps.len() == 1 {
        let t = join(ps, " "@);
        assert(t == ps[0]);
        assert(ps[0].len() > 0);
    } else if ps.len() >= 2 {
        let init = ps.drop_last();
        assert forall|k: int| 0 <= k < init.len() implies (#[trigger] init[k]).len() > 0 && forall|j: int|
            0 <= j < init[k].len() ==> !is_ws(init[k][j]) by {
            assert(init[k] == ps[k]);
        }
        lemma_join_single_spaced(init);
        let a = join(init, " "@);
        let b = ps.last();
        assert(b == ps[ps.len() - 1]);
        let t = join(ps, " "@);
        assert(t == a + " "@ + b);
        assert(a.len() > 0);
        assert(!is_ws(a[a.len() - 1])) by {
            if is_ws(a[a.len() - 1]) {
                assert(a.len() - 1 < a.len() - 1);
            }
        }
        assert forall|i: int| 0 <= i < t.len() && is_ws(#[trigger] t[i]) implies t[i] == ' ' && 0 < i
            < t.len() - 1 && !is_ws(t[i - 1]) && !is_ws(t[i + 1]) by {
            if i < a.len() {
                assert(t[i] == a[i]);
                assert(t[i - 1] == a[i - 1]);
                assert(t[i + 1] == a[i + 1]);
            } else if i == a.len() {
                assert(t[i - 1] == a[a.len() - 1]);
                assert(t[i + 1] == b[0]);
            } else {
                assert(t[i] == b[i - a.len() - 1]);
            }
        }
    }
}

/// Tidied text is one paragraph with single spaces: no white space at either end, no run of
/// it, and nothing but spaces between the words.
pub proof fn law_tidied_text_is_single_spaced(raw: Seq<char>)
    ensures
        single_spaced(tidied(raw)),
{
    lemma_words_are_words(join(speech_lines(raw), " "@));
    lemma_join_single_spaced(words(join(speech_lines(raw), " "@)));
}

} // verus!
