//! Recovery drafts.
//!
//! A transcript is written as a draft the instant recognition finishes, before the clipboard
//! and before any delivery: the copy that survives the program itself crashing. Drafts hold
//! dictated speech, the most sensitive data the program touches, so they are capped: only the
//! newest are kept. Writing, listing and deleting the files is the application's; the names,
//! the order and the cap are here.

use crate::paths::{
    app_entry, data_dir_in, data_dir_under, data_local_dir, entry_under, path_joined, verbatim,
};
use crate::platform::Platform;
use crate::text::{chars_of, ends_with, is_blank, is_blank_exec, push_str, decimal};
use vstd::prelude::*;

verus! {

/// How many drafts are kept by default.
pub const DEFAULT_KEEP: usize = 20;

pub struct DraftStore {
    dir: String,
    keep: usize,
}

impl DraftStore {
    pub closed spec fn dir_spec(self) -> Seq<char> {
        self.dir@
    }

    pub closed spec fn keep_spec(self) -> usize {
        self.keep
    }

    /// A store in `dir` that keeps the newest `keep` drafts.
    pub fn new(dir: &str, keep: usize) -> (s: Self)
        ensures
            s.dir_spec() == dir@,
            s.keep_spec() == keep,
    {
        let mut d = String::new();
        push_str(&mut d, dir);
        DraftStore { dir: d, keep }
    }

    /// A store in the program's drafts folder on the local application-data directory `local`,
    /// keeping twenty; `None` exactly when there is no such directory.
    pub fn from_local_dir(local: Option<String>, platform: Platform) -> (r: Option<Self>)
        ensures
            r is Some <==> local is Some,
            r matches Some(s) ==> local matches Some(l) && s.dir_spec() == path_joined(
                data_dir_in(l@, platform),
                "drafts"@,
            ) && s.keep_spec() == DEFAULT_KEEP,
            r matches Some(s) ==> local matches Some(l) && (!verbatim(data_dir_in(l@, platform))
                ==> data_dir_in(l@, platform).is_prefix_of(s.dir_spec())),
    {
        proof {
            reveal_strlit("drafts");
            assert(seq!['.'].len() == 1 && seq!['.', '.'].len() == 2);
        }
        match local {
            Some(l) => {
                let data = data_dir_under(l.as_str(), platform);
                let dir = entry_under(data.as_str(), "drafts");
                Some(DraftStore { dir, keep: DEFAULT_KEEP })
            },
            None => None,
        }
    }

    /// A store in the program's drafts folder, keeping twenty. `None` when the system has no
    /// application-data directory.
    pub fn at_default_location(platform: Platform) -> (r: Option<Self>)
        ensures
            r matches Some(s) ==> app_entry(s.dir_spec(), platform, "drafts"@) && s.keep_spec()
                == DEFAULT_KEEP,
    {
        let local = data_local_dir();
        let ghost given = local;
        let r = Self::from_local_dir(local, platform);
        proof {
            if r is Some {
                let l = given.unwrap();
                assert(data_dir_in(l@, platform) == data_dir_in(l@, platform));
            }
        }
        r
    }

    pub fn dir(&self) -> (r: &str)
        ensures
            r@ == self.dir_spec(),
    {
        self.dir.as_str()
    }

    pub fn keep(&self) -> (r: usize)
        ensures
            r == self.keep_spec(),
    {
        self.keep
    }
}

/// An empty transcript is not worth a file.
pub fn worth_saving(text: &str) -> (r: bool)
    ensures
        r == !is_blank(text@),
{
    let c = chars_of(text);
    !is_blank_exec(c.as_slice())
}

/// The file name of a draft written at `stamp_ms` milliseconds past the epoch.
pub open spec fn draft_name_spec(stamp_ms: u128) -> Seq<char> {
    "draft-"@ + decimal(stamp_ms as nat) + ".txt"@
}

pub fn draft_file_name(stamp_ms: u128) -> (r: String)
    ensures
        r@ == draft_name_spec(stamp_ms),
{
    let mut s = String::new();
    push_str(&mut s, "draft-");
    let d = crate::text::decimal_chars_u128(stamp_ms);
    let ds = crate::text::string_of(d.as_slice());
    push_str(&mut s, ds.as_str());
    push_str(&mut s, ".txt");
    s
}

/// A file name with the extension `txt`: something before the last dot, and `txt` after it.
pub open spec fn is_text_file(name: Seq<char>) -> bool {
    name.len() > 4 && ".txt"@.is_suffix_of(name)
}

pub fn is_draft_file(name: &str) -> (r: bool)
    ensures
        r == is_text_file(name@),
{
    let c = chars_of(name);
    let t = chars_of(".txt");
    proof {
        reveal_strlit(".txt");
    }
    c.len() > 4 && ends_with(c.as_slice(), t.as_slice())
}

// ---------------------------------------------------------------------------- order

/// Strict lexicographic order by character: the order of the names' bytes.
pub open spec fn text_lt(a: Seq<char>, b: Seq<char>) -> bool
    decreases a.len(),
{
    if a.len() == 0 {
        b.len() > 0
    } else if b.len() == 0 {
        false
    } else if a[0] != b[0] {
        a[0] < b[0]
    } else {
        text_lt(a.drop_first(), b.drop_first())
    }
}

pub proof fn lemma_text_lt_irreflexive(a: Seq<char>)
    ensures
        !text_lt(a, a),
    decreases a.len(),
{
    if a.len() > 0 {
        lemma_text_lt_irreflexive(a.drop_first());
    }
}

pub proof fn lemma_text_lt_transitive(a: Seq<char>, b: Seq<char>, c: Seq<char>)
    requires
        text_lt(a, b),
        text_lt(b, c),
    ensures
        text_lt(a, c),
    decreases a.len(),
{
    if a.len() > 0 && b.len() > 0 && c.len() > 0 && a[0] == b[0] && b[0] == c[0] {
        lemma_text_lt_transitive(a.drop_first(), b.drop_first(), c.drop_first());
    }
}

pub proof fn lemma_text_lt_total(a: Seq<char>, b: Seq<char>)
    ensures
        a == b || text_lt(a, b) || text_lt(b, a),
    decreases a.len(),
{
    if a.len() > 0 && b.len() > 0 {
        if a[0] == b[0] {
            lemma_text_lt_total(a.drop_first(), b.drop_first());
            if a.drop_first() == b.drop_first() {
                assert(a.drop_first().len() == b.drop_first().len());
                assert(a.len() == b.len());
                assert forall|k: int| 0 <= k < a.len() implies a[k] == b[k] by {
                    if k > 0 {
                        assert(a[k] == a.drop_first()[k - 1]);
                        assert(b[k] == b.drop_first()[k - 1]);
                    }
                }
                assert(a =~= b);
            }
        } else {
        }
    } else if a.len() == 0 && b.len() == 0 {
        assert(a =~= b);
    }
}

/// Two names never precede each other.
pub proof fn lemma_text_lt_asymmetric(a: Seq<char>, b: Seq<char>)
    requires
        text_lt(a, b),
    ensures
        !text_lt(b, a),
{
    if text_lt(b, a) {
        lemma_text_lt_transitive(a, b, a);
        lemma_text_lt_irreflexive(a);
    }
}

fn less(a: &[char], b: &[char]) -> (r: bool)
    ensures
        r == text_lt(a@, b@),
{
    let mut i: usize = 0;
    assert(a@.subrange(0, a@.len() as int) =~= a@);
    assert(b@.subrange(0, b@.len() as int) =~= b@);
    while i < a.len() && i < b.len()
        invariant
            i <= a@.len(),
            i <= b@.len(),
            a@.subrange(0, i as int) == b@.subrange(0, i as int),
            text_lt(a@, b@) == text_lt(a@.subrange(i as int, a@.len() as int), b@.subrange(i as int, b@.len() as int)),
        decreases a@.len() - i,
    {
        let ghost ra = a@.subrange(i as int, a@.len() as int);
        let ghost rb = b@.subrange(i as int, b@.len() as int);
        assert(ra[0] == a@[i as int]);
        assert(rb[0] == b@[i as int]);
        if a[i] != b[i] {
            return a[i] < b[i];
        }
        assert(ra.drop_first() =~= a@.subrange(i + 1, a@.len() as int));
        assert(rb.drop_first() =~= b@.subrange(i + 1, b@.len() as int));
        assert(a@.subrange(0, i + 1) =~= a@.subrange(0, i as int).push(a@[i as int]));
        assert(b@.subrange(0, i + 1) =~= b@.subrange(0, i as int).push(b@[i as int]));
        i = i + 1;
    }
    i < b.len()
}

/// The views of a sequence of strings.
pub open spec fn names_view(v: Seq<String>) -> Seq<Seq<char>> {
    Seq::new(v.len(), |i: int| v[i]@)
}

/// Newest first: no name is smaller than one after it.
pub open spec fn newest_first(s: Seq<Seq<char>>) -> bool {
    forall|i: int, j: int| 0 <= i < j < s.len() ==> !text_lt(#[trigger] s[i], #[trigger] s[j])
}

pub open spec fn text_file_pred() -> spec_fn(Seq<char>) -> bool {
    |n: Seq<char>| is_text_file(n)
}

/// Where `x` goes in names kept newest first: before the first smaller name.
fn insertion_point(sorted: &Vec<String>, x: &[char]) -> (p: usize)
    ensures
        p <= sorted@.len(),
        forall|k: int| 0 <= k < p ==> !text_lt(#[trigger] sorted@[k]@, x@),
        p < sorted@.len() ==> text_lt(sorted@[p as int]@, x@),
{
    let m = sorted.len();
    let mut p: usize = 0;
    while p < m
        invariant
            m == sorted@.len(),
            p <= m,
            forall|k: int| 0 <= k < p ==> !text_lt(#[trigger] sorted@[k]@, x@),
        decreases m - p,
    {
        let y = chars_of(sorted[p].as_str());
        if less(y.as_slice(), x) {
            return p;
        }
        p = p + 1;
    }
    p
}

/// Inserting `x` before the first smaller name keeps the names newest first.
proof fn lemma_insert_keeps_order(s: Seq<Seq<char>>, p: int, x: Seq<char>)
    requires
        newest_first(s),
        0 <= p <= s.len(),
        forall|k: int| 0 <= k < p ==> !text_lt(#[trigger] s[k], x),
        p < s.len() ==> text_lt(s[p], x),
    ensures
        newest_first(s.insert(p, x)),
{
    let t = s.insert(p, x);
    assert forall|j: int| p <= j < s.len() implies text_lt(#[trigger] s[j], x) by {
        if j > p {
            assert(!text_lt(s[p], s[j]));
            lemma_text_lt_total(s[p], s[j]);
            if s[j] != s[p] {
                lemma_text_lt_transitive(s[j], s[p], x);
            }
        }
    }
    assert forall|a: int, b: int| 0 <= a < b < t.len() implies !text_lt(#[trigger] t[a], #[trigger] t[b]) by {
        if b < p {
            assert(t[a] == s[a] && t[b] == s[b]);
        } else if b == p {
            assert(t[a] == s[a] && t[b] == x);
        } else if a < p {
            assert(t[a] == s[a] && t[b] == s[b - 1]);
        } else if a == p {
            assert(t[a] == x && t[b] == s[b - 1]);
            assert(text_lt(s[b - 1], x));
            lemma_text_lt_asymmetric(s[b - 1], x);
        } else {
            assert(t[a] == s[a - 1] && t[b] == s[b - 1]);
        }
    }
}

/// The names of the drafts in a folder listing, most recent first: the text files among
/// `names`, in descending order of name.
pub fn recent_order(names: Vec<String>) -> (r: Vec<String>)
    ensures
        newest_first(names_view(r@)),
        names_view(r@).to_multiset() == names_view(names@).filter(text_file_pred()).to_multiset(),
        forall|i: int| 0 <= i < r@.len() ==> is_text_file(#[trigger] r@[i]@),
{
    let mut out: Vec<String> = Vec::new();
    let mut i: usize = 0;
    let n = names.len();
    proof {
        reveal(Seq::filter);
    }
    assert(names_view(names@).take(0) =~= Seq::<Seq<char>>::empty());
    assert(names_view(out@) =~= Seq::<Seq<char>>::empty());
    while i < n
        invariant
            n == names@.len(),
            i <= n,
            newest_first(names_view(out@)),
            names_view(out@).to_multiset() == names_view(names@).take(i as int).filter(
                text_file_pred(),
            ).to_multiset(),
            forall|k: int| 0 <= k < out@.len() ==> is_text_file(#[trigger] out@[k]@),
        decreases n - i,
    {
        let ghost before = names_view(names@).take(i as int);
        let ghost after = names_view(names@).take(i + 1);
        assert(after.drop_last() =~= before);
        assert(after.last() == names@[i as int]@);
        proof {
            reveal(Seq::filter);
        }
        let name = &names[i];
        if is_draft_file(name.as_str()) {
            let x = chars_of(name.as_str());
            let p = insertion_point(&out, x.as_slice());
            let ghost old_view = names_view(out@);
            let mut copy = String::new();
            push_str(&mut copy, name.as_str());
            out.insert(p, copy);
            proof {
                assert(names_view(out@) =~= old_view.insert(p as int, x@));
                vstd::seq_lib::to_multiset_insert(old_view, p as int, x@);
                assert(after.filter(text_file_pred()) == before.filter(text_file_pred()).push(
                    x@,
                ));
                vstd::seq_lib::to_multiset_build(before.filter(text_file_pred()), x@);
                assert(forall|k: int| 0 <= k < p ==> old_view[k] == out@[k]@);
                lemma_insert_keeps_order(old_view, p as int, x@);
                assert forall|k: int| 0 <= k < out@.len() implies is_text_file(#[trigger] out@[k]@) by {
                    assert(out@[k]@ == names_view(out@)[k]);
                }
            }
        } else {
            assert(after.filter(text_file_pred()) == before.filter(text_file_pred()));
        }
        i = i + 1;
    }
    assert(names_view(names@).take(n as int) =~= names_view(names@));
    out
}

/// The drafts past the cap, given the drafts newest first: all but the first `keep`.
pub fn to_prune(recent: &[String], keep: usize) -> (r: Vec<String>)
    ensures
        keep >= recent@.len() ==> r@.len() == 0,
        keep < recent@.len() ==> names_view(r@) == names_view(recent@).subrange(keep as int, recent@.len() as int),
{
    let mut r: Vec<String> = Vec::new();
    let mut i: usize = keep;
    if i >= recent.len() {
        return r;
    }
    while i < recent.len()
        invariant
            keep <= i <= recent@.len(),
            names_view(r@) =~= names_view(recent@).subrange(keep as int, i as int),
        decreases recent@.len() - i,
    {
        let mut c = String::new();
        push_str(&mut c, recent[i].as_str());
        let ghost prev = names_view(r@);
        r.push(c);
        assert(names_view(r@) =~= prev.push(recent@[i as int]@));
        i = i + 1;
    }
    r
}

} // verus!
