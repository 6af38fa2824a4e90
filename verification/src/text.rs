//! Text primitives shared by the rest of the library.
//!
//! Every function here works on Unicode scalar values (`char`), as `str` methods do, and is
//! specified over the string's view, a `Seq<char>`.

use vstd::prelude::*;

verus! {

// ---------------------------------------------------------------------------- characters

/// Unicode `White_Space`, the set `char::is_whitespace` answers for.
pub open spec fn is_ws(c: char) -> bool {
    let u = c as u32;
    ||| 0x09 <= u <= 0x0D
    ||| u == 0x20
    ||| u == 0x85
    ||| u == 0xA0
    ||| u == 0x1680
    ||| 0x2000 <= u <= 0x200A
    ||| u == 0x2028
    ||| u == 0x2029
    ||| u == 0x202F
    ||| u == 0x205F
    ||| u == 0x3000
}

pub fn char_is_ws(c: char) -> (r: bool)
    ensures
        r == is_ws(c),
{
    let u = c as u32;
    (0x09 <= u && u <= 0x0D) || u == 0x20 || u == 0x85 || u == 0xA0 || u == 0x1680 || (0x2000
        <= u && u <= 0x200A) || u == 0x2028 || u == 0x2029 || u == 0x202F || u == 0x205F || u
        == 0x3000
}

pub open spec fn is_ascii_upper(c: char) -> bool {
    'A' <= c <= 'Z'
}

pub open spec fn is_ascii_digit(c: char) -> bool {
    '0' <= c <= '9'
}

pub open spec fn is_ascii_hex(c: char) -> bool {
    ||| '0' <= c <= '9'
    ||| 'a' <= c <= 'f'
    ||| 'A' <= c <= 'F'
}

pub fn char_is_hex(c: char) -> (r: bool)
    ensures
        r == is_ascii_hex(c),
{
    ('0' <= c && c <= '9') || ('a' <= c && c <= 'f') || ('A' <= c && c <= 'F')
}

/// `char::to_ascii_lowercase`.
pub open spec fn lower(c: char) -> char {
    if is_ascii_upper(c) {
        ((c as u32) + 32) as char
    } else {
        c
    }
}

/// `char::to_ascii_uppercase`.
pub open spec fn upper(c: char) -> char {
    if 'a' <= c <= 'z' {
        ((c as u32) - 32) as char
    } else {
        c
    }
}

pub fn char_lower(c: char) -> (r: char)
    ensures
        r == lower(c),
{
    if 'A' <= c && c <= 'Z' {
        let u = (c as u32) + 32;
        char_from_ascii(u)
    } else {
        c
    }
}

pub fn char_upper(c: char) -> (r: char)
    ensures
        r == upper(c),
{
    if 'a' <= c && c <= 'z' {
        let u = (c as u32) - 32;
        char_from_ascii(u)
    } else {
        c
    }
}

/// The character with an ASCII code point.
pub fn char_from_ascii(u: u32) -> (c: char)
    requires
        u < 128,
    ensures
        c as u32 == u,
        c == u as char,
{
    let b = u as u8;
    b as char
}

pub open spec fn lower_seq(s: Seq<char>) -> Seq<char> {
    Seq::new(s.len(), |i: int| lower(s[i]))
}

pub open spec fn upper_seq(s: Seq<char>) -> Seq<char> {
    Seq::new(s.len(), |i: int| upper(s[i]))
}

/// ASCII case-insensitive equality, `str::eq_ignore_ascii_case`.
pub open spec fn eq_ignore_case(a: Seq<char>, b: Seq<char>) -> bool {
    lower_seq(a) == lower_seq(b)
}

// ---------------------------------------------------------------------------- conversions

/// `String::push`.
#[verifier::external_body]
pub fn push_char(s: &mut String, c: char)
    ensures
        final(s)@ == old(s)@.push(c),
{
    s.push(c);
}

/// What `str::to_uppercase` gives for `s`: the Unicode upper-case mapping, which may change
/// the number of characters.
pub uninterp spec fn unicode_upper(s: Seq<char>) -> Seq<char>;

/// `str::to_uppercase`. Its result is named, not described: the Unicode tables are not
/// restated here. On ASCII text it is the ASCII upper case: `a`..`z` become `A`..`Z`, and every
/// other ASCII character stays as it is.
#[verifier::external_body]
pub(crate) fn to_uppercase(s: &str) -> (r: String)
    ensures
        r@ == unicode_upper(s@),
        (forall|i: int| 0 <= i < s@.len() ==> (#[trigger] s@[i] as u32) < 128) ==> r@
            == upper_seq(s@),
{
    s.to_uppercase()
}

/// What `char::to_uppercase` gives for `c`, which may be more than one character.
pub uninterp spec fn char_upper_full(c: char) -> Seq<char>;

/// `char::to_uppercase`, collected into a string. An ASCII character maps to its ASCII upper
/// case, one character.
#[verifier::external_body]
pub(crate) fn char_to_uppercase(c: char) -> (r: String)
    ensures
        r@ == char_upper_full(c),
        (c as u32) < 128 ==> r@ == seq![upper(c)],
{
    c.to_uppercase().collect()
}

/// Appends the characters of `tail` to `out`.
pub fn push_str(out: &mut String, tail: &str)
    ensures
        final(out)@ == old(out)@ + tail@,
{
    let ghost start = out@;
    for c in it: tail.chars()
        invariant
            it.seq() == tail@,
            out@ == start + it.seq().take(it.index() as int),
    {
        proof {
            assert(it.seq().take(it.index() + 1) =~= it.seq().take(it.index() as int).push(c));
        }
        push_char(out, c);
    }
    assert(tail@.take(tail@.len() as int) =~= tail@);
}

/// The characters of `s`, in order.
pub fn chars_of(s: &str) -> (v: Vec<char>)
    ensures
        v@ == s@,
{
    let mut v: Vec<char> = Vec::new();
    for c in it: s.chars()
        invariant
            it.seq() == s@,
            v@ == it.seq().take(it.index() as int),
    {
        v.push(c);
    }
    v
}

/// A `String` holding exactly the characters of `v`.
pub fn string_of(v: &[char]) -> (s: String)
    ensures
        s@ == v@,
{
    let mut s = String::new();
    let mut i: usize = 0;
    while i < v.len()
        invariant
            i <= v@.len(),
            s@ == v@.take(i as int),
        decreases v@.len() - i,
    {
        push_char(&mut s, v[i]);
        i = i + 1;
        assert(v@.take(i as int) =~= v@.take(i - 1 as int).push(v@[i - 1]));
    }
    assert(v@.take(v@.len() as int) =~= v@);
    s
}

/// `s` with every ASCII upper-case letter made lower-case.
pub fn to_ascii_lowercase(s: &[char]) -> (r: Vec<char>)
    ensures
        r@ == lower_seq(s@),
{
    let mut r: Vec<char> = Vec::new();
    let mut i: usize = 0;
    while i < s.len()
        invariant
            i <= s@.len(),
            r@ =~= lower_seq(s@.take(i as int)),
        decreases s@.len() - i,
    {
        let c = char_lower(s[i]);
        r.push(c);
        i = i + 1;
    }
    assert(s@.take(s@.len() as int) =~= s@);
    r
}

/// `s` with every ASCII lower-case letter made upper-case.
pub fn to_ascii_uppercase(s: &[char]) -> (r: Vec<char>)
    ensures
        r@ == upper_seq(s@),
{
    let mut r: Vec<char> = Vec::new();
    let mut i: usize = 0;
    while i < s.len()
        invariant
            i <= s@.len(),
            r@ =~= upper_seq(s@.take(i as int)),
        decreases s@.len() - i,
    {
        let c = char_upper(s[i]);
        r.push(c);
        i = i + 1;
    }
    assert(s@.take(s@.len() as int) =~= s@);
    r
}

pub fn eq_ignore_ascii_case(a: &[char], b: &[char]) -> (r: bool)
    ensures
        r == eq_ignore_case(a@, b@),
{
    if a.len() != b.len() {
        assert(lower_seq(a@).len() != lower_seq(b@).len());
        return false;
    }
    let mut i: usize = 0;
    while i < a.len()
        invariant
            a@.len() == b@.len(),
            i <= a@.len(),
            forall|j: int| 0 <= j < i ==> lower(a@[j]) == lower(b@[j]),
        decreases a@.len() - i,
    {
        if char_lower(a[i]) != char_lower(b[i]) {
            assert(lower_seq(a@)[i as int] != lower_seq(b@)[i as int]);
            return false;
        }
        i = i + 1;
    }
    assert(lower_seq(a@) =~= lower_seq(b@));
    true
}

pub fn seq_eq(a: &[char], b: &[char]) -> (r: bool)
    ensures
        r == (a@ == b@),
{
    if a.len() != b.len() {
        return false;
    }
    let mut i: usize = 0;
    while i < a.len()
        invariant
            a@.len() == b@.len(),
            i <= a@.len(),
            forall|j: int| 0 <= j < i ==> a@[j] == b@[j],
        decreases a@.len() - i,
    {
        if a[i] != b[i] {
            return false;
        }
        i = i + 1;
    }
    assert(a@ =~= b@);
    true
}

/// Whether the characters of `k` spell exactly `word`.
pub fn is_word(k: &[char], word: &str) -> (r: bool)
    ensures
        r == (k@ == word@),
{
    let w = chars_of(word);
    seq_eq(k, w.as_slice())
}

// ---------------------------------------------------------------------------- prefixes

pub fn starts_with(s: &[char], p: &[char]) -> (r: bool)
    ensures
        r == p@.is_prefix_of(s@),
{
    if p.len() > s.len() {
        return false;
    }
    let mut i: usize = 0;
    while i < p.len()
        invariant
            p@.len() <= s@.len(),
            i <= p@.len(),
            forall|j: int| 0 <= j < i ==> s@[j] == p@[j],
        decreases p@.len() - i,
    {
        if s[i] != p[i] {
            assert(s@.subrange(0, p@.len() as int)[i as int] != p@[i as int]);
            return false;
        }
        i = i + 1;
    }
    assert(p@ =~= s@.subrange(0, p@.len() as int));
    true
}

pub fn ends_with(s: &[char], p: &[char]) -> (r: bool)
    ensures
        r == p@.is_suffix_of(s@),
{
    if p.len() > s.len() {
        return false;
    }
    let n = s.len();
    let off = n - p.len();
    let mut i: usize = 0;
    while i < p.len()
        invariant
            n == s@.len(),
            p@.len() <= s@.len(),
            off == s@.len() - p@.len(),
            i <= p@.len(),
            forall|j: int| 0 <= j < i ==> s@[off + j] == p@[j],
        decreases p@.len() - i,
    {
        if s[off + i] != p[i] {
            assert(s@.subrange(off as int, s@.len() as int)[i as int] != p@[i as int]);
            return false;
        }
        i = i + 1;
    }
    assert(p@ =~= s@.subrange(off as int, s@.len() as int));
    true
}

/// `needle` occurs in `s` at position `i`.
pub open spec fn occurs_at(s: Seq<char>, needle: Seq<char>, i: int) -> bool {
    0 <= i && i + needle.len() <= s.len() && s.subrange(i, i + needle.len()) == needle
}

/// `str::contains` with a string pattern.
pub open spec fn contains_seq(s: Seq<char>, needle: Seq<char>) -> bool {
    exists|i: int| occurs_at(s, needle, i)
}

fn occurs_at_exec(s: &[char], needle: &[char], i: usize) -> (r: bool)
    requires
        i + needle@.len() <= s@.len(),
    ensures
        r == occurs_at(s@, needle@, i as int),
{
    let n = s.len();
    let mut j: usize = 0;
    while j < needle.len()
        invariant
            n == s@.len(),
            i + needle@.len() <= s@.len(),
            j <= needle@.len(),
            forall|k: int| 0 <= k < j ==> s@[i + k] == needle@[k],
        decreases needle@.len() - j,
    {
        if s[i + j] != needle[j] {
            assert(s@.subrange(i as int, i + needle@.len())[j as int] != needle@[j as int]);
            return false;
        }
        j = j + 1;
    }
    assert(s@.subrange(i as int, i + needle@.len()) =~= needle@);
    true
}

pub fn contains(s: &[char], needle: &[char]) -> (r: bool)
    ensures
        r == contains_seq(s@, needle@),
{
    if needle.len() > s.len() {
        return false;
    }
    if needle.len() == 0 {
        assert(s@.subrange(0, 0) =~= needle@);
        assert(occurs_at(s@, needle@, 0));
        return true;
    }
    let n = s.len();
    let last = n - needle.len();
    let mut i: usize = 0;
    while i <= last
        invariant
            n == s@.len(),
            needle@.len() > 0,
            last + needle@.len() == s@.len(),
            i <= last + 1,
            forall|k: int| 0 <= k < i ==> !occurs_at(s@, needle@, k),
        decreases last + 1 - i,
    {
        if occurs_at_exec(s, needle, i) {
            return true;
        }
        i = i + 1;
    }
    false
}


/// Appends the characters of `tail` to `out`.
pub fn append_chars(out: &mut Vec<char>, tail: &[char])
    ensures
        final(out)@ == old(out)@ + tail@,
{
    let ghost start = out@;
    let mut i: usize = 0;
    while i < tail.len()
        invariant
            i <= tail@.len(),
            out@ =~= start + tail@.take(i as int),
        decreases tail@.len() - i,
    {
        out.push(tail[i]);
        i = i + 1;
    }
    assert(tail@.take(tail@.len() as int) =~= tail@);
}

// ---------------------------------------------------------------------------- trimming

/// How many characters at the start of `s` satisfy `p`.
pub open spec fn lead(s: Seq<char>, p: spec_fn(char) -> bool) -> nat
    decreases s.len(),
{
    if s.len() > 0 && p(s[0]) {
        1 + lead(s.drop_first(), p)
    } else {
        0
    }
}

/// How many characters at the end of `s` satisfy `p`.
pub open spec fn trail(s: Seq<char>, p: spec_fn(char) -> bool) -> nat
    decreases s.len(),
{
    if s.len() > 0 && p(s.last()) {
        1 + trail(s.drop_last(), p)
    } else {
        0
    }
}

pub open spec fn ws_pred() -> spec_fn(char) -> bool {
    |c: char| is_ws(c)
}

pub open spec fn char_pred(m: char) -> spec_fn(char) -> bool {
    |c: char| c == m
}

/// `str::trim_start_matches` with a single character.
pub open spec fn trim_start_char(s: Seq<char>, m: char) -> Seq<char> {
    s.subrange(lead(s, char_pred(m)) as int, s.len() as int)
}

/// Every character of `s` is white space (`str::trim` leaves nothing).
pub open spec fn is_blank(s: Seq<char>) -> bool {
    forall|i: int| 0 <= i < s.len() ==> is_ws(#[trigger] s[i])
}

/// `str::trim`: white space removed from both ends.
pub open spec fn trim(s: Seq<char>) -> Seq<char> {
    if lead(s, ws_pred()) >= s.len() {
        Seq::empty()
    } else {
        s.subrange(lead(s, ws_pred()) as int, s.len() - trail(s, ws_pred()))
    }
}

pub proof fn lemma_lead(s: Seq<char>, p: spec_fn(char) -> bool, i: int)
    requires
        0 <= i <= s.len(),
        forall|j: int| 0 <= j < i ==> p(#[trigger] s[j]),
        i == s.len() || !p(s[i]),
    ensures
        lead(s, p) == i,
    decreases i,
{
    if i > 0 {
        let t = s.drop_first();
        assert forall|j: int| 0 <= j < i - 1 implies p(#[trigger] t[j]) by {
            assert(t[j] == s[j + 1]);
        }
        if i - 1 < t.len() {
            assert(t[i - 1] == s[i]);
        }
        assert(p(s[0]));
        lemma_lead(t, p, i - 1);
    }
}

pub proof fn lemma_trail(s: Seq<char>, p: spec_fn(char) -> bool, k: int)
    requires
        0 <= k <= s.len(),
        forall|j: int| s.len() - k <= j < s.len() ==> p(#[trigger] s[j]),
        k == s.len() || !p(s[s.len() - 1 - k]),
    ensures
        trail(s, p) == k,
    decreases k,
{
    if k > 0 {
        let t = s.drop_last();
        assert forall|j: int| t.len() - (k - 1) <= j < t.len() implies p(#[trigger] t[j]) by {
            assert(t[j] == s[j]);
        }
        if k - 1 < t.len() {
            assert(t[t.len() - 1 - (k - 1)] == s[s.len() - 1 - k]);
        }
        assert(p(s[s.len() - 1]));
        lemma_trail(t, p, k - 1);
    }
}

/// The number of leading white-space characters.
fn lead_ws_exec(s: &[char]) -> (i: usize)
    ensures
        i == lead(s@, ws_pred()),
        i <= s@.len(),
{
    let mut i: usize = 0;
    while i < s.len() && char_is_ws(s[i])
        invariant
            i <= s@.len(),
            forall|j: int| 0 <= j < i ==> is_ws(#[trigger] s@[j]),
        decreases s@.len() - i,
    {
        i = i + 1;
    }
    proof {
        lemma_lead(s@, ws_pred(), i as int);
    }
    i
}

/// The number of trailing white-space characters.
fn trail_ws_exec(s: &[char]) -> (k: usize)
    ensures
        k == trail(s@, ws_pred()),
        k <= s@.len(),
{
    let n = s.len();
    let mut k: usize = 0;
    while k < n && char_is_ws(s[n - 1 - k])
        invariant
            n == s@.len(),
            k <= n,
            forall|j: int| n - k <= j < n ==> is_ws(#[trigger] s@[j]),
        decreases n - k,
    {
        k = k + 1;
    }
    proof {
        lemma_trail(s@, ws_pred(), k as int);
    }
    k
}

/// The number of leading copies of `m`.
fn lead_char_exec(s: &[char], m: char) -> (i: usize)
    ensures
        i == lead(s@, char_pred(m)),
        i <= s@.len(),
{
    let mut i: usize = 0;
    while i < s.len() && s[i] == m
        invariant
            i <= s@.len(),
            forall|j: int| 0 <= j < i ==> #[trigger] s@[j] == m,
        decreases s@.len() - i,
    {
        i = i + 1;
    }
    proof {
        lemma_lead(s@, char_pred(m), i as int);
    }
    i
}

/// A copy of `s[from..to]`.
pub fn slice_chars(s: &[char], from: usize, to: usize) -> (r: Vec<char>)
    requires
        from <= to <= s@.len(),
    ensures
        r@ == s@.subrange(from as int, to as int),
{
    let mut r: Vec<char> = Vec::new();
    let mut i = from;
    while i < to
        invariant
            from <= i <= to <= s@.len(),
            r@ =~= s@.subrange(from as int, i as int),
        decreases to - i,
    {
        r.push(s[i]);
        i = i + 1;
    }
    r
}

pub fn trim_chars(s: &[char]) -> (r: Vec<char>)
    ensures
        r@ == trim(s@),
{
    let a = lead_ws_exec(s);
    if a >= s.len() {
        return Vec::new();
    }
    let k = trail_ws_exec(s);
    proof {
        // A non-white character stands at `a`, so the trailing run stops after it.
        lemma_lead_stops(s@, ws_pred());
        lemma_trail_all(s@, ws_pred());
        assert(!is_ws(s@[a as int]));
        if k > s@.len() - a {
            assert(s@.len() - k <= a);
            assert(is_ws(s@[a as int]));
        }
    }
    slice_chars(s, a, s.len() - k)
}

pub fn trim_start_char_exec(s: &[char], m: char) -> (r: Vec<char>)
    ensures
        r@ == trim_start_char(s@, m),
{
    let a = lead_char_exec(s, m);
    slice_chars(s, a, s.len())
}

pub fn is_blank_exec(s: &[char]) -> (r: bool)
    ensures
        r == is_blank(s@),
{
    let mut i: usize = 0;
    while i < s.len()
        invariant
            i <= s@.len(),
            forall|j: int| 0 <= j < i ==> is_ws(#[trigger] s@[j]),
        decreases s@.len() - i,
    {
        if !char_is_ws(s[i]) {
            return false;
        }
        i = i + 1;
    }
    true
}

/// A string is blank exactly when trimming leaves nothing.
pub proof fn lemma_blank_iff_trim_empty(s: Seq<char>)
    ensures
        is_blank(s) <==> trim(s).len() == 0,
{
    let a = lead(s, ws_pred());
    if is_blank(s) {
        lemma_lead(s, ws_pred(), s.len() as int);
    } else {
        let i = choose|i: int| 0 <= i < s.len() && !is_ws(s[i]);
        if a >= s.len() {
            lemma_lead_all(s, ws_pred());
            assert(is_ws(s[i]));
        }
        lemma_lead_bounds(s, ws_pred());
        lemma_trail_bounds(s, ws_pred());
        lemma_lead_stops(s, ws_pred());
        lemma_trail_all(s, ws_pred());
        assert(!is_ws(s[a as int]));
        if s.len() - trail(s, ws_pred()) <= a {
            assert(is_ws(s[a as int]));
        }
    }
}

pub proof fn lemma_lead_bounds(s: Seq<char>, p: spec_fn(char) -> bool)
    ensures
        lead(s, p) <= s.len(),
    decreases s.len(),
{
    if s.len() > 0 && p(s[0]) {
        lemma_lead_bounds(s.drop_first(), p);
    }
}

pub proof fn lemma_trail_bounds(s: Seq<char>, p: spec_fn(char) -> bool)
    ensures
        trail(s, p) <= s.len(),
    decreases s.len(),
{
    if s.len() > 0 && p(s.last()) {
        lemma_trail_bounds(s.drop_last(), p);
    }
}

/// Everything before the end of the leading run satisfies `p`.
pub proof fn lemma_lead_all(s: Seq<char>, p: spec_fn(char) -> bool)
    ensures
        forall|j: int| 0 <= j < lead(s, p) ==> p(#[trigger] s[j]),
    decreases s.len(),
{
    lemma_lead_bounds(s, p);
    if s.len() > 0 && p(s[0]) {
        let t = s.drop_first();
        lemma_lead_all(t, p);
        assert forall|j: int| 0 <= j < lead(s, p) implies p(#[trigger] s[j]) by {
            if j > 0 {
                assert(s[j] == t[j - 1]);
            }
        }
    }
}

/// The leading run ends at a character that fails `p`, or at the end.
pub proof fn lemma_lead_stops(s: Seq<char>, p: spec_fn(char) -> bool)
    ensures
        lead(s, p) < s.len() ==> !p(s[lead(s, p) as int]),
    decreases s.len(),
{
    if s.len() > 0 && p(s[0]) {
        let t = s.drop_first();
        lemma_lead_stops(t, p);
        if lead(s, p) < s.len() {
            assert(s[lead(s, p) as int] == t[lead(t, p) as int]);
        }
    }
}

/// Everything in the trailing run satisfies `p`.
pub proof fn lemma_trail_all(s: Seq<char>, p: spec_fn(char) -> bool)
    ensures
        forall|j: int| s.len() - trail(s, p) <= j < s.len() ==> p(#[trigger] s[j]),
    decreases s.len(),
{
    if s.len() > 0 && p(s.last()) {
        let t = s.drop_last();
        lemma_trail_all(t, p);
        lemma_trail_bounds(t, p);
        assert forall|j: int| s.len() - trail(s, p) <= j < s.len() implies p(#[trigger] s[j]) by {
            if j < s.len() - 1 {
                assert(s[j] == t[j]);
            }
        }
    }
}


// ---------------------------------------------------------------------------- splitting

/// The views of a vector of character vectors.
pub open spec fn views(v: Seq<Vec<char>>) -> Seq<Seq<char>> {
    Seq::new(v.len(), |i: int| v[i]@)
}

/// `str::split` on one character: the pieces between separators, empty ones included.
pub open spec fn split(s: Seq<char>, sep: char) -> Seq<Seq<char>>
    decreases s.len(),
{
    if s.len() == 0 {
        seq![Seq::empty()]
    } else {
        let p = split(s.drop_last(), sep);
        if s.last() == sep {
            p.push(Seq::empty())
        } else {
            p.update(p.len() - 1, p.last().push(s.last()))
        }
    }
}

pub proof fn lemma_split_nonempty(s: Seq<char>, sep: char)
    ensures
        split(s, sep).len() >= 1,
    decreases s.len(),
{
    if s.len() > 0 {
        lemma_split_nonempty(s.drop_last(), sep);
    }
}

pub fn split_chars(s: &[char], sep: char) -> (r: Vec<Vec<char>>)
    ensures
        views(r@) == split(s@, sep),
{
    let mut pieces: Vec<Vec<char>> = Vec::new();
    let mut cur: Vec<char> = Vec::new();
    let mut i: usize = 0;
    assert(s@.take(0) =~= Seq::<char>::empty());
    while i < s.len()
        invariant
            i <= s@.len(),
            views(pieces@).push(cur@) =~= split(s@.take(i as int), sep),
        decreases s@.len() - i,
    {
        let c = s[i];
        let ghost before = s@.take(i as int);
        let ghost after = s@.take(i + 1);
        assert(after.drop_last() =~= before);
        assert(after.last() == c);
        proof {
            lemma_split_nonempty(before, sep);
        }
        if c == sep {
            let done = cur;
            pieces.push(done);
            cur = Vec::new();
            assert(views(pieces@).push(cur@) =~= split(before, sep).push(Seq::empty()));
        } else {
            cur.push(c);
            assert(views(pieces@).push(cur@) =~= split(before, sep).update(
                split(before, sep).len() - 1,
                split(before, sep).last().push(c),
            ));
        }
        i = i + 1;
    }
    assert(s@.take(s@.len() as int) =~= s@);
    pieces.push(cur);
    assert(views(pieces@) =~= split(s@, sep));
    pieces
}

/// Pieces joined with `sep` between each pair, as `[&str]::join` does.
pub open spec fn join(ps: Seq<Seq<char>>, sep: Seq<char>) -> Seq<char>
    decreases ps.len(),
{
    if ps.len() == 0 {
        Seq::empty()
    } else if ps.len() == 1 {
        ps[0]
    } else {
        join(ps.drop_last(), sep) + sep + ps.last()
    }
}

pub fn join_chars(ps: &Vec<Vec<char>>, sep: &[char]) -> (r: Vec<char>)
    ensures
        r@ == join(views(ps@), sep@),
{
    let mut out: Vec<char> = Vec::new();
    let mut i: usize = 0;
    while i < ps.len()
        invariant
            i <= ps@.len(),
            out@ == join(views(ps@).take(i as int), sep@),
        decreases ps@.len() - i,
    {
        let ghost before = views(ps@).take(i as int);
        let ghost after = views(ps@).take(i + 1);
        assert(after.drop_last() =~= before);
        if i > 0 {
            append_chars(&mut out, sep);
        }
        append_chars(&mut out, ps[i].as_slice());
        proof {
            if i == 0 {
                assert(after.len() == 1);
                assert(out@ =~= after[0]);
            }
        }
        i = i + 1;
    }
    assert(views(ps@).take(ps@.len() as int) =~= views(ps@));
    out
}

/// `str::split_whitespace`: the maximal runs of non-white characters.
pub open spec fn words(s: Seq<char>) -> Seq<Seq<char>>
    decreases s.len(),
{
    if s.len() == 0 {
        Seq::empty()
    } else {
        let w = words(s.drop_last());
        let c = s.last();
        if is_ws(c) {
            w
        } else if s.len() >= 2 && !is_ws(s[s.len() - 2]) && w.len() > 0 {
            w.update(w.len() - 1, w.last().push(c))
        } else {
            w.push(seq![c])
        }
    }
}

pub fn words_chars(s: &[char]) -> (r: Vec<Vec<char>>)
    ensures
        views(r@) == words(s@),
{
    let mut done: Vec<Vec<char>> = Vec::new();
    let mut cur: Vec<char> = Vec::new();
    let mut in_word = false;
    let mut i: usize = 0;
    assert(s@.take(0) =~= Seq::<char>::empty());
    while i < s.len()
        invariant
            i <= s@.len(),
            in_word == (i > 0 && !is_ws(s@[i - 1])),
            in_word ==> views(done@).push(cur@) =~= words(s@.take(i as int)),
            !in_word ==> views(done@) =~= words(s@.take(i as int)),
        decreases s@.len() - i,
    {
        let c = s[i];
        let ghost before = s@.take(i as int);
        let ghost after = s@.take(i + 1);
        assert(after.drop_last() =~= before);
        assert(after.last() == c);
        if char_is_ws(c) {
            if in_word {
                let w = cur;
                done.push(w);
                cur = Vec::new();
            }
            in_word = false;
        } else {
            if in_word {
                assert(before[i - 1] == after[i - 1]);
                cur.push(c);
                assert(views(done@).push(cur@) =~= words(before).update(
                    words(before).len() - 1,
                    words(before).last().push(c),
                ));
            } else {
                if i > 0 {
                    assert(before[i - 1] == after[i - 1]);
                }
                cur = Vec::new();
                cur.push(c);
                assert(views(done@).push(cur@) =~= words(before).push(seq![c]));
            }
            in_word = true;
        }
        i = i + 1;
    }
    assert(s@.take(s@.len() as int) =~= s@);
    if in_word {
        done.push(cur);
    }
    assert(views(done@) =~= words(s@));
    done
}

/// `str::strip_suffix('\r')`, or the line itself.
pub open spec fn strip_cr(s: Seq<char>) -> Seq<char> {
    if s.len() > 0 && s.last() == '\r' {
        s.drop_last()
    } else {
        s
    }
}

/// `str::lines`: split at `'\n'`, a `'\r'` before each `'\n'` removed, and no empty line after
/// a final `'\n'`.
pub open spec fn lines(s: Seq<char>) -> Seq<Seq<char>> {
    let p = split(s, '\n');
    let body = Seq::new((p.len() - 1) as nat, |i: int| strip_cr(p[i]));
    if p.last().len() == 0 {
        body
    } else {
        body.push(p.last())
    }
}

pub fn lines_chars(s: &[char]) -> (r: Vec<Vec<char>>)
    ensures
        views(r@) == lines(s@),
{
    let pieces = split_chars(s, '\n');
    proof {
        lemma_split_nonempty(s@, '\n');
    }
    let n = pieces.len();
    let mut out: Vec<Vec<char>> = Vec::new();
    let mut i: usize = 0;
    while i + 1 < n
        invariant
            n == pieces@.len(),
            n >= 1,
            views(pieces@) == split(s@, '\n'),
            i <= n - 1,
            views(out@) =~= Seq::new(i as nat, |j: int| strip_cr(split(s@, '\n')[j])),
        decreases n - i,
    {
        let piece = &pieces[i];
        let m = piece.len();
        let line = if m > 0 && piece[m - 1] == '\r' {
            slice_chars(piece.as_slice(), 0, m - 1)
        } else {
            slice_chars(piece.as_slice(), 0, m)
        };
        assert(views(pieces@)[i as int] == piece@);
        assert(line@ =~= strip_cr(piece@));
        let ghost prev = views(out@);
        out.push(line);
        assert(views(out@) =~= prev.push(strip_cr(split(s@, '\n')[i as int])));
        i = i + 1;
    }
    let last = &pieces[n - 1];
    assert(views(pieces@)[n - 1] == last@);
    if last.len() > 0 {
        let copy = slice_chars(last.as_slice(), 0, last.len());
        assert(copy@ =~= last@);
        out.push(copy);
    }
    assert(views(out@) =~= lines(s@));
    out
}


// ---------------------------------------------------------------------------- numbers

/// The value of a run of ASCII digits.
pub open spec fn digits_value(s: Seq<char>) -> nat
    decreases s.len(),
{
    if s.len() == 0 {
        0
    } else {
        digits_value(s.drop_last()) * 10 + ((s.last() as u32) - ('0' as u32)) as nat
    }
}

pub open spec fn all_digits(s: Seq<char>) -> bool {
    forall|i: int| 0 <= i < s.len() ==> is_ascii_digit(#[trigger] s[i])
}

/// `u64::from_str`: an optional `+`, then at least one ASCII digit, and no overflow.
pub open spec fn parse_u64(s: Seq<char>) -> Option<u64> {
    let d = unsigned_digits(s);
    if d.len() > 0 && all_digits(d) && digits_value(d) <= u64::MAX {
        Some(digits_value(d) as u64)
    } else {
        None
    }
}

/// The digits of a number, past an optional leading `+`.
pub open spec fn unsigned_digits(s: Seq<char>) -> Seq<char> {
    if s.len() > 0 && s[0] == '+' {
        s.drop_first()
    } else {
        s
    }
}

proof fn lemma_digits_monotone(s: Seq<char>, i: int)
    requires
        0 <= i <= s.len(),
        all_digits(s),
    ensures
        digits_value(s.take(i)) <= digits_value(s),
    decreases s.len() - i,
{
    if i < s.len() {
        lemma_digits_monotone(s, i + 1);
        let t = s.take(i + 1);
        assert(t.drop_last() =~= s.take(i));
        assert(is_ascii_digit(s[i]));
    } else {
        assert(s.take(i) =~= s);
    }
}

pub fn parse_u64_chars(s: &[char]) -> (r: Option<u64>)
    ensures
        r == parse_u64(s@),
{
    let start: usize = if s.len() > 0 && s[0] == '+' {
        1
    } else {
        0
    };
    let ghost d = unsigned_digits(s@);
    assert(d =~= s@.subrange(start as int, s@.len() as int));
    if start >= s.len() {
        return None;
    }
    let mut value: u64 = 0;
    let mut i: usize = start;
    while i < s.len()
        invariant
            start <= i <= s@.len(),
            d == unsigned_digits(s@),
            d =~= s@.subrange(start as int, s@.len() as int),
            forall|j: int| 0 <= j < i - start ==> is_ascii_digit(#[trigger] d[j]),
            value == digits_value(d.take(i - start)),
        decreases s@.len() - i,
    {
        let c = s[i];
        if !('0' <= c && c <= '9') {
            assert(!is_ascii_digit(d[i - start]));
            assert(!all_digits(d));
            return None;
        }
        let digit = (c as u32 - '0' as u32) as u64;
        let ghost t = d.take(i - start + 1);
        assert(t.drop_last() =~= d.take(i - start));
        assert(t.last() == c);
        let bigger = value.checked_mul(10);
        match bigger {
            None => {
                proof {
                    assert(value * 10 > u64::MAX);
                    assert(digits_value(t) == value * 10 + digit);
                    if all_digits(d) {
                        lemma_digits_monotone(d, i - start + 1);
                    }
                }
                return None;
            },
            Some(b) => match b.checked_add(digit) {
                None => {
                    proof {
                        assert(digits_value(t) == b + digit);
                        if all_digits(d) {
                            lemma_digits_monotone(d, i - start + 1);
                        }
                    }
                    return None;
                },
                Some(v) => {
                    value = v;
                },
            },
        }
        i = i + 1;
    }
    assert(d.take(d.len() as int) =~= d);
    Some(value)
}

/// Decimal digits of `n`, as `u64`'s `Display` writes them.
pub open spec fn decimal(n: nat) -> Seq<char>
    decreases n,
{
    if n < 10 {
        seq![digit_char(n)]
    } else {
        decimal(n / 10).push(digit_char(n % 10))
    }
}

pub open spec fn digit_char(d: nat) -> char {
    (('0' as nat) + d) as char
}

fn push_decimal(out: &mut Vec<char>, n: u64)
    ensures
        final(out)@ == old(out)@ + decimal(n as nat),
    decreases n,
{
    if n >= 10 {
        push_decimal(out, n / 10);
    }
    let d = (n % 10) as u32 + ('0' as u32);
    let c = char_from_ascii(d);
    out.push(c);
    proof {
        if n >= 10 {
            assert(decimal(n as nat) =~= decimal((n / 10) as nat).push(digit_char((n % 10) as nat)));
        } else {
            assert(decimal(n as nat) =~= seq![digit_char(n as nat)]);
        }
    }
}

pub fn decimal_chars(n: u64) -> (r: Vec<char>)
    ensures
        r@ == decimal(n as nat),
{
    let mut out = Vec::new();
    push_decimal(&mut out, n);
    assert(out@ =~= decimal(n as nat));
    out
}


// ---------------------------------------------------------------------------- path tails

/// What follows the last character satisfying `p`: the whole of `s` when there is none.
/// `str::rsplit(..).next()`.
pub open spec fn tail_after(s: Seq<char>, p: spec_fn(char) -> bool) -> Seq<char>
    decreases s.len(),
{
    if s.len() == 0 {
        s
    } else if p(s.last()) {
        Seq::empty()
    } else {
        tail_after(s.drop_last(), p).push(s.last())
    }
}

/// Either path separator.
pub open spec fn path_sep_pred() -> spec_fn(char) -> bool {
    |c: char| c == '/' || c == '\\'
}

fn tail_after_exec(s: &[char], both: bool) -> (r: Vec<char>)
    ensures
        r@ == tail_after(s@, if both { path_sep_pred() } else { char_pred('/') }),
{
    let ghost p = if both { path_sep_pred() } else { char_pred('/') };
    let mut cur: Vec<char> = Vec::new();
    let mut i: usize = 0;
    assert(s@.take(0) =~= Seq::<char>::empty());
    while i < s.len()
        invariant
            p == (if both { path_sep_pred() } else { char_pred('/') }),
            i <= s@.len(),
            cur@ == tail_after(s@.take(i as int), p),
        decreases s@.len() - i,
    {
        let c = s[i];
        let ghost after = s@.take(i + 1);
        assert(after.drop_last() =~= s@.take(i as int));
        assert(after.last() == c);
        if c == '/' || (both && c == '\\') {
            cur = Vec::new();
            assert(cur@ =~= tail_after(after, p));
        } else {
            cur.push(c);
        }
        i = i + 1;
    }
    assert(s@.take(s@.len() as int) =~= s@);
    cur
}

/// The file name at the end of a path with either separator.
pub fn after_last_path_sep(s: &[char]) -> (r: Vec<char>)
    ensures
        r@ == tail_after(s@, path_sep_pred()),
{
    tail_after_exec(s, true)
}

/// What follows the last `'/'`.
pub fn after_last_slash(s: &[char]) -> (r: Vec<char>)
    ensures
        r@ == tail_after(s@, char_pred('/')),
{
    tail_after_exec(s, false)
}

/// What follows the last `'+'`.
pub fn tail_after_plus(s: &[char]) -> (r: Vec<char>)
    ensures
        r@ == tail_after(s@, char_pred('+')),
{
    let mut cur: Vec<char> = Vec::new();
    let mut i: usize = 0;
    assert(s@.take(0) =~= Seq::<char>::empty());
    while i < s.len()
        invariant
            i <= s@.len(),
            cur@ == tail_after(s@.take(i as int), char_pred('+')),
        decreases s@.len() - i,
    {
        let c = s[i];
        let ghost after = s@.take(i + 1);
        assert(after.drop_last() =~= s@.take(i as int));
        assert(after.last() == c);
        if c == '+' {
            cur = Vec::new();
            assert(cur@ =~= tail_after(after, char_pred('+')));
        } else {
            cur.push(c);
        }
        i = i + 1;
    }
    assert(s@.take(s@.len() as int) =~= s@);
    cur
}

/// Whether `s` contains `needle` anywhere.
pub fn has_text(s: &[char], needle: &str) -> (r: bool)
    ensures
        r == contains_seq(s@, needle@),
{
    let n = chars_of(needle);
    contains(s, n.as_slice())
}

/// A signed integer in decimal, with a leading `-` when negative.
pub open spec fn signed_decimal(i: int) -> Seq<char> {
    if i < 0 {
        seq!['-'] + decimal((-i) as nat)
    } else {
        decimal(i as nat)
    }
}

pub fn signed_decimal_chars(i: i64) -> (r: Vec<char>)
    ensures
        r@ == signed_decimal(i as int),
{
    if i < 0 {
        let m: u64 = if i == i64::MIN {
            9223372036854775808u64
        } else {
            (-i) as u64
        };
        let mut r: Vec<char> = Vec::new();
        r.push('-');
        let d = decimal_chars(m);
        append_chars(&mut r, d.as_slice());
        assert(r@ =~= seq!['-'] + d@);
        r
    } else {
        decimal_chars(i as u64)
    }
}

fn push_decimal_u128(out: &mut Vec<char>, n: u128)
    ensures
        final(out)@ == old(out)@ + decimal(n as nat),
    decreases n,
{
    if n >= 10 {
        push_decimal_u128(out, n / 10);
    }
    let d = (n % 10) as u32 + ('0' as u32);
    let c = char_from_ascii(d);
    out.push(c);
    proof {
        if n >= 10 {
            assert(decimal(n as nat) =~= decimal((n / 10) as nat).push(digit_char((n % 10) as nat)));
        } else {
            assert(decimal(n as nat) =~= seq![digit_char(n as nat)]);
        }
    }
}

pub fn decimal_chars_u128(n: u128) -> (r: Vec<char>)
    ensures
        r@ == decimal(n as nat),
{
    let mut out = Vec::new();
    push_decimal_u128(&mut out, n);
    assert(out@ =~= decimal(n as nat));
    out
}

/// `str::replace(p, "")`: every occurrence of `p`, taken left to right without overlap,
/// removed.
pub open spec fn without(s: Seq<char>, p: Seq<char>) -> Seq<char>
    decreases s.len(),
{
    if p.len() == 0 || s.len() < p.len() {
        s
    } else if p.is_prefix_of(s) {
        without(s.subrange(p.len() as int, s.len() as int), p)
    } else {
        seq![s[0]] + without(s.drop_first(), p)
    }
}

pub fn without_chars(s: &[char], p: &[char]) -> (r: Vec<char>)
    ensures
        r@ == without(s@, p@),
{
    let n = s.len();
    let m = p.len();
    let mut out: Vec<char> = Vec::new();
    if m == 0 {
        append_chars(&mut out, s);
        return out;
    }
    let mut i: usize = 0;
    assert(s@.subrange(0, n as int) =~= s@);
    while i < n
        invariant
            n == s@.len(),
            m == p@.len(),
            m > 0,
            i <= n,
            out@ + without(s@.subrange(i as int, n as int), p@) == without(s@, p@),
        decreases n - i,
    {
        let ghost rest = s@.subrange(i as int, n as int);
        if m <= n - i && occurs_at_exec(s, p, i) {
            assert(p@.is_prefix_of(rest)) by {
                assert(s@.subrange(i as int, i + m) =~= rest.subrange(0, m as int));
            }
            assert(rest.subrange(m as int, rest.len() as int) =~= s@.subrange(i + m, n as int));
            i = i + m;
        } else {
            if m <= n - i {
                assert(!p@.is_prefix_of(rest)) by {
                    if p@.is_prefix_of(rest) {
                        assert(s@.subrange(i as int, i + m) =~= rest.subrange(0, m as int));
                    }
                }
            }
            assert(rest.drop_first() =~= s@.subrange(i + 1, n as int));
            assert(rest[0] == s@[i as int]);
            let ghost before = out@;
            out.push(s[i]);
            assert(out@ + without(s@.subrange(i + 1, n as int), p@) =~= before + without(rest, p@));
            i = i + 1;
        }
    }
    assert(s@.subrange(n as int, n as int) =~= Seq::<char>::empty());
    assert(out@ + Seq::<char>::empty() =~= out@);
    out
}

} // verus!
