//! Clipboards: what can be carried across a borrow of the normal clipboard, how text is put on
//! it, and Huck's own clipboard.
//!
//! A borrow puts the dictated text on the normal clipboard for a moment, for apps that can
//! only paste from there, and then puts back exactly what was there. It is all or nothing: a
//! format that cannot be copied stops the borrow before anything is touched.

use crate::text::{char_from_ascii, push_str};
use vstd::prelude::*;

verus! {

pub const CF_BITMAP: u32 = 2;
pub const CF_METAFILEPICT: u32 = 3;
pub const CF_DIB: u32 = 8;
pub const CF_PALETTE: u32 = 9;
pub const CF_UNICODETEXT: u32 = 13;
pub const CF_ENHMETAFILE: u32 = 14;
pub const CF_DIBV5: u32 = 17;

/// How one clipboard format can be carried across a borrow.
#[derive(Debug, Clone, Copy, PartialEq, Eq, Structural)]
pub enum Carry {
    /// Plain memory, copied byte for byte.
    Memory,
    /// An enhanced metafile: a handle, carried as its bytes.
    Metafile,
    /// A handle Windows makes again by itself from another format that is kept (a bitmap from
    /// its DIB, a metafile picture from its enhanced metafile).
    Rebuilt,
    /// A handle that cannot be copied at all: owner-drawn or private data.
    Impossible,
}

pub open spec fn carry_spec(format: u32, present: Seq<u32>) -> Carry {
    let has_dib = present.contains(CF_DIB) || present.contains(CF_DIBV5);
    if format == CF_ENHMETAFILE {
        Carry::Metafile
    } else if (format == CF_BITMAP || format == CF_PALETTE) && has_dib {
        Carry::Rebuilt
    } else if format == CF_METAFILEPICT && present.contains(CF_ENHMETAFILE) {
        Carry::Rebuilt
    } else if format == CF_BITMAP || format == CF_PALETTE || format == CF_METAFILEPICT {
        Carry::Impossible
    } else if format == 0x80 || format == 0x82 || format == 0x83 || format == 0x8E || (0x300
        <= format <= 0x3FF) {
        Carry::Impossible
    } else {
        Carry::Memory
    }
}

fn has(present: &[u32], f: u32) -> (r: bool)
    ensures
        r == present@.contains(f),
{
    let mut i: usize = 0;
    while i < present.len()
        invariant
            i <= present@.len(),
            forall|j: int| 0 <= j < i ==> present@[j] != f,
        decreases present@.len() - i,
    {
        if present[i] == f {
            assert(present@[i as int] == f);
            return true;
        }
        i = i + 1;
    }
    false
}

/// How `format` travels, given every format `present` on the clipboard.
pub fn carry(format: u32, present: &[u32]) -> (r: Carry)
    ensures
        r == carry_spec(format, present@),
{
    if format == CF_ENHMETAFILE {
        return Carry::Metafile;
    }
    let has_dib = has(present, CF_DIB) || has(present, CF_DIBV5);
    if (format == CF_BITMAP || format == CF_PALETTE) && has_dib {
        Carry::Rebuilt
    } else if format == CF_METAFILEPICT && has(present, CF_ENHMETAFILE) {
        Carry::Rebuilt
    } else if format == CF_BITMAP || format == CF_PALETTE || format == CF_METAFILEPICT {
        Carry::Impossible
    } else if format == 0x80 || format == 0x82 || format == 0x83 || format == 0x8E || (0x300
        <= format && format <= 0x3FF) {
        Carry::Impossible
    } else {
        Carry::Memory
    }
}

// ---------------------------------------------------------------------------- formatting

pub open spec fn hex_digit(d: nat) -> char {
    if d < 10 {
        (('0' as nat) + d) as char
    } else {
        (('a' as nat) + d - 10) as char
    }
}

/// Lower-case hexadecimal digits of `n`, no prefix.
pub open spec fn hex(n: nat) -> Seq<char>
    decreases n,
{
    if n < 16 {
        seq![hex_digit(n)]
    } else {
        hex(n / 16).push(hex_digit(n % 16))
    }
}

fn push_hex(out: &mut Vec<char>, n: u32)
    ensures
        final(out)@ == old(out)@ + hex(n as nat),
    decreases n,
{
    if n >= 16 {
        push_hex(out, n / 16);
    }
    let d = n % 16;
    let u = if d < 10 {
        d + ('0' as u32)
    } else {
        d - 10 + ('a' as u32)
    };
    let c = char_from_ascii(u);
    out.push(c);
    proof {
        if n >= 16 {
            assert(hex(n as nat) =~= hex((n / 16) as nat).push(hex_digit((n % 16) as nat)));
        } else {
            assert(hex(n as nat) =~= seq![hex_digit(n as nat)]);
        }
    }
}

/// A format as `{:#x}` writes it: `0x` and lower-case digits.
pub open spec fn format_id(format: u32) -> Seq<char> {
    "0x"@ + hex(format as nat)
}

fn format_text(format: u32) -> (r: Vec<char>)
    ensures
        r@ == format_id(format),
{
    let mut v: Vec<char> = Vec::new();
    v.push('0');
    v.push('x');
    proof {
        reveal_strlit("0x");
    }
    let ghost start = v@;
    push_hex(&mut v, format);
    assert(v@ =~= "0x"@ + hex(format as nat));
    v
}

/// The error for a format that cannot be carried.
pub open spec fn cannot_copy_message(format: u32) -> Seq<char> {
    "clipboard format "@ + format_id(format) + " cannot be copied"@
}

/// The error for a format whose contents could not be read.
pub open spec fn unreadable_message(format: u32) -> Seq<char> {
    "clipboard format "@ + format_id(format) + " could not be read"@
}

fn format_message(format: u32, tail: &str) -> (r: String)
    ensures
        r@ == "clipboard format "@ + format_id(format) + tail@,
{
    let mut m = String::new();
    push_str(&mut m, "clipboard format ");
    let f = format_text(format);
    let fs = crate::text::string_of(f.as_slice());
    push_str(&mut m, fs.as_str());
    push_str(&mut m, tail);
    m
}

pub fn unreadable(format: u32) -> (r: String)
    ensures
        r@ == unreadable_message(format),
{
    format_message(format, " could not be read")
}

/// The plan for snapshotting a clipboard holding `formats`, in order.
pub fn snapshot_plan(formats: &[u32]) -> (r: Result<Vec<(u32, Carry)>, String>)
    ensures
        match r {
            Ok(p) => snapshot_plan_spec(formats@, formats@) == Ok::<Seq<(u32, Carry)>, Seq<char>>(p@),
            Err(e) => snapshot_plan_spec(formats@, formats@) == Err::<Seq<(u32, Carry)>, Seq<char>>(e@),
        },
{
    let mut plan: Vec<(u32, Carry)> = Vec::new();
    let mut i: usize = 0;
    while i < formats.len()
        invariant
            i <= formats@.len(),
            snapshot_plan_spec(formats@.take(i as int), formats@) == Ok::<
                Seq<(u32, Carry)>,
                Seq<char>,
            >(plan@),
        decreases formats@.len() - i,
    {
        let f = formats[i];
        let ghost after = formats@.take(i + 1);
        assert(after.drop_last() =~= formats@.take(i as int));
        assert(after.last() == f);
        match carry(f, formats) {
            Carry::Rebuilt => {},
            Carry::Impossible => {
                let e = format_message(f, " cannot be copied");
                assert(snapshot_plan_spec(after, formats@) is Err);
                proof {
                    lemma_plan_err_sticks(formats@, formats@, i as int + 1);
                }
                return Err(e);
            },
            c => {
                plan.push((f, c));
            },
        }
        i = i + 1;
    }
    assert(formats@.take(formats@.len() as int) =~= formats@);
    Ok(plan)
}

/// Which of `formats` to read for a snapshot, each with how it travels, judged against every
/// format `present`. Rebuilt formats are left to Windows; one impossible format refuses the
/// whole snapshot.
pub open spec fn snapshot_plan_spec(formats: Seq<u32>, present: Seq<u32>) -> Result<
    Seq<(u32, Carry)>,
    Seq<char>,
>
    decreases formats.len(),
{
    if formats.len() == 0 {
        Ok(Seq::empty())
    } else {
        match snapshot_plan_spec(formats.drop_last(), present) {
            Err(e) => Err(e),
            Ok(p) => {
                let f = formats.last();
                match carry_spec(f, present) {
                    Carry::Rebuilt => Ok(p),
                    Carry::Impossible => Err(cannot_copy_message(f)),
                    c => Ok(p.push((f, c))),
                }
            },
        }
    }
}

/// Once the plan over a prefix fails, the plan over every longer prefix fails the same way.
proof fn lemma_plan_err_sticks(formats: Seq<u32>, present: Seq<u32>, k: int)
    requires
        0 <= k <= formats.len(),
        snapshot_plan_spec(formats.take(k), present) is Err,
    ensures
        snapshot_plan_spec(formats, present) == snapshot_plan_spec(formats.take(k), present),
    decreases formats.len() - k,
{
    if k < formats.len() {
        let next = formats.take(k + 1);
        assert(next.drop_last() =~= formats.take(k));
        assert(formats.take(k + 1).take(k) =~= formats.take(k));
        lemma_plan_err_sticks(formats, present, k + 1);
    } else {
        assert(formats.take(k) =~= formats);
    }
}

// ---------------------------------------------------------------------------- text

/// The UTF-16 code units of one character.
pub open spec fn utf16_units(c: char) -> Seq<u16> {
    let u = c as u32;
    if u < 0x10000 {
        seq![u as u16]
    } else {
        seq![(0xD800 + (u - 0x10000) / 1024) as u16, (0xDC00 + (u - 0x10000) % 1024) as u16]
    }
}

/// Little-endian bytes of code units.
pub open spec fn le_units(units: Seq<u16>) -> Seq<u8>
    decreases units.len(),
{
    if units.len() == 0 {
        Seq::empty()
    } else {
        le_units(units.drop_last()) + seq![(units.last() % 256) as u8, (units.last() / 256) as u8]
    }
}

/// UTF-16 of a string.
pub open spec fn utf16_of(s: Seq<char>) -> Seq<u16>
    decreases s.len(),
{
    if s.len() == 0 {
        Seq::empty()
    } else {
        utf16_of(s.drop_last()) + utf16_units(s.last())
    }
}

proof fn lemma_le_units_append(a: Seq<u16>, b: Seq<u16>)
    ensures
        le_units(a + b) == le_units(a) + le_units(b),
    decreases b.len(),
{
    if b.len() == 0 {
        assert(a + b =~= a);
        assert(le_units(b) =~= Seq::<u8>::empty());
    } else {
        lemma_le_units_append(a, b.drop_last());
        assert((a + b).drop_last() =~= a + b.drop_last());
        assert((a + b).last() == b.last());
    }
}

fn push_unit(out: &mut Vec<u8>, u: u16)
    ensures
        final(out)@ == old(out)@ + le_units(seq![u]),
{
    let ghost start = out@;
    out.push((u % 256) as u8);
    out.push((u / 256) as u8);
    assert(seq![u].drop_last() =~= Seq::<u16>::empty());
    assert(le_units(Seq::<u16>::empty()) =~= Seq::<u8>::empty());
    assert(le_units(seq![u]) =~= seq![(u % 256) as u8, (u / 256) as u8]);
    assert(out@ =~= start + le_units(seq![u]));
}

/// Text as the clipboard's Unicode format wants it: UTF-16, little-endian, with a terminating
/// zero unit.
pub fn utf16z(text: &str) -> (r: Vec<u8>)
    ensures
        r@ == le_units(utf16_of(text@).push(0u16)),
{
    let mut out: Vec<u8> = Vec::new();
    let ghost mut units: Seq<u16> = Seq::empty();
    for c in it: text.chars()
        invariant
            it.seq() == text@,
            units == utf16_of(it.seq().take(it.index() as int)),
            out@ == le_units(units),
    {
        let ghost before = it.seq().take(it.index() as int);
        let ghost after = it.seq().take(it.index() + 1);
        assert(after.drop_last() =~= before);
        let u = c as u32;
        if u < 0x10000 {
            push_unit(&mut out, u as u16);
            proof {
                lemma_le_units_append(units, seq![u as u16]);
                units = units + seq![u as u16];
            }
        } else {
            let v = u - 0x10000;
            let hi = (0xD800 + v / 1024) as u16;
            let lo = (0xDC00 + v % 1024) as u16;
            push_unit(&mut out, hi);
            proof {
                lemma_le_units_append(units, seq![hi]);
            }
            push_unit(&mut out, lo);
            proof {
                lemma_le_units_append(units + seq![hi], seq![lo]);
                assert(seq![hi] + seq![lo] =~= seq![hi, lo]);
                assert(units + seq![hi] + seq![lo] =~= units + seq![hi, lo]);
                units = units + seq![hi, lo];
            }
        }
        assert(units == utf16_of(after));
    }
    assert(text@.take(text@.len() as int) =~= text@);
    push_unit(&mut out, 0u16);
    proof {
        lemma_le_units_append(units, seq![0u16]);
        assert(units + seq![0u16] =~= units.push(0u16));
    }
    out
}

// ---------------------------------------------------------------------------- Huck's clipboard

/// Huck's own clipboard where the system has no named clipboards: a slot in the running
/// program, never a file.
#[derive(Debug, Clone, PartialEq, Eq)]
pub struct HeldText {
    slot: Option<String>,
}

impl View for HeldText {
    type V = Option<Seq<char>>;

    closed spec fn view(&self) -> Option<Seq<char>> {
        match self.slot {
            Some(s) => Some(s@),
            None => None,
        }
    }
}

impl HeldText {
    pub fn new() -> (h: Self)
        ensures
            h@ is None,
    {
        HeldText { slot: None }
    }

    /// Hold `text`. Always accepted.
    pub fn write(&mut self, text: &str) -> (r: Result<(), String>)
        ensures
            final(self)@ == Some(text@),
            r is Ok,
    {
        let mut s = String::new();
        push_str(&mut s, text);
        self.slot = Some(s);
        Ok(())
    }

    pub fn clear(&mut self)
        ensures
            final(self)@ is None,
    {
        self.slot = None;
    }

    /// What is held, if anything.
    pub fn read(&self) -> (r: Option<String>)
        ensures
            match r {
                Some(s) => self@ == Some(s@),
                None => self@ is None,
            },
    {
        match &self.slot {
            Some(s) => {
                let mut c = String::new();
                push_str(&mut c, s.as_str());
                Some(c)
            },
            None => None,
        }
    }
}

/// The answer of a write to a clipboard that can refuse: `accepted` is what the clipboard said.
pub fn write_answer(accepted: bool) -> (r: Result<(), String>)
    ensures
        accepted ==> r is Ok,
        !accepted ==> (r matches Err(m) && m@ == "Huck's clipboard refused the text"@),
{
    if accepted {
        Ok(())
    } else {
        Err("Huck's clipboard refused the text".to_owned())
    }
}

/// Whether a borrowed clipboard is put back: only while it still holds the borrowed text.
/// Anything copied in the meantime wins.
pub fn give_back_needed(sequence_now: u32, ours: u32) -> (r: bool)
    ensures
        r == (sequence_now == ours),
{
    sequence_now == ours
}

/// Everything that was on the normal clipboard before a borrow, each format with its bytes,
/// and the clipboard's change count once the borrowed text was on it.
pub struct Borrowed {
    items: Vec<(u32, Vec<u8>)>,
    ours: u32,
}

impl Borrowed {
    pub closed spec fn items_spec(self) -> Seq<(u32, Vec<u8>)> {
        self.items@
    }

    pub closed spec fn ours_spec(self) -> u32 {
        self.ours
    }

    pub fn new(items: Vec<(u32, Vec<u8>)>, ours: u32) -> (b: Self)
        ensures
            b.items_spec() == items@,
            b.ours_spec() == ours,
    {
        Borrowed { items, ours }
    }

    /// What goes back, in the order it was read.
    pub fn items(&self) -> (r: &Vec<(u32, Vec<u8>)>)
        ensures
            r@ == self.items_spec(),
    {
        &self.items
    }

    /// Put back only if nothing newer was copied since the borrow.
    pub fn needs_restore(&self, sequence_now: u32) -> (r: bool)
        ensures
            r == (sequence_now == self.ours_spec()),
    {
        give_back_needed(sequence_now, self.ours)
    }
}

/// Every format is put back, whatever happens to the others; the whole succeeds only if each
/// did.
pub fn all_went_back(results: &[bool]) -> (r: bool)
    ensures
        r == forall|i: int| 0 <= i < results@.len() ==> results@[i],
{
    let mut ok = true;
    let mut i: usize = 0;
    while i < results.len()
        invariant
            i <= results@.len(),
            ok == forall|j: int| 0 <= j < i ==> results@[j],
        decreases results@.len() - i,
    {
        ok = results[i] && ok;
        i = i + 1;
    }
    ok
}

proof fn lemma_le_units_len(u: Seq<u16>)
    ensures
        le_units(u).len() == 2 * u.len(),
    decreases u.len(),
{
    if u.len() > 0 {
        lemma_le_units_len(u.drop_last());
    }
}

/// Text goes on the clipboard as whole UTF-16 units, ending with a zero unit.
pub proof fn law_text_goes_on_nul_terminated(text: Seq<char>)
    ensures
        ({
            let b = le_units(utf16_of(text).push(0u16));
            &&& b.len() == 2 * utf16_of(text).len() + 2
            &&& b[b.len() - 2] == 0u8
            &&& b[b.len() - 1] == 0u8
        }),
{
    let u = utf16_of(text).push(0u16);
    lemma_le_units_len(u.drop_last());
    assert(u.drop_last() =~= utf16_of(text));
}

} // verus!
