//! The transcript model.
//!
//! A fast recognition pass paints *provisional* text, an accurate pass replaces it with
//! *settled* text, and delivery uses only settled or edited text. Text the user has edited is
//! theirs: no later recognition pass overwrites it.

use crate::text::{chars_of, is_blank, is_blank_exec, push_str};
use vstd::prelude::*;

verus! {

#[derive(Debug, Clone, Copy, PartialEq, Eq, Structural)]
pub enum Provenance {
    /// A fast pass. May still change underneath the user.
    Provisional,
    /// An accurate pass. Safe to deliver.
    Settled,
    /// The user typed this. Never replaced by recognition.
    Edited,
}

#[derive(Debug, Clone, PartialEq, Eq)]
pub struct Transcript {
    text: String,
    provenance: Provenance,
}

/// What a recognition pass does to a transcript holding `cur` with provenance `prov`: the new
/// text and provenance, and whether the pass was taken.
pub open spec fn recognition_step(
    cur: Seq<char>,
    prov: Provenance,
    text: Seq<char>,
    incoming: Provenance,
) -> (Seq<char>, Provenance, bool) {
    if prov is Edited || (prov is Settled && incoming is Provisional) {
        (cur, prov, false)
    } else {
        (text, incoming, true)
    }
}

/// Text that may be sent to a destination.
pub open spec fn deliverable(text: Seq<char>, prov: Provenance) -> bool {
    !is_blank(text) && !(prov is Provisional)
}

impl View for Transcript {
    type V = (Seq<char>, Provenance);

    closed spec fn view(&self) -> (Seq<char>, Provenance) {
        (self.text@, self.provenance)
    }
}

impl Transcript {
    pub fn empty() -> (t: Self)
        ensures
            t@.0 == Seq::<char>::empty(),
            t@.1 == Provenance::Settled,
    {
        Transcript { text: String::new(), provenance: Provenance::Settled }
    }

    fn with(text: &str, provenance: Provenance) -> (t: Self)
        ensures
            t@ == (text@, provenance),
    {
        let mut s = String::new();
        push_str(&mut s, text);
        Transcript { text: s, provenance }
    }

    pub fn settled(text: &str) -> (t: Self)
        ensures
            t@ == (text@, Provenance::Settled),
    {
        Self::with(text, Provenance::Settled)
    }

    pub fn provisional(text: &str) -> (t: Self)
        ensures
            t@ == (text@, Provenance::Provisional),
    {
        Self::with(text, Provenance::Provisional)
    }

    pub fn text(&self) -> (r: &str)
        ensures
            r@ == self@.0,
    {
        self.text.as_str()
    }

    pub fn provenance(&self) -> (r: Provenance)
        ensures
            r == self@.1,
    {
        self.provenance
    }

    /// Nothing but white space.
    pub fn is_empty(&self) -> (r: bool)
        ensures
            r == is_blank(self@.0),
    {
        let v = chars_of(self.text.as_str());
        is_blank_exec(v.as_slice())
    }

    /// True when this text is safe to deliver to a destination.
    pub fn is_deliverable(&self) -> (r: bool)
        ensures
            r == deliverable(self@.0, self@.1),
    {
        !self.is_empty() && !matches!(self.provenance, Provenance::Provisional)
    }

    /// The user typed in the composer. This latches: recognition can no longer overwrite it.
    pub fn edit(&mut self, text: &str)
        ensures
            final(self)@ == (text@, Provenance::Edited),
    {
        *self = Self::with(text, Provenance::Edited);
    }

    /// A recognition pass produced new text.
    ///
    /// Returns `false` and changes nothing when the user has already edited, or when a
    /// provisional pass arrives over settled text.
    pub fn apply_recognition(&mut self, text: &str, provenance: Provenance) -> (taken: bool)
        ensures
            (final(self)@.0, final(self)@.1, taken) == recognition_step(
                old(self)@.0,
                old(self)@.1,
                text@,
                provenance,
            ),
    {
        if matches!(self.provenance, Provenance::Edited) {
            return false;
        }
        if matches!(self.provenance, Provenance::Settled) && matches!(
            provenance,
            Provenance::Provisional
        ) {
            return false;
        }
        *self = Self::with(text, provenance);
        true
    }
}

impl Default for Transcript {
    fn default() -> (t: Self)
        ensures
            t@.0 == Seq::<char>::empty(),
            t@.1 == Provenance::Settled,
    {
        Transcript::empty()
    }
}

/// The state after a sequence of recognition passes, each a text and its provenance.
pub open spec fn after_passes(
    cur: Seq<char>,
    prov: Provenance,
    passes: Seq<(Seq<char>, Provenance)>,
) -> (Seq<char>, Provenance)
    decreases passes.len(),
{
    if passes.len() == 0 {
        (cur, prov)
    } else {
        let step = recognition_step(cur, prov, passes[0].0, passes[0].1);
        after_passes(step.0, step.1, passes.drop_first())
    }
}

/// A user edit is never overwritten: once the transcript is edited, no sequence of
/// recognition passes changes its text or its provenance.
pub proof fn law_edit_survives_recognition(
    edited: Seq<char>,
    passes: Seq<(Seq<char>, Provenance)>,
)
    ensures
        after_passes(edited, Provenance::Edited, passes) == (edited, Provenance::Edited),
    decreases passes.len(),
{
    if passes.len() > 0 {
        law_edit_survives_recognition(edited, passes.drop_first());
    }
}

/// Settled text is never replaced by a provisional pass: however many provisional passes
/// arrive, settled text stays as it is.
pub proof fn law_provisional_never_clobbers_settled(
    settled: Seq<char>,
    passes: Seq<(Seq<char>, Provenance)>,
)
    requires
        forall|i: int| 0 <= i < passes.len() ==> (#[trigger] passes[i]).1 is Provisional,
    ensures
        after_passes(settled, Provenance::Settled, passes) == (settled, Provenance::Settled),
    decreases passes.len(),
{
    if passes.len() > 0 {
        let rest = passes.drop_first();
        assert forall|i: int| 0 <= i < rest.len() implies (#[trigger] rest[i]).1 is Provisional by {
            assert(rest[i] == passes[i + 1]);
        }
        law_provisional_never_clobbers_settled(settled, rest);
    }
}

/// Provisional text is never deliverable, and settled or edited text is deliverable exactly
/// when it holds something besides white space.
pub proof fn law_only_finished_text_is_deliverable(text: Seq<char>, prov: Provenance)
    ensures
        prov is Provisional ==> !deliverable(text, prov),
        !(prov is Provisional) ==> (deliverable(text, prov) <==> !is_blank(text)),
{
}

} // verus!
