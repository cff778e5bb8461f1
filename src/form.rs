use crate::screen::{EntityKind, field_optional, required_fields};
use crate::text::{is_blank, opt_text, pop_char, push_char};
use vstd::prelude::*;

verus! {

/// What field `i` of a create form of `kind`, entered as `v`, submits:
/// nothing for an optional field left empty, else the text as typed.
pub open spec fn payload_field(kind: EntityKind, i: int, v: Seq<char>) -> Option<Seq<char>> {
    if field_optional(kind, i) && v.len() == 0 {
        None
    } else {
        Some(v)
    }
}

/// Whether confirming a field while `collected` fields are already held
/// completes a create form of `kind`.
pub open spec fn completes_form(kind: EntityKind, collected: nat) -> bool {
    collected + 1 == required_fields(kind)
}

/// Number of create calls set off by `k` confirmations made one after the
/// other on a fresh form of `kind`: the confirmation made with `i` fields
/// already held submits exactly when `completes_form(kind, i)`.
pub open spec fn submissions(kind: EntityKind, k: nat) -> nat
    decreases k,
{
    if k == 0 {
        0
    } else {
        submissions(kind, (k - 1) as nat) + if completes_form(kind, (k - 1) as nat) {
            1nat
        } else {
            0nat
        }
    }
}

proof fn lemma_no_submission_before(kind: EntityKind, k: nat)
    requires
        k < required_fields(kind),
    ensures
        submissions(kind, k) == 0,
    decreases k,
{
    if k > 0 {
        lemma_no_submission_before(kind, (k - 1) as nat);
    }
}

/// Confirming the fields of a fresh create form one by one submits it
/// exactly once when as many fields as its kind requires are confirmed,
/// and not at all when one fewer are.
pub proof fn lemma_exactly_one_submission(kind: EntityKind)
    ensures
        submissions(kind, required_fields(kind)) == 1,
        submissions(kind, (required_fields(kind) - 1) as nat) == 0,
{
    let n = required_fields(kind);
    lemma_no_submission_before(kind, (n - 1) as nat);
}

/// A create form being filled in: the kind of record, the fields confirmed
/// so far, and the text of the field being typed.
#[derive(Debug, Clone)]
pub struct FormBuffer {
    pub kind: EntityKind,
    pub collected: Vec<String>,
    pub live: String,
}

impl FormBuffer {
    /// No field confirmed and nothing typed.
    pub open spec fn is_clear(&self) -> bool {
        self.collected.len() == 0 && self.live@.len() == 0
    }

    pub fn new(kind: EntityKind) -> (r: FormBuffer)
        ensures
            r.kind == kind,
            r.is_clear(),
    {
        FormBuffer { kind, collected: Vec::new(), live: String::new() }
    }

    /// Index of the field being typed.
    pub fn cursor(&self) -> (r: usize)
        ensures
            r == self.collected.len(),
    {
        self.collected.len()
    }

    pub fn type_char(&mut self, c: char)
        ensures
            final(self).kind == old(self).kind,
            final(self).collected == old(self).collected,
            final(self).live@ == old(self).live@.push(c),
    {
        push_char(&mut self.live, c);
    }

    pub fn backspace(&mut self)
        ensures
            final(self).kind == old(self).kind,
            final(self).collected == old(self).collected,
            final(self).live@ == (if old(self).live@.len() == 0 {
                old(self).live@
            } else {
                old(self).live@.drop_last()
            }),
    {
        pop_char(&mut self.live);
    }

    /// Moves the typed text, verbatim, into the confirmed fields. Returns
    /// whether the form now holds all the fields its kind requires.
    pub fn confirm_field(&mut self) -> (r: bool)
        requires
            old(self).collected.len() < required_fields(old(self).kind),
        ensures
            final(self).kind == old(self).kind,
            final(self).collected@ == old(self).collected@.push(old(self).live),
            final(self).live@.len() == 0,
            r == completes_form(old(self).kind, old(self).collected.len() as nat),
    {
        let typed = self.live.clone();
        self.live = String::new();
        self.collected.push(typed);
        self.collected.len() == self.kind.required_fields()
    }

    /// Discards everything typed and confirmed.
    pub fn clear(&mut self)
        ensures
            final(self).kind == old(self).kind,
            final(self).is_clear(),
    {
        self.collected = Vec::new();
        self.live = String::new();
    }

    /// What the confirmed fields submit, field by field.
    pub fn payload(&self) -> (r: Vec<Option<String>>)
        ensures
            r@.len() == self.collected.len(),
            forall|i: int|
                0 <= i < r@.len() ==> opt_text(#[trigger] r@[i]) == payload_field(
                    self.kind,
                    i,
                    self.collected@[i]@,
                ),
    {
        let mut r: Vec<Option<String>> = Vec::new();
        let mut i: usize = 0;
        while i < self.collected.len()
            invariant
                i <= self.collected.len(),
                r@.len() == i,
                forall|j: int|
                    0 <= j < i ==> opt_text(#[trigger] r@[j]) == payload_field(
                        self.kind,
                        j,
                        self.collected@[j]@,
                    ),
            decreases self.collected.len() - i,
        {
            let v = &self.collected[i];
            if self.kind.field_optional(i) && is_blank(v) {
                r.push(None);
            } else {
                r.push(Some(v.clone()));
            }
            i = i + 1;
        }
        r
    }
}

} // verus!
