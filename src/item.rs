//! The format-item tree, when a subtree may be left out, and what it renders to.
use vstd::prelude::*;

use crate::component::Component;
use crate::error::{outcome_matches, FormatError};
use crate::render::{component_output, format_component, write_slice};
use crate::value::{Date, Time, UtcOffset};

verus! {

broadcast use vstd::std_specs::vec::group_vec_axioms, vstd::seq::group_seq_axioms;

/// A node of a format description.
#[derive(Debug, PartialEq, Eq)]
pub enum FormatItem {
    /// Bytes written as they are.
    Literal(Vec<u8>),
    /// A placeholder for part of the value.
    Component(Component),
    /// Items written one after another.
    Compound(Vec<FormatItem>),
    /// An item left out when it carries only default values.
    Optional(Box<FormatItem>),
    /// Alternatives; formatting uses only the first, parsing may use the rest.
    First(Vec<FormatItem>),
}

impl FormatItem {
    /// Whether this item carries nothing but default values, so that an
    /// enclosing optional item may leave it out.
    pub open spec fn spec_ignorable(self, time: Option<Time>, offset: Option<UtcOffset>) -> bool
        decreases self,
    {
        match self {
            FormatItem::Literal(_) => false,
            FormatItem::Component(c) => c.spec_ignorable(time, offset),
            FormatItem::Compound(items) => forall|i: int|
                0 <= i < items@.len() ==> (#[trigger] items@[i]).spec_ignorable(time, offset),
            FormatItem::Optional(item) => (*item).spec_ignorable(time, offset),
            FormatItem::First(items) => items@.len() == 0 || items@[0].spec_ignorable(time, offset),
        }
    }

    /// What this item renders to, or why it cannot be rendered. With
    /// `optional`, an ignorable item renders to nothing.
    pub open spec fn spec_output(
        self,
        optional: bool,
        date: Option<Date>,
        time: Option<Time>,
        offset: Option<UtcOffset>,
    ) -> Result<Seq<u8>, FormatError>
        decreases self, 1nat,
    {
        if optional && self.spec_ignorable(time, offset) {
            Ok(seq![])
        } else {
            match self {
                FormatItem::Literal(bytes) => Ok(bytes@),
                FormatItem::Component(c) => component_output(c, date, time, offset),
                FormatItem::Compound(items) => sequence_output(items@, date, time, offset),
                FormatItem::Optional(item) => (*item).spec_output(true, date, time, offset),
                FormatItem::First(items) => if items@.len() == 0 {
                    Ok(seq![])
                } else {
                    items@[0].spec_output(false, date, time, offset)
                },
            }
        }
    }
}

/// Every item of the sequence is ignorable.
pub open spec fn all_ignorable(items: Seq<FormatItem>, time: Option<Time>, offset: Option<UtcOffset>) -> bool {
    forall|i: int| 0 <= i < items.len() ==> (#[trigger] items[i]).spec_ignorable(time, offset)
}

/// The items rendered one after another; the first failure is the result.
pub open spec fn sequence_output(
    items: Seq<FormatItem>,
    date: Option<Date>,
    time: Option<Time>,
    offset: Option<UtcOffset>,
) -> Result<Seq<u8>, FormatError>
    decreases items, 0nat,
{
    if items.len() == 0 {
        Ok(seq![])
    } else {
        let init = items.subrange(0, items.len() - 1);
        match sequence_output(init, date, time, offset) {
            Err(e) => Err(e),
            Ok(a) => match items[items.len() - 1].spec_output(false, date, time, offset) {
                Err(e) => Err(e),
                Ok(b) => Ok(a + b),
            },
        }
    }
}

/// An error in a prefix of the sequence is the error of the whole.
pub proof fn lemma_sequence_output_prefix_err(
    items: Seq<FormatItem>,
    k: int,
    date: Option<Date>,
    time: Option<Time>,
    offset: Option<UtcOffset>,
)
    requires
        0 <= k <= items.len(),
        sequence_output(items.take(k), date, time, offset) is Err,
    ensures
        sequence_output(items, date, time, offset) == sequence_output(items.take(k), date, time, offset),
    decreases items.len() - k,
{
    if k < items.len() {
        let next = items.take(k + 1);
        assert(next.subrange(0, k) =~= items.take(k));
        lemma_sequence_output_prefix_err(items, k + 1, date, time, offset);
    } else {
        assert(items.take(k) =~= items);
    }
}

/// Whether every item of the sequence is ignorable.
pub fn sequence_fmt_ignore(
    items: &Vec<FormatItem>,
    date: Option<Date>,
    time: Option<Time>,
    offset: Option<UtcOffset>,
) -> (r: bool)
    ensures
        r == all_ignorable(items@, time, offset),
    decreases items, 0nat,
{
    let mut i: usize = 0;
    while i < items.len()
        invariant
            i <= items@.len(),
            forall|j: int| 0 <= j < i ==> (#[trigger] items@[j]).spec_ignorable(time, offset),
        decreases items@.len() - i,
    {
        if !items[i].fmt_ignore(date, time, offset) {
            return false;
        }
        i = i + 1;
    }
    true
}

/// What a sequence of items renders to: nothing when `optional` and every
/// item is ignorable, else the items one after another.
pub open spec fn sequence_spec_output(
    items: Seq<FormatItem>,
    optional: bool,
    date: Option<Date>,
    time: Option<Time>,
    offset: Option<UtcOffset>,
) -> Result<Seq<u8>, FormatError> {
    if optional && all_ignorable(items, time, offset) {
        Ok(seq![])
    } else {
        sequence_output(items, date, time, offset)
    }
}

/// Renders the items one after another, stopping at the first failure; on
/// success returns the number of bytes appended.
pub fn sequence_format_into(
    items: &Vec<FormatItem>,
    out: &mut Vec<u8>,
    optional: bool,
    date: Option<Date>,
    time: Option<Time>,
    offset: Option<UtcOffset>,
) -> (r: Result<usize, FormatError>)
    ensures
        outcome_matches(sequence_spec_output(items@, optional, date, time, offset), old(out)@, final(out)@, r),
    decreases items, 0nat,
{
    if optional && sequence_fmt_ignore(items, date, time, offset) {
        return Ok(0);
    }
    let start = out.len();
    let ghost mut acc: Seq<u8> = seq![];
    let mut i: usize = 0;
    proof {
        assert(items@.take(0) =~= Seq::<FormatItem>::empty());
    }
    while i < items.len()
        invariant
            i <= items@.len(),
            start == old(out)@.len(),
            !(optional && all_ignorable(items@, time, offset)),
            sequence_output(items@.take(i as int), date, time, offset) == Ok::<Seq<u8>, FormatError>(acc),
            out@ == old(out)@ + acc,
        decreases items@.len() - i,
    {
        let res = items[i].format_into(out, false, date, time, offset);
        proof {
            let next = items@.take(i + 1);
            assert(next.subrange(0, i as int) =~= items@.take(i as int));
            assert(next[i as int] == items@[i as int]);
        }
        match res {
            Err(e) => {
                proof {
                    let next = items@.take(i + 1);
                    assert(next.len() == i + 1);
                    assert(sequence_output(next, date, time, offset) == Err::<Seq<u8>, FormatError>(e));
                    lemma_sequence_output_prefix_err(items@, i + 1, date, time, offset);
                }
                return Err(e);
            },
            Ok(_) => {
                proof {
                    acc = acc + items@[i as int].spec_output(false, date, time, offset)->Ok_0;
                    assert(out@ =~= old(out)@ + acc);
                }
            },
        }
        i = i + 1;
    }
    proof {
        assert(items@.take(i as int) =~= items@);
    }
    Ok(out.len() - start)
}

impl FormatItem {
    /// Whether this item can be left out by an enclosing optional item.
    pub fn fmt_ignore(&self, date: Option<Date>, time: Option<Time>, offset: Option<UtcOffset>) -> (r:
        bool)
        ensures
            r == self.spec_ignorable(time, offset),
        decreases self, 1nat,
    {
        match self {
            FormatItem::Literal(_) => false,
            FormatItem::Component(c) => c.fmt_ignore(date, time, offset),
            FormatItem::Compound(items) => sequence_fmt_ignore(items, date, time, offset),
            FormatItem::Optional(item) => item.fmt_ignore(date, time, offset),
            FormatItem::First(items) => {
                if items.len() == 0 {
                    true
                } else {
                    items[0].fmt_ignore(date, time, offset)
                }
            },
        }
    }

    /// Renders this item; with `optional`, an ignorable item writes nothing.
    /// On success returns the number of bytes appended.
    pub fn format_into(
        &self,
        out: &mut Vec<u8>,
        optional: bool,
        date: Option<Date>,
        time: Option<Time>,
        offset: Option<UtcOffset>,
    ) -> (r: Result<usize, FormatError>)
        ensures
            outcome_matches(self.spec_output(optional, date, time, offset), old(out)@, final(out)@, r),
        decreases self, 1nat,
    {
        if optional && self.fmt_ignore(date, time, offset) {
            return Ok(0);
        }
        match self {
            FormatItem::Literal(bytes) => Ok(write_slice(out, bytes.as_slice())),
            FormatItem::Component(c) => format_component(out, *c, date, time, offset),
            FormatItem::Compound(items) => sequence_format_into(items, out, false, date, time, offset),
            FormatItem::Optional(item) => item.format_into(out, true, date, time, offset),
            FormatItem::First(items) => {
                if items.len() == 0 {
                    Ok(0)
                } else {
                    items[0].format_into(out, false, date, time, offset)
                }
            },
        }
    }
}

/// Formatting is deterministic: two evaluations of the same item on the same
/// values, each as `format_into` promises, return the same result and, on
/// success, append the same bytes, whatever the buffers held before.
pub proof fn lemma_format_into_deterministic(
    item: FormatItem,
    optional: bool,
    date: Option<Date>,
    time: Option<Time>,
    offset: Option<UtcOffset>,
    before1: Seq<u8>,
    after1: Seq<u8>,
    r1: Result<usize, FormatError>,
    before2: Seq<u8>,
    after2: Seq<u8>,
    r2: Result<usize, FormatError>,
)
    requires
        outcome_matches(item.spec_output(optional, date, time, offset), before1, after1, r1),
        outcome_matches(item.spec_output(optional, date, time, offset), before2, after2, r2),
    ensures
        r1 == r2,
        r1 is Ok ==> after1.subrange(before1.len() as int, after1.len() as int) == after2.subrange(
            before2.len() as int,
            after2.len() as int,
        ),
{
    match item.spec_output(optional, date, time, offset) {
        Ok(b) => {
            assert(after1.subrange(before1.len() as int, after1.len() as int) =~= b);
            assert(after2.subrange(before2.len() as int, after2.len() as int) =~= b);
        },
        Err(_) => {},
    }
}

/// A compound is ignorable exactly when every child is; so one child that is
/// not ignorable makes the compound not ignorable.
pub proof fn lemma_compound_ignorable(items: Vec<FormatItem>, time: Option<Time>, offset: Option<UtcOffset>)
    ensures
        FormatItem::Compound(items).spec_ignorable(time, offset) <==> all_ignorable(items@, time, offset),
        forall|i: int|
            0 <= i < items@.len() && !(#[trigger] items@[i]).spec_ignorable(time, offset)
                ==> !FormatItem::Compound(items).spec_ignorable(time, offset),
{
    let c = FormatItem::Compound(items);
    match c {
        FormatItem::Compound(v) => {
            assert(v == items);
            assert(c.spec_ignorable(time, offset) == all_ignorable(v@, time, offset));
        },
        _ => {},
    }
}

/// An optional item around an ignorable subtree renders to nothing, with or
/// without suppression from further out; around a subtree that is not
/// ignorable it renders exactly what the subtree renders on its own.
pub proof fn lemma_optional_suppression(
    item: Box<FormatItem>,
    optional: bool,
    date: Option<Date>,
    time: Option<Time>,
    offset: Option<UtcOffset>,
)
    ensures
        (*item).spec_ignorable(time, offset) ==> FormatItem::Optional(item).spec_output(
            optional,
            date,
            time,
            offset,
        ) == Ok::<Seq<u8>, FormatError>(seq![]),
        !(*item).spec_ignorable(time, offset) ==> FormatItem::Optional(item).spec_output(
            optional,
            date,
            time,
            offset,
        ) == (*item).spec_output(false, date, time, offset),
{
    reveal_with_fuel(FormatItem::spec_ignorable, 2);
    reveal_with_fuel(FormatItem::spec_output, 2);
}

/// A first-match item with no alternatives renders to nothing and does not
/// fail, whatever values are given.
pub proof fn lemma_first_empty(
    items: Vec<FormatItem>,
    optional: bool,
    date: Option<Date>,
    time: Option<Time>,
    offset: Option<UtcOffset>,
)
    requires
        items@.len() == 0,
    ensures
        FormatItem::First(items).spec_output(optional, date, time, offset) == Ok::<Seq<u8>, FormatError>(seq![]),
{
}

} // verus!
