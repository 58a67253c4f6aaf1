//! Metric reports: each category renders its own block of exposition text,
//! and merged reports render their blocks in order, one after another.

use vstd::prelude::*;
use vstd::string::*;

verus! {

/// A report made of rendered blocks, one per metric category.
#[derive(Clone, Debug)]
pub struct Report {
    blocks: Vec<String>,
}

/// The blocks of a report, joined in order.
pub open spec fn joined(blocks: Seq<Seq<char>>) -> Seq<char>
    decreases blocks.len(),
{
    if blocks.len() == 0 {
        Seq::empty()
    } else {
        joined(blocks.drop_last()) + blocks.last()
    }
}

impl View for Report {
    type V = Seq<Seq<char>>;

    closed spec fn view(&self) -> Seq<Seq<char>> {
        self.blocks@.map_values(|b: String| b@)
    }
}

impl Report {
    /// A report with no blocks.
    pub fn empty() -> (r: Self)
        ensures
            r@ == Seq::<Seq<char>>::empty(),
    {
        let r = Report { blocks: Vec::new() };
        assert(r@ =~= Seq::<Seq<char>>::empty());
        r
    }

    /// A report of one category, rendered as `text`.
    pub fn block(text: String) -> (r: Self)
        ensures
            r@ == seq![text@],
    {
        let mut blocks: Vec<String> = Vec::new();
        blocks.push(text);
        let r = Report { blocks };
        assert(r@ =~= seq![text@]);
        r
    }

    /// This report followed by `other`: their blocks, in order.
    pub fn and_then(self, other: Report) -> (r: Self)
        ensures
            r@ == self@ + other@,
    {
        let mut blocks = self.blocks;
        let mut rest = other.blocks;
        blocks.append(&mut rest);
        let r = Report { blocks };
        assert(r@ =~= self@ + other@);
        r
    }

    /// The exposition text of the report.
    pub fn fmt_metrics(&self) -> (r: String)
        ensures
            r@ == joined(self@),
    {
        let mut out = String::new();
        let mut i: usize = 0;
        assert(self@.take(0) =~= Seq::<Seq<char>>::empty());
        while i < self.blocks.len()
            invariant
                i <= self@.len(),
                self@.len() == self.blocks@.len(),
                out@ == joined(self@.take(i as int)),
            decreases self@.len() - i,
        {
            out.append(self.blocks[i].as_str());
            proof {
                let next = self@.take(i + 1);
                assert(next.drop_last() =~= self@.take(i as int));
                assert(next.last() == self.blocks@[i as int]@);
            }
            i = i + 1;
        }
        assert(self@.take(i as int) =~= self@);
        out
    }
}

/// The text of two merged reports is the text of the first followed by the
/// text of the second: no block of either is reordered or interleaved.
pub proof fn lemma_joined_concat(a: Seq<Seq<char>>, b: Seq<Seq<char>>)
    ensures
        joined(a + b) == joined(a) + joined(b),
    decreases b.len(),
{
    if b.len() == 0 {
        assert(a + b =~= a);
        assert(joined(b) =~= Seq::<char>::empty());
        assert(joined(a) + joined(b) =~= joined(a));
    } else {
        assert((a + b).drop_last() =~= a + b.drop_last());
        lemma_joined_concat(a, b.drop_last());
        assert(joined(a) + joined(b) =~= joined(a) + joined(b.drop_last()) + b.last());
    }
}

/// Merging is associative: `(a, b)` then `c` renders as `a` then `(b, c)`.
pub proof fn lemma_and_then_associative(a: Report, b: Report, c: Report)
    ensures
        (a@ + b@) + c@ == a@ + (b@ + c@),
        joined((a@ + b@) + c@) == joined(a@ + (b@ + c@)),
        joined(a@ + b@ + c@) == joined(a@) + joined(b@) + joined(c@),
{
    assert((a@ + b@) + c@ =~= a@ + (b@ + c@));
    lemma_joined_concat(a@ + b@, c@);
    lemma_joined_concat(a@, b@);
}

} // verus!
