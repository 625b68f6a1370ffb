//! A prompt document: an ordered sequence of text sections that is
//! rendered by concatenation.

use vstd::prelude::*;

verus! {

/// The text of a sequence of sections laid end to end, in order.
pub open spec fn concat_all(sections: Seq<Seq<char>>) -> Seq<char>
    decreases sections.len(),
{
    if sections.len() == 0 {
        Seq::empty()
    } else {
        concat_all(sections.drop_last()) + sections.last()
    }
}

/// Concatenation of section lists is concatenation of their texts.
pub proof fn lemma_concat_all_append(a: Seq<Seq<char>>, b: Seq<Seq<char>>)
    ensures
        concat_all(a + b) == concat_all(a) + concat_all(b),
    decreases b.len(),
{
    if b.len() == 0 {
        assert(a + b =~= a);
        assert(concat_all(a) + concat_all(b) =~= concat_all(a));
    } else {
        lemma_concat_all_append(a, b.drop_last());
        assert((a + b).drop_last() =~= a + b.drop_last());
        assert((a + b).last() == b.last());
        assert(concat_all(a) + concat_all(b.drop_last()) + b.last() =~= concat_all(a) + (
        concat_all(b.drop_last()) + b.last()));
    }
}

/// Every section appears verbatim in the rendered text, at the offset given
/// by the text of the sections before it.
pub proof fn lemma_section_in_text(sections: Seq<Seq<char>>, i: int)
    requires
        0 <= i < sections.len(),
    ensures
        ({
            let start = concat_all(sections.subrange(0, i)).len() as int;
            &&& start + sections[i].len() <= concat_all(sections).len()
            &&& concat_all(sections).subrange(start, start + sections[i].len()) == sections[i]
        }),
{
    let pre = sections.subrange(0, i + 1);
    let post = sections.subrange(i + 1, sections.len() as int);
    assert(sections =~= pre + post);
    lemma_concat_all_append(pre, post);
    assert(pre.drop_last() =~= sections.subrange(0, i));
    let start = concat_all(sections.subrange(0, i)).len() as int;
    let whole = concat_all(pre) + concat_all(post);
    assert(whole.subrange(start, start + sections[i].len()) =~= sections[i]);
}

/// A prompt document under construction: its sections, in order.
pub struct PromptDocument {
    sections: Vec<String>,
}

impl View for PromptDocument {
    type V = Seq<Seq<char>>;

    closed spec fn view(&self) -> Seq<Seq<char>> {
        self.sections@.map_values(|s: String| s@)
    }
}

impl PromptDocument {
    /// A document with no sections.
    pub fn new() -> (r: PromptDocument)
        ensures
            r@ == Seq::<Seq<char>>::empty(),
    {
        let r = PromptDocument { sections: Vec::new() };
        assert(r@ =~= Seq::<Seq<char>>::empty());
        r
    }

    /// Appends one section after the existing ones.
    pub fn push_section(&mut self, section: String)
        ensures
            final(self)@ == old(self)@.push(section@),
    {
        self.sections.push(section);
        assert(self@ =~= old(self)@.push(section@));
    }

    /// The number of sections.
    pub fn len(&self) -> (r: usize)
        ensures
            r == self@.len(),
    {
        self.sections.len()
    }

    /// The full text: all sections concatenated in order.
    pub fn render(&self) -> (r: String)
        ensures
            r@ == concat_all(self@),
    {
        let mut out = String::new();
        let n = self.sections.len();
        let mut i: usize = 0;
        while i < n
            invariant
                n == self@.len(),
                i <= n,
                out@ == concat_all(self@.subrange(0, i as int)),
            decreases n - i,
        {
            let ghost before = out@;
            out.append(self.sections[i].as_str());
            proof {
                let s = self@.subrange(0, i as int + 1);
                assert(s.drop_last() =~= self@.subrange(0, i as int));
                assert(s.last() == self@[i as int]);
            }
            i = i + 1;
        }
        assert(self@.subrange(0, n as int) =~= self@);
        out
    }
}

} // verus!
