//! Splicing scanned reference code into a prompt: the same rule for every
//! operation.

use vstd::prelude::*;
use crate::document::PromptDocument;

verus! {

/// The header line that opens the reference-code section.
pub const REFERENCE_HEADER: &'static str = "## Reference Code Context\n";

/// The delimiter placed before the reference code.
pub const REFERENCE_OPEN: &'static str = "<reference_code>\n";

/// The delimiter placed after the reference code.
pub const REFERENCE_CLOSE: &'static str = "\n</reference_code>\n\n";

/// The reference-code section that wraps the given code.
pub open spec fn reference_block(reference: Seq<char>) -> Seq<char> {
    REFERENCE_HEADER@ + (REFERENCE_OPEN@ + reference + REFERENCE_CLOSE@)
}

/// The sections that the reference code contributes: none when it is empty,
/// else one section that wraps it.
pub open spec fn reference_sections(reference: Seq<char>) -> Seq<Seq<char>> {
    if reference.len() == 0 {
        Seq::empty()
    } else {
        seq![reference_block(reference)]
    }
}

/// A section is a reference-code section when it opens with the reference
/// header.
pub open spec fn is_reference_section(section: Seq<char>) -> bool {
    REFERENCE_HEADER@.is_prefix_of(section)
}

/// The section that wraps reference code is a reference-code section.
pub proof fn lemma_reference_block_is_reference(reference: Seq<char>)
    ensures
        is_reference_section(reference_block(reference)),
{
    let block = reference_block(reference);
    assert(block.subrange(0, REFERENCE_HEADER@.len() as int) =~= REFERENCE_HEADER@);
}

/// A section whose heading differs from the reference header at some index
/// inside both is no reference-code section, whatever follows the heading.
pub proof fn lemma_heading_not_reference(heading: Seq<char>, rest: Seq<char>, k: int)
    requires
        0 <= k < heading.len(),
        k < REFERENCE_HEADER@.len(),
        heading[k] != REFERENCE_HEADER@[k],
    ensures
        !is_reference_section(heading + rest),
{
    let s = heading + rest;
    if is_reference_section(s) {
        assert(s.subrange(0, REFERENCE_HEADER@.len() as int)[k] == s[k]);
    }
}

/// The reference-code section for the given code, or `None` when the code
/// is empty.
pub fn reference_section(reference: &str) -> (r: Option<String>)
    ensures
        r is None <==> reference@.len() == 0,
        r matches Some(s) ==> s@ == reference_block(reference@),
{
    if reference.is_empty() {
        None
    } else {
        let mut s = REFERENCE_HEADER.to_owned();
        s.append(REFERENCE_OPEN);
        s.append(reference);
        s.append(REFERENCE_CLOSE);
        assert(s@ =~= reference_block(reference@));
        Some(s)
    }
}

/// Appends the reference-code section, if the code is not empty.
pub fn splice_reference(doc: &mut PromptDocument, reference: &str)
    ensures
        final(doc)@ == old(doc)@ + reference_sections(reference@),
{
    match reference_section(reference) {
        Some(s) => {
            doc.push_section(s);
            assert(doc@ =~= old(doc)@ + reference_sections(reference@));
        },
        None => {
            assert(doc@ =~= old(doc)@ + reference_sections(reference@));
        },
    }
}

} // verus!
