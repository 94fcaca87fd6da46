//! Joining pieces of shader text.

use vstd::prelude::*;

verus! {

/// The pieces in order, with `sep` between each two neighbours.
pub open spec fn join(parts: Seq<Seq<char>>, sep: Seq<char>) -> Seq<char>
    decreases parts.len(),
{
    if parts.len() == 0 {
        Seq::empty()
    } else if parts.len() == 1 {
        parts[0]
    } else {
        join(parts.drop_last(), sep) + sep + parts.last()
    }
}

/// All the pieces in order, one after the other.
pub open spec fn concat_all(parts: Seq<Seq<char>>) -> Seq<char>
    decreases parts.len(),
{
    if parts.len() == 0 {
        Seq::empty()
    } else {
        concat_all(parts.drop_last()) + parts.last()
    }
}

/// Pushing a string onto a vector pushes its text onto the vector's texts.
pub proof fn lemma_pushed_texts(before: Vec<String>, after: Vec<String>, s: String)
    requires
        after@ == before@.push(s),
    ensures
        after.deep_view() == before.deep_view().push(s@),
{
    assert(after.deep_view() =~= before.deep_view().push(s@));
}

/// Appends one block of text to the blocks.
pub fn push_text(blocks: &mut Vec<String>, block: &str)
    ensures
        final(blocks).deep_view() == old(blocks).deep_view().push(block@),
{
    let ghost before = *blocks;
    let owned = String::from_str(block);
    blocks.push(owned);
    proof {
        lemma_pushed_texts(before, *blocks, owned);
    }
}

/// Appends one block of text to the blocks.
pub fn push_string(blocks: &mut Vec<String>, block: String)
    ensures
        final(blocks).deep_view() == old(blocks).deep_view().push(block@),
{
    let ghost before = *blocks;
    blocks.push(block);
    proof {
        lemma_pushed_texts(before, *blocks, block);
    }
}

/// Joins the strings with `sep` between each two neighbours.
pub fn join_strings(parts: &[String], sep: &str) -> (out: String)
    ensures
        out@ == join(parts.deep_view(), sep@),
{
    let mut out = String::new();
    let mut i: usize = 0;
    while i < parts.len()
        invariant
            i <= parts.len(),
            out@ == join(parts.deep_view().take(i as int), sep@),
        decreases parts.len() - i,
    {
        let ghost before = parts.deep_view().take(i as int);
        let ghost after = parts.deep_view().take(i + 1);
        if i > 0 {
            out.append(sep);
        }
        out.append(parts[i].as_str());
        proof {
            assert(after.drop_last() =~= before);
            assert(after.last() == parts[i as int]@);
            if i == 0 {
                assert(before.len() == 0);
                assert(out@ =~= join(after, sep@));
            }
        }
        i += 1;
    }
    assert(parts.deep_view().take(i as int) =~= parts.deep_view());
    out
}

/// Concatenates the strings.
pub fn concat_strings(parts: &[String]) -> (out: String)
    ensures
        out@ == concat_all(parts.deep_view()),
{
    let mut out = String::new();
    let mut i: usize = 0;
    while i < parts.len()
        invariant
            i <= parts.len(),
            out@ == concat_all(parts.deep_view().take(i as int)),
        decreases parts.len() - i,
    {
        let ghost before = parts.deep_view().take(i as int);
        let ghost after = parts.deep_view().take(i + 1);
        out.append(parts[i].as_str());
        proof {
            assert(after.drop_last() =~= before);
            assert(after.last() == parts[i as int]@);
        }
        i += 1;
    }
    assert(parts.deep_view().take(i as int) =~= parts.deep_view());
    out
}

} // verus!
