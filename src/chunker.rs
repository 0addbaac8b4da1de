//! Grouping the lines of a text into chunks of bounded size.
//!
//! Lines are never split: consecutive lines are joined with newlines into a
//! chunk while the chunk stays within the size bound, and a line that is
//! longer than the bound on its own forms a chunk by itself.
use vstd::prelude::*;
use vstd::string::StrSliceExecFns;
use vstd::string::StringExecFns;
use crate::lines::{views, join, lines_of, ends_cr, split_lines, lemma_lines_single, lemma_lines_of_join};

verus! {

broadcast use vstd::string::group_string_axioms;

/// The groups of lines laid end to end.
pub open spec fn concat(gs: Seq<Seq<Seq<char>>>) -> Seq<Seq<char>>
    decreases gs.len(),
{
    if gs.len() == 0 {
        seq![]
    } else {
        concat(gs.drop_last()) + gs.last()
    }
}

/// Consecutive lines of `ls`, grouped as the chunker groups them: each line
/// joins the group that is open when the group, a newline and the line still
/// fit in `max` characters, and otherwise opens a new group.
pub open spec fn groups(ls: Seq<Seq<char>>, max: nat) -> Seq<Seq<Seq<char>>>
    decreases ls.len(),
{
    if ls.len() == 0 {
        seq![]
    } else {
        let gs = groups(ls.drop_last(), max);
        let l = ls.last();
        if gs.len() > 0 && join(gs.last()).len() + 1 + l.len() <= max {
            gs.update(gs.len() - 1, gs.last().push(l))
        } else {
            gs.push(seq![l])
        }
    }
}

/// The groups of lines that make up the chunks of `text`.
pub open spec fn chunk_groups(text: Seq<char>, max: nat) -> Seq<Seq<Seq<char>>> {
    groups(lines_of(text), max)
}

/// The chunks of `text` for the size bound `max`.
pub open spec fn chunks_of(text: Seq<char>, max: nat) -> Seq<Seq<char>> {
    chunk_groups(text, max).map_values(|g: Seq<Seq<char>>| join(g))
}

/// Splits `text` into chunks of whole lines, each at most `max_chunk_size`
/// characters unless it is a single longer line.
pub fn chunk_text_by_lines(text: &str, max_chunk_size: usize) -> (r: Vec<String>)
    ensures
        views(r@) == chunks_of(text@, max_chunk_size as nat),
{
    let lines = split_lines(text);
    let ghost ls = views(lines@);
    let ghost max = max_chunk_size as nat;
    let mut chunks: Vec<String> = Vec::new();
    let mut current = String::new();
    let mut current_len: usize = 0;
    let mut open = false;
    let newline = "\n";
    proof {
        reveal_strlit("\n");
    }
    for i in 0..lines.len()
        invariant
            ls == views(lines@),
            max == max_chunk_size as nat,
            newline@ == seq!['\n'],
            open == (groups(ls.take(i as int), max).len() > 0),
            open == (i > 0),
            !open ==> chunks@.len() == 0,
            open ==> views(chunks@) == groups(ls.take(i as int), max).drop_last().map_values(
                |g: Seq<Seq<char>>| join(g),
            ),
            open ==> current@ == join(groups(ls.take(i as int), max).last()),
            current_len == current@.len(),
    {
        let line = &lines[i];
        let line_len = line.as_str().unicode_len();
        let ghost gs = groups(ls.take(i as int), max);
        let ghost prev = chunks@;
        proof {
            assert(ls.take(i + 1).drop_last() =~= ls.take(i as int));
            assert(ls.take(i + 1).last() == line@);
        }
        if !open {
            current = line.clone();
            current_len = line_len;
            open = true;
            proof {
                assert(groups(ls.take(i + 1), max) =~= seq![seq![line@]]);
                assert(views(chunks@) =~= seq![]);
                assert(groups(ls.take(i + 1), max).drop_last().map_values(
                    |g: Seq<Seq<char>>| join(g),
                ) =~= seq![]);
            }
        } else if line_len < max_chunk_size && current_len <= max_chunk_size - line_len - 1 {
            current.append(newline);
            current.append(line.as_str());
            current_len = current_len + 1 + line_len;
            proof {
                let g = gs.last().push(line@);
                assert(g.drop_last() =~= gs.last());
                assert(groups(ls.take(i + 1), max) == gs.update(gs.len() - 1, g));
                assert(groups(ls.take(i + 1), max).drop_last() =~= gs.drop_last());
                assert(current@ =~= join(g));
            }
        } else {
            chunks.push(current);
            current = line.clone();
            current_len = line_len;
            proof {
                assert(groups(ls.take(i + 1), max) == gs.push(seq![line@]));
                assert(groups(ls.take(i + 1), max).drop_last() =~= gs);
                assert(views(chunks@) =~= views(prev).push(join(gs.last())));
                assert(gs =~= gs.drop_last().push(gs.last()));
                assert(gs.map_values(|g: Seq<Seq<char>>| join(g)) =~= gs.drop_last().map_values(
                    |g: Seq<Seq<char>>| join(g),
                ).push(join(gs.last())));
            }
        }
    }
    proof {
        assert(ls.take(lines@.len() as int) =~= ls);
    }
    if open {
        let ghost gs = groups(ls, max);
        let ghost prev = chunks@;
        chunks.push(current);
        proof {
            assert(views(chunks@) =~= views(prev).push(join(gs.last())));
            assert(gs =~= gs.drop_last().push(gs.last()));
            assert(gs.map_values(|g: Seq<Seq<char>>| join(g)) =~= gs.drop_last().map_values(
                |g: Seq<Seq<char>>| join(g),
            ).push(join(gs.last())));
        }
    } else {
        proof {
            assert(views(chunks@) =~= chunks_of(text@, max));
        }
    }
    chunks
}

/// The shape of a grouping: every group holds a line, the groups laid end to
/// end give back the lines, and a group of two or more lines fits in `max`.
proof fn lemma_groups_shape(ls: Seq<Seq<char>>, max: nat)
    ensures
        concat(groups(ls, max)) == ls,
        forall|i: int| 0 <= i < groups(ls, max).len() ==> #[trigger] groups(ls, max)[i].len() > 0,
        forall|i: int|
            0 <= i < groups(ls, max).len() ==> join(#[trigger] groups(ls, max)[i]).len() <= max
                || groups(ls, max)[i].len() == 1,
    decreases ls.len(),
{
    if ls.len() > 0 {
        let front = ls.drop_last();
        lemma_groups_shape(front, max);
        let gs = groups(front, max);
        let l = ls.last();
        if gs.len() > 0 && join(gs.last()).len() + 1 + l.len() <= max {
            let g = gs.last().push(l);
            let ns = gs.update(gs.len() - 1, g);
            assert(g.drop_last() =~= gs.last());
            assert(ns.drop_last() =~= gs.drop_last());
            assert(gs.drop_last().push(gs.last()) =~= gs);
            assert(concat(gs) == concat(gs.drop_last()) + gs.last());
            assert(concat(ns) =~= concat(gs) + seq![l]);
            assert(concat(gs) + seq![l] =~= front.push(l));
        } else {
            let ns = gs.push(seq![l]);
            assert(ns.drop_last() =~= gs);
            assert(concat(ns) =~= front.push(l));
        }
        assert(front.push(l) =~= ls);
    }
}

/// Joining two non-empty runs of lines puts one newline between them.
proof fn lemma_join_append(a: Seq<Seq<char>>, b: Seq<Seq<char>>)
    requires
        a.len() > 0,
        b.len() > 0,
    ensures
        join(a + b) == join(a) + seq!['\n'] + join(b),
    decreases b.len(),
{
    if b.len() == 1 {
        assert((a + b).drop_last() =~= a);
    } else {
        lemma_join_append(a, b.drop_last());
        assert((a + b).drop_last() =~= a + b.drop_last());
        assert(join(a + b) =~= join(a) + seq!['\n'] + join(b));
    }
}

/// Joining the joined groups joins the lines of all groups.
proof fn lemma_join_groups(gs: Seq<Seq<Seq<char>>>)
    requires
        forall|i: int| 0 <= i < gs.len() ==> #[trigger] gs[i].len() > 0,
    ensures
        join(gs.map_values(|g: Seq<Seq<char>>| join(g))) == join(concat(gs)),
    decreases gs.len(),
{
    let js = gs.map_values(|g: Seq<Seq<char>>| join(g));
    if gs.len() == 1 {
        assert(gs.drop_last() =~= seq![]);
        assert(concat(gs) =~= gs[0]);
    } else if gs.len() > 1 {
        let front = gs.drop_last();
        assert forall|i: int| 0 <= i < front.len() implies #[trigger] front[i].len() > 0 by {
            assert(front[i] == gs[i]);
        }
        lemma_join_groups(front);
        assert(js.drop_last() =~= front.map_values(|g: Seq<Seq<char>>| join(g)));
        lemma_join_append(concat(front), gs.last());
    }
}

/// Chunking is a pure function of the text and the size bound: running it
/// again on the same inputs gives the same chunks.
pub proof fn lemma_chunking_deterministic(a: Seq<char>, b: Seq<char>, max: nat)
    requires
        a == b,
    ensures
        chunks_of(a, max) == chunks_of(b, max),
{
}

/// Joining the chunks with newlines gives a text with the same lines as
/// `text`, when its last line is not empty and no other line of it ends with
/// a carriage return.
pub proof fn lemma_chunks_rejoin(text: Seq<char>, max: nat)
    requires
        max >= 1,
        lines_of(text).len() == 0 || lines_of(text).last().len() > 0,
        forall|i: int| 0 <= i < lines_of(text).len() - 1 ==> !ends_cr(#[trigger] lines_of(text)[i]),
    ensures
        lines_of(join(chunks_of(text, max))) == lines_of(text),
{
    let ls = lines_of(text);
    lemma_groups_shape(ls, max);
    lemma_join_groups(groups(ls, max));
    lemma_lines_single(text);
    lemma_lines_of_join(ls);
}

/// Every chunk fits in `max` characters, unless its group is a single line.
pub proof fn lemma_chunk_size_bound(text: Seq<char>, max: nat)
    ensures
        forall|i: int|
            0 <= i < chunks_of(text, max).len() ==> #[trigger] chunks_of(text, max)[i].len() <= max
                || chunk_groups(text, max)[i].len() == 1,
{
    lemma_groups_shape(lines_of(text), max);
}

/// Chunk `i` joins the `i`-th group of lines, and the groups laid end to end
/// are the lines of the text in their order.
pub proof fn lemma_chunks_in_line_order(text: Seq<char>, max: nat)
    ensures
        chunks_of(text, max).len() == chunk_groups(text, max).len(),
        forall|i: int|
            0 <= i < chunks_of(text, max).len() ==> #[trigger] chunks_of(text, max)[i] == join(
                chunk_groups(text, max)[i],
            ),
        concat(chunk_groups(text, max)) == lines_of(text),
{
    lemma_groups_shape(lines_of(text), max);
}

/// The empty text has no chunks.
pub proof fn lemma_empty_text(max: nat)
    ensures
        chunks_of(seq![], max) == Seq::<Seq<char>>::empty(),
{
    assert(lines_of(seq![]) =~= Seq::<Seq<char>>::empty());
    assert(chunks_of(seq![], max) =~= Seq::<Seq<char>>::empty());
}

} // verus!
