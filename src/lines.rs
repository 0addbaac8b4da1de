//! Splitting text into lines at line breaks: a newline, or a carriage
//! return followed by a newline.
use vstd::prelude::*;
use vstd::std_specs::iter::IteratorSpec;
use vstd::string::StrSliceExecFns;

verus! {

broadcast use vstd::string::group_string_axioms;

/// The abstract contents of a vector of strings.
pub open spec fn views(v: Seq<String>) -> Seq<Seq<char>> {
    v.map_values(|s: String| s@)
}

/// `l` ends with a carriage return.
pub open spec fn ends_cr(l: Seq<char>) -> bool {
    l.len() > 0 && l.last() == '\r'
}

/// `l` without the carriage return that ends it, if it ends with one.
pub open spec fn strip_cr(l: Seq<char>) -> Seq<char> {
    if ends_cr(l) {
        l.drop_last()
    } else {
        l
    }
}

/// Scans `s` from the left: the lines completed by a line break so far, and
/// the characters of the line that is still open.
pub open spec fn scan(s: Seq<char>) -> (Seq<Seq<char>>, Seq<char>)
    decreases s.len(),
{
    if s.len() == 0 {
        (seq![], seq![])
    } else {
        let (done, open) = scan(s.drop_last());
        if s.last() == '\n' {
            (done.push(strip_cr(open)), seq![])
        } else {
            (done, open.push(s.last()))
        }
    }
}

/// The lines of `s`: the pieces between line breaks, where a final piece
/// without a line break is a line too, and an empty final piece is not.
pub open spec fn lines_of(s: Seq<char>) -> Seq<Seq<char>> {
    let (done, open) = scan(s);
    if open.len() == 0 {
        done
    } else {
        done.push(open)
    }
}

/// The lines of `ls` joined with newline separators.
pub open spec fn join(ls: Seq<Seq<char>>) -> Seq<char>
    decreases ls.len(),
{
    if ls.len() == 0 {
        seq![]
    } else if ls.len() == 1 {
        ls[0]
    } else {
        join(ls.drop_last()) + seq!['\n'] + ls.last()
    }
}

/// Splits `text` into its lines, without the line breaks.
pub fn split_lines(text: &str) -> (r: Vec<String>)
    ensures
        views(r@) == lines_of(text@),
{
    let n = text.unicode_len();
    let mut out: Vec<String> = Vec::new();
    let mut chars = text.chars();
    let mut pos: usize = 0;
    let mut start: usize = 0;
    let mut after_cr = false;
    while pos < n
        invariant
            n == text@.len(),
            start <= pos <= n,
            after_cr == (start < pos && text@[pos - 1] == '\r'),
            chars.remaining() == text@.skip(pos as int),
            chars.obeys_prophetic_iter_laws(),
            scan(text@.take(pos as int)) == (views(out@), text@.subrange(start as int, pos as int)),
        decreases n - pos,
    {
        let c = chars.next();
        let ghost prev = out@;
        proof {
            assert(text@.take(pos as int + 1).drop_last() =~= text@.take(pos as int));
            assert(text@.take(pos as int + 1).last() == text@[pos as int]);
            assert(text@.skip(pos as int + 1) =~= text@.skip(pos as int).drop_first());
        }
        if c == Some('\n') {
            let end = if after_cr {
                pos - 1
            } else {
                pos
            };
            let line = text.substring_char(start, end).to_owned();
            let ghost piece = line@;
            let ghost from = start;
            out.push(line);
            start = pos + 1;
            after_cr = false;
            proof {
                let open = text@.subrange(from as int, pos as int);
                if open.len() > 0 {
                    assert(open.last() == text@[pos - 1]);
                    assert(open.drop_last() =~= text@.subrange(from as int, pos - 1));
                }
                assert(piece == strip_cr(open));
                assert(out@ == prev.push(out@.last()));
                assert(views(out@) =~= views(prev).push(piece));
                assert(text@.subrange(start as int, pos as int + 1) =~= seq![]);
            }
        } else {
            after_cr = c == Some('\r');
            proof {
                assert(text@.subrange(start as int, pos as int + 1) =~= text@.subrange(
                    start as int,
                    pos as int,
                ).push(text@[pos as int]));
            }
        }
        pos = pos + 1;
    }
    proof {
        assert(text@.take(n as int) =~= text@);
    }
    if start < n {
        let ghost prev = out@;
        out.push(text.substring_char(start, n).to_owned());
        proof {
            assert(views(out@) =~= views(prev).push(text@.subrange(start as int, n as int)));
        }
    }
    out
}

/// `l` holds no newline character.
pub open spec fn single_line(l: Seq<char>) -> bool {
    forall|j: int| 0 <= j < l.len() ==> l[j] != '\n'
}

/// Appending characters other than newlines extends the open line only.
pub proof fn lemma_scan_append_plain(x: Seq<char>, y: Seq<char>)
    requires
        single_line(y),
    ensures
        scan(x + y) == (scan(x).0, scan(x).1 + y),
    decreases y.len(),
{
    if y.len() == 0 {
        assert(x + y =~= x);
        assert(scan(x).1 + y =~= scan(x).1);
    } else {
        lemma_scan_append_plain(x, y.drop_last());
        assert((x + y).drop_last() =~= x + y.drop_last());
        assert(scan(x).1 + y =~= (scan(x).1 + y.drop_last()).push(y.last()));
    }
}

/// No line that the scan yields holds a newline.
pub proof fn lemma_scan_single_lines(s: Seq<char>)
    ensures
        forall|i: int| 0 <= i < scan(s).0.len() ==> single_line(#[trigger] scan(s).0[i]),
        single_line(scan(s).1),
    decreases s.len(),
{
    if s.len() > 0 {
        lemma_scan_single_lines(s.drop_last());
        let (done, open) = scan(s.drop_last());
        if s.last() == '\n' {
            assert forall|i: int| 0 <= i < scan(s).0.len() implies single_line(
                #[trigger] scan(s).0[i],
            ) by {
                if i < done.len() {
                    assert(scan(s).0[i] == done[i]);
                }
            }
        } else {
            assert(single_line(open.push(s.last())));
        }
    }
}

/// No line of a text holds a newline.
pub proof fn lemma_lines_single(s: Seq<char>)
    ensures
        forall|i: int| 0 <= i < lines_of(s).len() ==> single_line(#[trigger] lines_of(s)[i]),
{
    lemma_scan_single_lines(s);
    let (done, open) = scan(s);
    assert forall|i: int| 0 <= i < lines_of(s).len() implies single_line(
        #[trigger] lines_of(s)[i],
    ) by {
        if i < done.len() {
            assert(lines_of(s)[i] == done[i]);
        }
    }
}

/// Scanning lines joined with newlines gives back all but the last as
/// completed lines, and the last as the open line, when no line but the last
/// ends with a carriage return.
pub proof fn lemma_scan_join(ls: Seq<Seq<char>>)
    requires
        ls.len() > 0,
        forall|i: int| 0 <= i < ls.len() ==> single_line(#[trigger] ls[i]),
        forall|i: int| 0 <= i < ls.len() - 1 ==> !ends_cr(#[trigger] ls[i]),
    ensures
        scan(join(ls)) == (ls.drop_last(), ls.last()),
    decreases ls.len(),
{
    if ls.len() == 1 {
        lemma_scan_append_plain(seq![], ls[0]);
        assert(ls.drop_last() =~= seq![]);
        assert(Seq::<char>::empty() + ls[0] =~= ls[0]);
    } else {
        let front = ls.drop_last();
        assert forall|i: int| 0 <= i < front.len() implies single_line(#[trigger] front[i]) by {
            assert(front[i] == ls[i]);
        }
        assert forall|i: int| 0 <= i < front.len() - 1 implies !ends_cr(#[trigger] front[i]) by {
            assert(front[i] == ls[i]);
        }
        assert(front.last() == ls[ls.len() - 2]);
        lemma_scan_join(front);
        let x = join(front) + seq!['\n'];
        assert(x.drop_last() =~= join(front));
        assert(scan(x) == (front.drop_last().push(front.last()), Seq::<char>::empty()));
        assert(front.drop_last().push(front.last()) =~= front);
        lemma_scan_append_plain(x, ls.last());
        assert(Seq::<char>::empty() + ls.last() =~= ls.last());
    }
}

/// Lines that hold no newline, none but the last ending with a carriage
/// return and the last not empty, are the lines of their join.
pub proof fn lemma_lines_of_join(ls: Seq<Seq<char>>)
    requires
        ls.len() == 0 || ls.last().len() > 0,
        forall|i: int| 0 <= i < ls.len() ==> single_line(#[trigger] ls[i]),
        forall|i: int| 0 <= i < ls.len() - 1 ==> !ends_cr(#[trigger] ls[i]),
    ensures
        lines_of(join(ls)) == ls,
{
    if ls.len() > 0 {
        lemma_scan_join(ls);
        assert(ls.drop_last().push(ls.last()) =~= ls);
    } else {
        assert(scan(seq![]) == (Seq::<Seq<char>>::empty(), Seq::<char>::empty()));
    }
}

} // verus!
