//! The lines of a script's output: which reads count, and how they are joined.

use vstd::prelude::*;

verus! {

/// The lines that a run keeps: the reads that yielded text, in the order in
/// which they were made. A read that yielded no text (`None`) leaves no trace.
pub open spec fn decoded(reads: Seq<Option<Seq<char>>>) -> Seq<Seq<char>>
    decreases reads.len(),
{
    if reads.len() == 0 {
        Seq::empty()
    } else {
        match reads.last() {
            Some(line) => decoded(reads.drop_last()).push(line),
            None => decoded(reads.drop_last()),
        }
    }
}

/// The lines written one after the other, with one line feed between each
/// two neighbours and none before the first or after the last.
pub open spec fn joined(lines: Seq<Seq<char>>) -> Seq<char>
    decreases lines.len(),
{
    if lines.len() == 0 {
        Seq::empty()
    } else if lines.len() == 1 {
        lines[0]
    } else {
        joined(lines.drop_last()) + seq!['\n'] + lines.last()
    }
}

/// Where every read yields text, every read is kept: the kept lines are the
/// texts of the reads, one for one and in the order of the reads. The output
/// of such a run is therefore exactly what the script printed, line by line,
/// with one line feed between neighbours.
pub proof fn lemma_text_reads_are_kept(reads: Seq<Option<Seq<char>>>)
    requires
        forall|i: int| 0 <= i < reads.len() ==> reads[i] is Some,
    ensures
        decoded(reads).len() == reads.len(),
        forall|i: int| 0 <= i < reads.len() ==> reads[i] == Some(#[trigger] decoded(reads)[i]),
    decreases reads.len(),
{
    if reads.len() > 0 {
        lemma_text_reads_are_kept(reads.drop_last());
    }
}

/// Where no read yields text, and so where there is no read at all, no line
/// is kept and the output is the empty string.
pub proof fn lemma_no_text_no_output(reads: Seq<Option<Seq<char>>>)
    requires
        forall|i: int| 0 <= i < reads.len() ==> reads[i] is None,
    ensures
        decoded(reads) == Seq::<Seq<char>>::empty(),
        joined(decoded(reads)) == Seq::<char>::empty(),
    decreases reads.len(),
{
    if reads.len() > 0 {
        lemma_no_text_no_output(reads.drop_last());
    }
}

/// What `joined` gives for the first `n + 1` of the lines, from what it
/// gives for the first `n`.
proof fn lemma_joined_take_next(lines: Seq<Seq<char>>, n: int)
    requires
        0 <= n < lines.len(),
    ensures
        joined(lines.take(n + 1)) == if n == 0 {
            lines[0]
        } else {
            joined(lines.take(n)) + seq!['\n'] + lines[n]
        },
{
    let upto = lines.take(n + 1);
    assert(upto.last() == lines[n]);
    assert(upto.drop_last() =~= lines.take(n));
}

/// Joins the lines with a line feed between each two neighbours.
pub fn join_lines(lines: &Vec<String>) -> (out: String)
    ensures
        out@ == joined(lines.deep_view()),
{
    let ghost views = lines.deep_view();
    let mut out = String::new();
    let mut i: usize = 0;
    while i < lines.len()
        invariant
            i <= lines.len(),
            views == lines.deep_view(),
            views.len() == lines.len(),
            out@ == joined(views.take(i as int)),
        decreases lines.len() - i,
    {
        proof {
            lemma_joined_take_next(views, i as int);
            reveal_strlit("\n");
            assert("\n"@ =~= seq!['\n']);
        }
        if i > 0 {
            out.append("\n");
        }
        out.append(lines[i].as_str());
        i += 1;
    }
    proof {
        assert(views.take(lines.len() as int) =~= views);
    }
    out
}

} // verus!
