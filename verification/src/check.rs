//! The text that a snapshot check compares against its expectation.
use vstd::prelude::*;

verus! {

/// The lines joined into one text, with a newline between each two.
pub open spec fn joined_lines(lines: Seq<Seq<char>>) -> Seq<char>
    decreases lines.len(),
{
    if lines.len() == 0 {
        Seq::empty()
    } else if lines.len() == 1 {
        lines[0]
    } else {
        joined_lines(lines.drop_last()) + seq!['\n'] + lines.last()
    }
}

/// The sum of the lengths of the lines.
pub open spec fn total_len(lines: Seq<Seq<char>>) -> nat
    decreases lines.len(),
{
    if lines.len() == 0 {
        0
    } else {
        total_len(lines.drop_last()) + lines.last().len()
    }
}

/// The text of each string.
pub open spec fn texts(lines: Seq<String>) -> Seq<Seq<char>> {
    lines.map_values(|l: String| l@)
}

/// Joins the lines with a newline between each two.
pub fn join_lines(lines: &Vec<String>) -> (s: String)
    ensures
        s@ == joined_lines(texts(lines@)),
        lines@.len() > 0 ==> s@.len() == total_len(texts(lines@)) + lines@.len() - 1,
        lines@.len() == 0 ==> s@.len() == 0,
{
    let mut s = String::new();
    let ghost all = texts(lines@);
    for i in 0..lines.len()
        invariant
            all == texts(lines@),
            all.len() == lines@.len(),
            s@ == joined_lines(all.take(i as int)),
    {
        assert(all.take(i + 1).drop_last() =~= all.take(i as int));
        assert(all[i as int] == lines@[i as int]@);
        if i > 0 {
            proof {
                reveal_strlit("\n");
            }
            s.append("\n");
        }
        s.append(lines[i].as_str());
        proof {
            if i == 0 {
                assert(s@ =~= joined_lines(all.take(1)));
            } else {
                assert(all.take(i + 1).last() == all[i as int]);
                assert(s@ =~= joined_lines(all.take(i + 1)));
            }
        }
    }
    assert(all.take(lines@.len() as int) =~= all);
    proof {
        lemma_joined_lines_length(all);
    }
    s
}

/// What a snapshot of a run is checked against: the produced Q# when the
/// run succeeded, or else its rendered errors, one after another, each
/// followed by a newline except the last.
pub fn qsharp_check_text(result: Result<String, Vec<String>>) -> (s: String)
    ensures
        match result {
            Ok(q) => s@ == q@,
            Err(errors) => s@ == joined_lines(texts(errors@)),
        },
{
    match result {
        Ok(q) => q,
        Err(errors) => join_lines(&errors),
    }
}

/// Joining no lines gives the empty text, and joining one line gives that line.
pub proof fn lemma_joined_lines_base(line: Seq<char>)
    ensures
        joined_lines(Seq::<Seq<char>>::empty()) == Seq::<char>::empty(),
        joined_lines(seq![line]) == line,
{
}

/// Adding a line after one or more lines adds a newline and then that line
/// to the joined text: every earlier line is kept, in order.
pub proof fn lemma_joined_lines_push(lines: Seq<Seq<char>>, line: Seq<char>)
    requires
        lines.len() > 0,
    ensures
        joined_lines(lines.push(line)) == joined_lines(lines) + seq!['\n'] + line,
{
    assert(lines.push(line).drop_last() =~= lines);
}

/// The joined text of one or more lines is as long as all of them together,
/// plus one newline between each two.
pub proof fn lemma_joined_lines_length(lines: Seq<Seq<char>>)
    ensures
        lines.len() > 0 ==> joined_lines(lines).len() == total_len(lines) + lines.len() - 1,
        lines.len() == 0 ==> joined_lines(lines).len() == 0,
    decreases lines.len(),
{
    if lines.len() > 1 {
        lemma_joined_lines_length(lines.drop_last());
    } else if lines.len() == 1 {
        assert(lines.drop_last().len() == 0);
        assert(total_len(lines.drop_last()) == 0);
        assert(lines.last() == lines[0]);
    }
}

/// Each line appears in the joined text right after the newline that
/// follows the lines before it.
pub proof fn lemma_joined_lines_holds_each_line(lines: Seq<Seq<char>>, k: int)
    requires
        0 <= k < lines.len(),
    ensures
        ({
            let start = total_len(lines.take(k)) + k;
            &&& start + lines[k].len() <= joined_lines(lines).len()
            &&& joined_lines(lines).subrange(start, start + lines[k].len()) == lines[k]
        }),
    decreases lines.len(),
{
    lemma_joined_lines_length(lines);
    if k == lines.len() - 1 {
        assert(lines.take(k) =~= lines.drop_last());
        if lines.len() > 1 {
            lemma_joined_lines_length(lines.drop_last());
            assert(joined_lines(lines).subrange(
                total_len(lines.take(k)) + k,
                total_len(lines.take(k)) + k + lines[k].len(),
            ) =~= lines[k]);
        } else {
            assert(lines.take(0).len() == 0);
            assert(joined_lines(lines).subrange(0, lines[0].len() as int) =~= lines[0]);
        }
    } else {
        let shorter = lines.drop_last();
        lemma_joined_lines_holds_each_line(shorter, k);
        assert(shorter.take(k) =~= lines.take(k));
        assert(shorter[k] == lines[k]);
        let start = total_len(lines.take(k)) + k;
        let prefix = joined_lines(shorter);
        assert(start + lines[k].len() <= prefix.len());
        assert(prefix.subrange(start, start + lines[k].len()) == lines[k]);
        let whole = prefix + seq!['\n'] + lines.last();
        assert(joined_lines(lines) == whole);
        assert forall|i: int| 0 <= i < lines[k].len() implies #[trigger] whole.subrange(
            start,
            start + lines[k].len(),
        )[i] == lines[k][i] by {
            assert(whole[start + i] == prefix[start + i]);
            assert(prefix.subrange(start, start + lines[k].len())[i] == prefix[start + i]);
        }
        assert(whole.subrange(start, start + lines[k].len()) =~= lines[k]);
    }
}

} // verus!
