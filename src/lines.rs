use vstd::prelude::*;

verus! {

/// The number of characters before the first line feed of `s`, or all of them.
pub open spec fn line_end(s: Seq<char>) -> nat
    decreases s.len(),
{
    if s.len() == 0 || s[0] == '\n' {
        0
    } else {
        1 + line_end(s.drop_first())
    }
}

/// The lines of `s`, split at each line feed; a line feed at the very end
/// closes the last line and opens none.
pub open spec fn spec_lines(s: Seq<char>) -> Seq<Seq<char>>
    decreases s.len(),
{
    if s.len() == 0 {
        seq![]
    } else if line_end(s) < s.len() {
        seq![s.take(line_end(s) as int)] + spec_lines(s.skip(line_end(s) + 1int))
    } else {
        seq![s]
    }
}

pub proof fn lemma_line_end_le(s: Seq<char>)
    ensures
        line_end(s) <= s.len(),
    decreases s.len(),
{
    if s.len() > 0 && s[0] != '\n' {
        lemma_line_end_le(s.drop_first());
    }
}

/// `line_end` finds the first line feed, and only that.
pub proof fn lemma_line_end_at(s: Seq<char>, i: int)
    requires
        0 <= i <= s.len(),
        forall|j: int| 0 <= j < i ==> s[j] != '\n',
        i == s.len() || s[i] == '\n',
    ensures
        line_end(s) == i,
    decreases s.len(),
{
    if s.len() > 0 && s[0] != '\n' {
        lemma_line_end_at(s.drop_first(), i - 1);
    }
}

/// There are no more lines than characters.
pub proof fn lemma_lines_len(s: Seq<char>)
    ensures
        spec_lines(s).len() <= s.len(),
    decreases s.len(),
{
    if s.len() > 0 {
        lemma_line_end_le(s);
        if line_end(s) < s.len() {
            lemma_lines_len(s.skip(line_end(s) + 1int));
        }
    }
}

/// Splitting at the first line feed, or taking a text without one whole,
/// yields the first line and leaves the lines after it.
pub proof fn lemma_split_lines(s: Seq<char>, line: Seq<char>, rest: Seq<char>)
    requires
        s.len() > 0,
        (s == line + seq!['\n'] + rest && !line.contains('\n')) || (s == line && !s.contains(
            '\n',
        ) && rest.len() == 0),
    ensures
        spec_lines(s).len() > 0,
        spec_lines(s)[0] == line,
        spec_lines(s).drop_first() == spec_lines(rest),
{
    if s == line + seq!['\n'] + rest && !line.contains('\n') {
        assert forall|j: int| 0 <= j < line.len() implies s[j] != '\n' by {
            assert(s[j] == line[j]);
            if line[j] == '\n' {
                assert(line.contains('\n'));
            }
        }
        assert(s[line.len() as int] == '\n');
        lemma_line_end_at(s, line.len() as int);
        assert(s.take(line.len() as int) =~= line);
        assert(s.skip(line.len() + 1int) =~= rest);
        assert(spec_lines(s).drop_first() =~= spec_lines(rest));
    } else {
        assert forall|j: int| 0 <= j < s.len() implies s[j] != '\n' by {
            if s[j] == '\n' {
                assert(s.contains('\n'));
            }
        }
        lemma_line_end_at(s, s.len() as int);
        assert(spec_lines(rest) =~= Seq::<Seq<char>>::empty());
        assert(spec_lines(s).drop_first() =~= spec_lines(rest));
    }
}

/// Relies on `str::split_once` with the delimiter `'\n'`: it splits at the first
/// line feed and drops it, or gives `None` when there is none.
#[verifier::external_body]
pub(crate) fn split_line<'a>(s: &'a str) -> (r: Option<(&'a str, &'a str)>)
    ensures
        match r {
            None => !s@.contains('\n'),
            Some((line, rest)) => s@ == line@ + seq!['\n'] + rest@ && !line@.contains('\n'),
        },
{
    s.split_once('\n')
}

} // verus!
