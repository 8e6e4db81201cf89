//! Where a new leader resumes the input after taking over.

use vstd::prelude::*;

use crate::commons::Transaction;
use crate::framing::{spec_trim, trim};

verus! {

/// The line a new leader resumes from: the more recent of the last committed
/// and the last rolled-back line (the one whose transaction has the larger
/// identifier; the rolled-back one on a tie), without surrounding white
/// space; `None` when neither log holds anything.
pub open spec fn spec_resume_line(
    commit_last: Option<Seq<char>>,
    rollback_last: Option<Seq<char>>,
    commit_id: u32,
    rollback_id: u32,
) -> Option<Seq<char>> {
    match (commit_last, rollback_last) {
        (None, None) => None,
        (Some(c), Some(r)) => Some(spec_trim(if commit_id > rollback_id { c } else { r })),
        (Some(c), None) => Some(spec_trim(c)),
        (None, Some(r)) => Some(spec_trim(r)),
    }
}

/// Views of optional texts.
pub open spec fn opt_view(s: Option<String>) -> Option<Seq<char>> {
    match s {
        Some(t) => Some(t@),
        None => None,
    }
}

/// The last processed transaction line, from the two logs' last lines.
/// When both logs hold a line, both lines have been read back as
/// transactions (`recorded`, commit first) and their identifiers decide.
pub fn resume_line(
    commit_last: Option<String>,
    rollback_last: Option<String>,
    recorded: Option<(Transaction, Transaction)>,
) -> (r: Option<String>)
    requires
        commit_last is Some && rollback_last is Some ==> recorded is Some,
    ensures
        opt_view(r) == spec_resume_line(
            opt_view(commit_last),
            opt_view(rollback_last),
            match recorded { Some(p) => p.0.id, None => 0 },
            match recorded { Some(p) => p.1.id, None => 0 },
        ),
{
    match (commit_last, rollback_last) {
        (None, None) => None,
        (Some(c), Some(r)) => {
            let (tc, tr) = recorded.unwrap();
            if tc.get_id() > tr.get_id() {
                Some(trim(c.as_str()))
            } else {
                Some(trim(r.as_str()))
            }
        },
        (Some(c), None) => Some(trim(c.as_str())),
        (None, Some(r)) => Some(trim(r.as_str())),
    }
}

/// The number of characters, newlines included, before the first line of
/// `lines` equal to `last` (all of them when there is none).
pub open spec fn spec_resume_offset(lines: Seq<Seq<char>>, last: Seq<char>) -> int
    decreases lines.len(),
{
    if lines.len() == 0 || lines[0] == last {
        0
    } else {
        lines[0].len() + 1 + spec_resume_offset(lines.drop_first(), last)
    }
}

/// Views of a list of texts.
pub open spec fn lines_view(lines: Seq<String>) -> Seq<Seq<char>> {
    lines.map_values(|l: String| l@)
}

/// The position in the input at which processing resumes: the input lines
/// (without their newlines) are skipped up to the first one equal to
/// `last`, which is processed again.
pub fn resume_offset(lines: &Vec<String>, last: &String) -> (count: usize)
    requires
        spec_resume_offset(lines_view(lines@), last@) <= usize::MAX,
    ensures
        count == spec_resume_offset(lines_view(lines@), last@),
{
    let ghost all = lines_view(lines@);
    let mut count: usize = 0;
    let mut i: usize = 0;
    let mut found = false;
    assert(all.skip(0) =~= all);
    while !found && i < lines.len()
        invariant
            all == lines_view(lines@),
            i <= lines.len(),
            spec_resume_offset(all, last@) <= usize::MAX,
            count + spec_resume_offset(all.skip(i as int), last@) == spec_resume_offset(all, last@),
            found ==> spec_resume_offset(all.skip(i as int), last@) == 0,
        decreases lines.len() - i, (if found { 0int } else { 1int }),
    {
        let ghost rest = all.skip(i as int);
        assert(rest[0] == lines@[i as int]@);
        if last.eq(&lines[i]) {
            found = true;
        } else {
            assert(rest.drop_first() =~= all.skip(i + 1));
            let len = lines[i].as_str().unicode_len();
            assert(spec_resume_offset(rest.drop_first(), last@) >= 0) by {
                lemma_offset_nonnegative(rest.drop_first(), last@);
            }
            count = count + len + 1;
            i = i + 1;
        }
    }
    if !found {
        assert(all.skip(i as int).len() == 0);
    }
    count
}

/// Offsets are never negative.
pub proof fn lemma_offset_nonnegative(lines: Seq<Seq<char>>, last: Seq<char>)
    ensures
        spec_resume_offset(lines, last) >= 0,
    decreases lines.len(),
{
    if lines.len() > 0 && lines[0] != last {
        lemma_offset_nonnegative(lines.drop_first(), last);
    }
}

/// The input text made of `lines`, each followed by a newline.
pub open spec fn joined(lines: Seq<Seq<char>>) -> Seq<char>
    decreases lines.len(),
{
    if lines.len() == 0 {
        Seq::empty()
    } else {
        lines[0].push('\n') + joined(lines.drop_first())
    }
}

/// Seeking the input text to the resume offset lands at the start of the
/// last processed line, whenever that line is in the input.
pub proof fn law_resume_lands_on_last_line(lines: Seq<Seq<char>>, last: Seq<char>, k: int)
    requires
        0 <= k < lines.len(),
        lines[k] == last,
    ensures
        0 <= spec_resume_offset(lines, last),
        spec_resume_offset(lines, last) + last.len() < joined(lines).len(),
        joined(lines).subrange(
            spec_resume_offset(lines, last),
            spec_resume_offset(lines, last) + last.len() + 1,
        ) == last.push('\n'),
    decreases k,
{
    lemma_offset_nonnegative(lines, last);
    let j = joined(lines);
    let head = lines[0].push('\n');
    assert(j == head + joined(lines.drop_first()));
    if lines[0] == last {
        assert(j.subrange(0, last.len() + 1 as int) =~= head);
    } else {
        let rest = lines.drop_first();
        law_resume_lands_on_last_line(rest, last, k - 1);
        let o = spec_resume_offset(rest, last);
        assert(j.subrange(head.len() + o, head.len() + o + last.len() + 1) =~= joined(rest).subrange(
            o,
            o + last.len() + 1,
        ));
    }
}

} // verus!
