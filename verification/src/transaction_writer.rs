//! The commit and rollback logs: each keeps the last line it recorded, so a
//! new leader knows where processing stopped.

use vstd::prelude::*;

use crate::framing::frame;

verus! {

/// A transaction log. The file it writes to is held by the caller; the log
/// decides the exact line that goes to the file and remembers the last
/// recorded transaction.
pub struct TransactionWriter {
    last_line: Option<String>,
}

impl View for TransactionWriter {
    type V = Option<Seq<char>>;

    closed spec fn view(&self) -> Option<Seq<char>> {
        match self.last_line {
            Some(l) => Some(l@),
            None => None,
        }
    }
}

/// The line written to the file for `line`: the line itself when it already
/// ends with a newline, the line and a newline otherwise.
pub open spec fn framed_record(line: Seq<char>) -> Seq<char> {
    if line.len() > 0 && line.last() == '\n' {
        line
    } else {
        line.push('\n')
    }
}

impl TransactionWriter {
    /// A log that has recorded nothing yet.
    pub fn new() -> (w: TransactionWriter)
        ensures
            w@ is None,
    {
        TransactionWriter { last_line: None }
    }

    /// Records `line`: it becomes the last line, and the returned text is
    /// what is appended to the file.
    pub fn log(&mut self, line: String) -> (record: String)
        requires
            line@.len() > 0,
        ensures
            final(self)@ == Some(line@),
            record@ == framed_record(line@),
    {
        let n = line.as_str().unicode_len();
        let last = line.as_str().get_char(n - 1);
        self.last_line = Some(line.clone());
        if last == '\n' {
            line
        } else {
            frame(line)
        }
    }

    /// The last recorded line, if any.
    pub fn last_line(&self) -> (r: Option<String>)
        ensures
            match r {
                Some(l) => self@ == Some(l@),
                None => self@ is None,
            },
    {
        match &self.last_line {
            Some(l) => Some(l.clone()),
            None => None,
        }
    }
}

/// Reading a log right after recording a line gives that line back; the
/// record written to the file ends with exactly one added newline at most.
pub proof fn law_last_line_is_last_logged(line: Seq<char>)
    requires
        line.len() > 0,
    ensures
        framed_record(line).last() == '\n',
        framed_record(line) == line || framed_record(line) == line.push('\n'),
        framed_record(line).subrange(0, line.len() as int) == line,
{
    assert(line.push('\n').subrange(0, line.len() as int) =~= line);
    assert(line.subrange(0, line.len() as int) =~= line);
}

/// The current local time as `YYYY-MM-DD HH:MM:SS`, from `chrono::Local::now`
/// formatted with `%Y-%m-%d %H:%M:%S`. Claimed: the text holds no newline
/// (the format writes only numbers, signs and the literal `-`, ` `, `:`).
/// Which time it shows is left open: it depends on the clock and the time zone.
#[verifier::external_body]
fn local_timestamp() -> (r: String)
    ensures
        forall|i: int| 0 <= i < r@.len() ==> r@[i] != '\n',
{
    chrono::Local::now().format("%Y-%m-%d %H:%M:%S").to_string()
}

/// A file record prefixed with its time stamp: `timestamp: line`.
pub fn stamp(timestamp: String, line: &str) -> (r: String)
    ensures
        r@ == timestamp@ + seq![':', ' '] + line@,
{
    proof {
        reveal_strlit(": ");
    }
    let r = timestamp.concat(": ").concat(line);
    assert(r@ =~= timestamp@ + seq![':', ' '] + line@);
    r
}

/// `line` as written to a log file: prefixed with the current local time,
/// which holds no newline.
pub fn stamped(line: &str) -> (r: String)
    ensures
        exists|timestamp: Seq<char>|
            (forall|i: int| 0 <= i < timestamp.len() ==> timestamp[i] != '\n') && r@ == timestamp
                + seq![':', ' '] + line@,
{
    let ts = local_timestamp();
    let r = stamp(ts, line);
    assert(r@ == ts@ + seq![':', ' '] + line@);
    r
}

} // verus!
