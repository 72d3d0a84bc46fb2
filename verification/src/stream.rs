//! A forward-only stream of records over the lines that a retrieval gave.

use crate::parse::{parse_line, record_of_line, ParseError, StatLine};
use crate::text::views;
use vstd::prelude::*;

verus! {

/// What one run of the indexed retrieval gave: whether it ended well, and the
/// lines that it wrote, in their order.
#[derive(Debug, Clone)]
pub struct TabixOutput {
    pub success: bool,
    pub lines: Vec<String>,
}

/// The lines of a retrieval that were not read yet. Each call of `next` takes
/// the first of them apart; the stream cannot be wound back.
#[derive(Debug)]
pub struct SummaryStatsFile {
    lines: Vec<String>,
    taken: usize,
}

/// What is said of a retrieval that did not end well.
pub open spec fn tabix_failure(filename: Seq<char>) -> Seq<char> {
    "Tabix exited with an error; does '"@ + filename + "' exist?"@
}

/// The lines of a file after its header line.
pub open spec fn after_header(lines: Seq<Seq<char>>) -> Seq<Seq<char>> {
    if lines.len() == 0 {
        lines
    } else {
        lines.skip(1)
    }
}

impl View for SummaryStatsFile {
    type V = Seq<Seq<char>>;

    /// The lines that are still to come, first one first.
    closed spec fn view(&self) -> Seq<Seq<char>> {
        if self.taken <= self.lines@.len() {
            views(self.lines@).skip(self.taken as int)
        } else {
            Seq::empty()
        }
    }
}

impl SummaryStatsFile {
    /// The stream over the output of a retrieval from `filename`.
    ///
    /// A retrieval that did not end well gives no stream, whatever it wrote:
    /// the error names the file.
    pub fn tabix(filename: &str, output: TabixOutput) -> (r: Result<SummaryStatsFile, String>)
        ensures
            output.success ==> r is Ok && r->Ok_0@ == views(output.lines@),
            !output.success ==> r is Err && r->Err_0@ == tabix_failure(filename@),
    {
        if !output.success {
            let mut message: String = "Tabix exited with an error; does '".to_owned();
            message.append(filename);
            message.append("' exist?");
            return Err(message);
        }
        let stream = SummaryStatsFile { lines: output.lines, taken: 0 };
        assert(stream@ =~= views(output.lines@));
        Ok(stream)
    }

    /// The stream over the lines of a whole file: the first line is taken for
    /// a header and left out, whatever it holds.
    pub fn read_file(lines: Vec<String>) -> (r: Result<SummaryStatsFile, String>)
        ensures
            r is Ok,
            r->Ok_0@ == after_header(views(lines@)),
    {
        let taken: usize = if lines.len() == 0 {
            0
        } else {
            1
        };
        let stream = SummaryStatsFile { lines, taken };
        assert(stream@ =~= after_header(views(lines@)));
        Ok(stream)
    }

    /// Takes the next line apart, if there is one.
    pub fn next(&mut self) -> (r: Option<Result<StatLine, ParseError>>)
        ensures
            old(self)@.len() == 0 ==> r is None && final(self)@ == old(self)@,
            old(self)@.len() > 0 ==> r is Some && final(self)@ == old(self)@.drop_first(),
            old(self)@.len() > 0 ==> match record_of_line(old(self)@[0]) {
                Ok(v) => r->Some_0 is Ok && r->Some_0->Ok_0@ == v,
                Err(e) => r->Some_0 == Err::<StatLine, ParseError>(e),
            },
    {
        if self.taken >= self.lines.len() {
            assert(self@ =~= Seq::<Seq<char>>::empty());
            return None;
        }
        let item = parse_line(self.lines[self.taken].as_str());
        proof {
            assert(old(self)@[0] == self.lines@[self.taken as int]@);
            assert(views(self.lines@).skip(self.taken as int).drop_first() =~= views(
                self.lines@,
            ).skip(self.taken + 1));
        }
        self.taken = self.taken + 1;
        Some(item)
    }

    /// The number of lines that are still to come.
    pub fn remaining(&self) -> (n: usize)
        ensures
            n == self@.len(),
    {
        if self.taken >= self.lines.len() {
            0
        } else {
            self.lines.len() - self.taken
        }
    }
}

/// A whole file gives the lines from the second one on: one line less than
/// it has, and none where it holds a header only or nothing at all.
pub proof fn lemma_after_header(lines: Seq<Seq<char>>)
    ensures
        lines.len() <= 1 ==> after_header(lines).len() == 0,
        lines.len() >= 1 ==> after_header(lines).len() == lines.len() - 1,
        forall|i: int| 0 <= i < after_header(lines).len() ==> after_header(lines)[i] == lines[i + 1],
{
}

} // verus!
