//! Captured output lines and the tagged report folded from them.

use vstd::prelude::*;
use vstd::string::StringExecFns;

verus! {

/// Which standard stream of the child a captured line arrived on.
#[derive(Clone, Copy, PartialEq, Eq, Structural, Debug)]
pub enum StreamKind {
    Stdout,
    Stderr,
}

/// One line captured from the child, before tagging and termination.
pub struct OutputLine {
    pub stream: StreamKind,
    pub text: String,
}

/// How one captured line reads in the report: a stdout line verbatim, a
/// stderr line behind the "ERROR: " tag, each closed by one line break.
pub open spec fn rendered(line: OutputLine) -> Seq<char> {
    match line.stream {
        StreamKind::Stdout => line.text@ + "\n"@,
        StreamKind::Stderr => "ERROR: "@ + line.text@ + "\n"@,
    }
}

/// The report of a whole line sequence: the renderings of the lines,
/// concatenated in arrival order.
pub open spec fn report_of(lines: Seq<OutputLine>) -> Seq<char>
    decreases lines.len(),
{
    if lines.len() == 0 {
        Seq::empty()
    } else {
        report_of(lines.drop_last()) + rendered(lines.last())
    }
}

/// Append one captured line to the report accumulator: the "ERROR: " tag
/// first for a stderr line, then the text verbatim, then one line break.
pub fn append_line(report: &mut String, line: &OutputLine)
    ensures
        final(report)@ == old(report)@ + rendered(*line),
{
    match line.stream {
        StreamKind::Stdout => {},
        StreamKind::Stderr => {
            report.append("ERROR: ");
        },
    }
    report.append(line.text.as_str());
    report.append("\n");
    proof {
        assert(report@ =~= old(report)@ + rendered(*line));
    }
}

/// Fold a sequence of captured lines into one report string.
pub fn build_report(lines: &Vec<OutputLine>) -> (report: String)
    ensures
        report@ == report_of(lines@),
{
    let mut report = String::new();
    let mut i: usize = 0;
    while i < lines.len()
        invariant
            i <= lines.len(),
            report@ == report_of(lines@.take(i as int)),
        decreases lines.len() - i,
    {
        append_line(&mut report, &lines[i]);
        proof {
            assert(lines@.take(i + 1 as int).drop_last() =~= lines@.take(i as int));
            assert(lines@.take(i + 1 as int).last() == lines@[i as int]);
        }
        i = i + 1;
    }
    proof {
        assert(lines@.take(lines@.len() as int) =~= lines@);
    }
    report
}

/// Reporting is deterministic: identical captured line sequences fold into
/// identical reports.
pub proof fn lemma_report_deterministic(a: Seq<OutputLine>, b: Seq<OutputLine>)
    requires
        a == b,
    ensures
        report_of(a) == report_of(b),
{
}

/// Every captured line appears in the report, in arrival order: the report
/// splits around line `i` into the report of the earlier lines, the
/// rendering of line `i`, and the report of the later lines — and that
/// rendering is the line's text verbatim for stdout, the text behind the
/// "ERROR: " tag for stderr, closed by exactly one line break either way.
pub proof fn lemma_line_in_report(lines: Seq<OutputLine>, i: int)
    requires
        0 <= i < lines.len(),
    ensures
        report_of(lines) == report_of(lines.take(i)) + rendered(lines[i]) + report_of(
            lines.skip(i + 1),
        ),
        lines[i].stream is Stdout ==> rendered(lines[i]) == lines[i].text@ + "\n"@,
        lines[i].stream is Stderr ==> rendered(lines[i]) == "ERROR: "@ + lines[i].text@ + "\n"@,
    decreases lines.len(),
{
    if i == lines.len() - 1 {
        assert(lines.take(i) =~= lines.drop_last());
        assert(lines.skip(i + 1) =~= Seq::<OutputLine>::empty());
        assert(report_of(lines) =~= report_of(lines.take(i)) + rendered(lines[i]) + report_of(
            lines.skip(i + 1),
        ));
    } else {
        let shorter = lines.drop_last();
        lemma_line_in_report(shorter, i);
        assert(shorter.take(i) =~= lines.take(i));
        assert(shorter.skip(i + 1) =~= lines.skip(i + 1).drop_last());
        let tail = lines.skip(i + 1);
        assert(tail.last() == lines.last());
        assert(report_of(tail) == report_of(tail.drop_last()) + rendered(tail.last()));
        assert(report_of(lines) =~= report_of(lines.take(i)) + rendered(lines[i]) + report_of(
            tail,
        ));
    }
}

} // verus!
