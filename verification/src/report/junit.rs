use vstd::prelude::*;
use crate::report::{BudgetResult, BudgetResultModel, Report, ReportModel};
use crate::text::{decimal, push_decimal};
use crate::types::{Finding, FindingModel, Severity};

verus! {

/// What stands for one character in XML text: an entity for each of the
/// five characters that XML reserves, the character itself otherwise.
pub open spec fn escaped_char(c: char) -> Seq<char> {
    if c == '&' {
        "&amp;"@
    } else if c == '<' {
        "&lt;"@
    } else if c == '>' {
        "&gt;"@
    } else if c == '"' {
        "&quot;"@
    } else if c == '\'' {
        "&apos;"@
    } else {
        seq![c]
    }
}

/// A text with each of its characters escaped for XML.
pub open spec fn xml_escaped(s: Seq<char>) -> Seq<char>
    decreases s.len(),
{
    if s.len() == 0 {
        Seq::empty()
    } else {
        xml_escaped(s.drop_last()) + escaped_char(s.last())
    }
}

/// The lines of a list with a separator between each two.
pub open spec fn joined(lines: Seq<Seq<char>>, separator: Seq<char>) -> Seq<char>
    decreases lines.len(),
{
    if lines.len() == 0 {
        Seq::empty()
    } else if lines.len() == 1 {
        lines[0]
    } else {
        joined(lines.drop_last(), separator) + separator + lines.last()
    }
}

/// How many of the findings are of high severity.
pub open spec fn high_count(fs: Seq<FindingModel>) -> nat
    decreases fs.len(),
{
    if fs.len() == 0 {
        0
    } else {
        high_count(fs.drop_last()) + if fs.last().severity == Severity::High {
            1nat
        } else {
            0nat
        }
    }
}

/// A budget was evaluated and the run did not pass it.
pub open spec fn budget_failed(b: Option<BudgetResultModel>) -> bool {
    match b {
        Some(g) => !g.pass,
        None => false,
    }
}

/// The number of test cases in the test-result form: one for each finding
/// and one for the budget gate.
pub open spec fn junit_tests(r: ReportModel) -> nat {
    r.findings.len() + 1
}

/// The number of failures in the test-result form: the findings of high
/// severity, and the budget gate where it failed.
pub open spec fn junit_failures(r: ReportModel) -> nat {
    high_count(r.findings) + if budget_failed(r.budget) {
        1nat
    } else {
        0nat
    }
}

/// The rest of a test case that failed: the failure with its message and
/// its body, both escaped.
pub open spec fn junit_failure(message: Seq<char>, body: Seq<char>) -> Seq<char> {
    ">\n    <failure message=\""@ + xml_escaped(message) + "\">"@ + xml_escaped(body)
        + "</failure>\n  </testcase>\n"@
}

/// The test case of one finding: a failure where its severity is high.
pub open spec fn junit_finding(f: FindingModel) -> Seq<char> {
    "  <testcase name=\""@ + xml_escaped(f.id) + "\" classname=\"patchwaste.findings\""@
        + if f.severity == Severity::High {
        junit_failure(f.likely_cause, joined(f.evidence, "; "@))
    } else {
        " />\n"@
    }
}

/// The test cases of the findings, in order.
pub open spec fn junit_finding_list(fs: Seq<FindingModel>) -> Seq<char>
    decreases fs.len(),
{
    if fs.len() == 0 {
        Seq::empty()
    } else {
        junit_finding_list(fs.drop_last()) + junit_finding(fs.last())
    }
}

/// The test case of the budget gate: a failure where a budget was
/// evaluated and not passed.
pub open spec fn junit_budget(b: Option<BudgetResultModel>) -> Seq<char> {
    "  <testcase name=\"budget_gate\" classname=\"patchwaste.budget\""@ + match b {
        Some(g) => if g.pass {
            " />\n"@
        } else {
            junit_failure(
                g.reason,
                "regression_ratio exceeded threshold "@ + g.threshold_regression_ratio.fixed3(),
            )
        },
        None => " />\n"@,
    }
}

/// The test-result form of a report: one suite that holds a test case for
/// each finding and one for the budget gate.
pub open spec fn junit_of(r: ReportModel) -> Seq<char> {
    "<?xml version=\"1.0\" encoding=\"UTF-8\"?>\n"@ + "<testsuite name=\"patchwaste\" tests=\""@
        + decimal(junit_tests(r)) + "\" failures=\""@ + decimal(junit_failures(r)) + "\">\n"@
        + junit_finding_list(r.findings) + junit_budget(r.budget) + "</testsuite>\n"@
}

fn push_xml_escaped(out: &mut String, s: &str)
    ensures
        final(out)@ == old(out)@ + xml_escaped(s@),
{
    assert(out@ =~= old(out)@ + xml_escaped(s@.take(0)));
    for c in it: s.chars()
        invariant
            it.seq() == s@,
            out@ == old(out)@ + xml_escaped(s@.take(it.index() as int)),
    {
        let ghost k = it.index() as int;
        if c == '&' {
            out.append("&amp;");
        } else if c == '<' {
            out.append("&lt;");
        } else if c == '>' {
            out.append("&gt;");
        } else if c == '"' {
            out.append("&quot;");
        } else if c == '\'' {
            out.append("&apos;");
        } else {
            out.push(c);
        }
        proof {
            let next = s@.take(k + 1);
            assert(next.drop_last() =~= s@.take(k));
            assert(next.last() == c);
            assert(out@ =~= old(out)@ + xml_escaped(next));
        }
    }
    assert(s@.take(s@.len() as int) =~= s@);
}

/// The text with `&`, `<`, `>`, `"` and `'` replaced by their XML entities.
pub fn xml_escape(s: &str) -> (r: String)
    ensures
        r@ == xml_escaped(s@),
{
    let mut r = String::new();
    push_xml_escaped(&mut r, s);
    assert(r@ =~= xml_escaped(s@));
    r
}

/// The lines in one string, with the separator between each two.
pub fn join_lines(lines: &Vec<String>, separator: &str) -> (r: String)
    ensures
        r@ == joined(lines.deep_view(), separator@),
{
    let ghost all = lines.deep_view();
    let mut r = String::new();
    let mut i: usize = 0;
    assert(r@ =~= joined(all.take(0), separator@));
    while i < lines.len()
        invariant
            i <= lines.len(),
            all == lines.deep_view(),
            r@ == joined(all.take(i as int), separator@),
        decreases lines.len() - i,
    {
        if i > 0 {
            r.append(separator);
        }
        r.append(lines[i].as_str());
        proof {
            let next = all.take(i + 1);
            assert(next.drop_last() =~= all.take(i as int));
            assert(next.last() == lines[i as int]@);
            assert(next[0] == all[0]);
            assert(r@ =~= joined(next, separator@));
        }
        i += 1;
    }
    assert(all.take(i as int) =~= all);
    r
}

fn count_high(fs: &Vec<Finding>) -> (n: usize)
    ensures
        n == high_count(fs.deep_view()),
{
    let ghost all = fs.deep_view();
    let mut n: usize = 0;
    let mut i: usize = 0;
    while i < fs.len()
        invariant
            i <= fs.len(),
            all == fs.deep_view(),
            n <= i,
            n == high_count(all.take(i as int)),
        decreases fs.len() - i,
    {
        proof {
            let next = all.take(i + 1);
            assert(next.drop_last() =~= all.take(i as int));
            assert(next.last() == fs[i as int]@);
        }
        if fs[i].severity == Severity::High {
            n += 1;
        }
        i += 1;
    }
    assert(all.take(i as int) =~= all);
    n
}

fn push_junit_failure(out: &mut String, message: &str, body: &str)
    ensures
        final(out)@ == old(out)@ + junit_failure(message@, body@),
{
    out.append(">\n    <failure message=\"");
    push_xml_escaped(out, message);
    out.append("\">");
    push_xml_escaped(out, body);
    out.append("</failure>\n  </testcase>\n");
    assert(final(out)@ =~= old(out)@ + junit_failure(message@, body@));
}

fn push_junit_finding(out: &mut String, f: &Finding)
    ensures
        final(out)@ == old(out)@ + junit_finding(f@),
{
    out.append("  <testcase name=\"");
    push_xml_escaped(out, f.id.as_str());
    out.append("\" classname=\"patchwaste.findings\"");
    if f.severity == Severity::High {
        let evidence = join_lines(&f.evidence, "; ");
        push_junit_failure(out, f.likely_cause.as_str(), evidence.as_str());
    } else {
        out.append(" />\n");
    }
    assert(final(out)@ =~= old(out)@ + junit_finding(f@));
}

fn push_junit_findings(out: &mut String, fs: &Vec<Finding>)
    ensures
        final(out)@ == old(out)@ + junit_finding_list(fs.deep_view()),
{
    let ghost all = fs.deep_view();
    let mut i: usize = 0;
    assert(out@ =~= old(out)@ + junit_finding_list(all.take(0)));
    while i < fs.len()
        invariant
            i <= fs.len(),
            all == fs.deep_view(),
            out@ == old(out)@ + junit_finding_list(all.take(i as int)),
        decreases fs.len() - i,
    {
        push_junit_finding(out, &fs[i]);
        proof {
            let next = all.take(i + 1);
            assert(next.drop_last() =~= all.take(i as int));
            assert(next.last() == fs[i as int]@);
            assert(out@ =~= old(out)@ + junit_finding_list(next));
        }
        i += 1;
    }
    assert(all.take(i as int) =~= all);
}

fn push_junit_budget(out: &mut String, b: &Option<BudgetResult>)
    ensures
        final(out)@ == old(out)@ + junit_budget(b.deep_view()),
{
    out.append("  <testcase name=\"budget_gate\" classname=\"patchwaste.budget\"");
    match b {
        Some(g) => {
            if g.pass {
                out.append(" />\n");
            } else {
                let mut body = String::new();
                body.append("regression_ratio exceeded threshold ");
                g.threshold_regression_ratio.push_fixed3(&mut body);
                assert(body@ =~= "regression_ratio exceeded threshold "@
                    + g.threshold_regression_ratio.fixed3());
                push_junit_failure(out, g.reason.as_str(), body.as_str());
            }
        },
        None => {
            out.append(" />\n");
        },
    }
    assert(final(out)@ =~= old(out)@ + junit_budget(b.deep_view()));
}

impl Report {
    /// The report as one JUnit test suite.
    pub fn to_junit_xml(&self) -> (s: String)
        ensures
            s@ == junit_of(self@),
    {
        let total: u128 = self.findings.len() as u128 + 1;
        let budget_failure: u128 = match &self.budget {
            Some(g) => if g.pass {
                0
            } else {
                1
            },
            None => 0,
        };
        let failures: u128 = count_high(&self.findings) as u128 + budget_failure;
        let mut s = String::new();
        s.append("<?xml version=\"1.0\" encoding=\"UTF-8\"?>\n");
        s.append("<testsuite name=\"patchwaste\" tests=\"");
        push_decimal(&mut s, total);
        s.append("\" failures=\"");
        push_decimal(&mut s, failures);
        s.append("\">\n");
        push_junit_findings(&mut s, &self.findings);
        push_junit_budget(&mut s, &self.budget);
        s.append("</testsuite>\n");
        assert(s@ =~= junit_of(self@));
        s
    }
}

/// Escaped text holds none of `<`, `>`, `"` and `'`.
pub proof fn lemma_escaped_text_has_no_markup(s: Seq<char>)
    ensures
        forall|i: int|
            0 <= i < xml_escaped(s).len() ==> {
                let c = #[trigger] xml_escaped(s)[i];
                c != '<' && c != '>' && c != '"' && c != '\''
            },
    decreases s.len(),
{
    if s.len() > 0 {
        lemma_escaped_text_has_no_markup(s.drop_last());
        reveal_strlit("&amp;");
        reveal_strlit("&lt;");
        reveal_strlit("&gt;");
        reveal_strlit("&quot;");
        reveal_strlit("&apos;");
        let head = xml_escaped(s.drop_last());
        let tail = escaped_char(s.last());
        assert forall|i: int| 0 <= i < tail.len() implies {
            let c = #[trigger] tail[i];
            c != '<' && c != '>' && c != '"' && c != '\''
        } by {}
        assert forall|i: int| 0 <= i < xml_escaped(s).len() implies {
            let c = #[trigger] xml_escaped(s)[i];
            c != '<' && c != '>' && c != '"' && c != '\''
        } by {
            if i < head.len() {
                assert(xml_escaped(s)[i] == head[i]);
            } else {
                assert(xml_escaped(s)[i] == tail[i - head.len()]);
            }
        }
    }
}

} // verus!
