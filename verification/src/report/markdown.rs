use vstd::prelude::*;
use crate::ratio::Ratio;
use crate::report::{
    BaselineComparison, BudgetResult, BudgetResultModel, BuildMetadata, BuildMetadataModel,
    DepotReport, DepotReportModel, Report, ReportModel,
};
use crate::text::{decimal, push_decimal, push_signed_decimal, signed_decimal};
use crate::types::{Finding, FindingModel, Metrics};

verus! {

/// One bullet of a report: a name and a value between backquotes.
pub open spec fn item(name: Seq<char>, value: Seq<char>) -> Seq<char> {
    "- "@ + name + ": `"@ + value + "`\n"@
}

/// The bullet for a value that may be absent; nothing where it is.
pub open spec fn optional_item(name: Seq<char>, value: Option<Seq<char>>) -> Seq<char> {
    match value {
        Some(v) => item(name, v),
        None => Seq::empty(),
    }
}

/// How a report prints a flag.
pub open spec fn flag_text(b: bool) -> Seq<char> {
    if b {
        "true"@
    } else {
        "false"@
    }
}

/// The indented bullets of a list of lines, in order.
pub open spec fn sub_items(lines: Seq<Seq<char>>) -> Seq<char>
    decreases lines.len(),
{
    if lines.len() == 0 {
        Seq::empty()
    } else {
        sub_items(lines.drop_last()) + "  - "@ + lines.last() + "\n"@
    }
}

/// A titled list of indented bullets; nothing where the list is empty.
pub open spec fn titled_sub_items(title: Seq<char>, lines: Seq<Seq<char>>) -> Seq<char> {
    if lines.len() == 0 {
        Seq::empty()
    } else {
        title + sub_items(lines)
    }
}

/// The title and the inputs.
pub open spec fn markdown_head(r: ReportModel) -> Seq<char> {
    "# patchwaste report\n\n"@ + item("report_version"@, r.report_version) + item(
        "input_path"@,
        r.inputs.input_path,
    ) + item("parse_mode"@, r.inputs.parse_mode) + "\n"@
}

/// The section on the metrics.
pub open spec fn markdown_metrics(m: Metrics) -> Seq<char> {
    "## Metrics\n\n"@ + item("new_bytes"@, decimal(m.new_bytes as nat)) + item(
        "changed_content_bytes"@,
        decimal(m.changed_content_bytes as nat),
    ) + item("delta_efficiency"@, m.delta_efficiency.fixed3()) + item(
        "waste_ratio"@,
        m.waste_ratio.fixed3(),
    ) + "\n"@
}

/// The section on the baseline; nothing where there is no comparison.
pub open spec fn markdown_baseline(b: Option<BaselineComparison>) -> Seq<char> {
    match b {
        Some(c) => "## Baseline comparison\n\n"@ + item(
            "baseline_new_bytes"@,
            decimal(c.baseline_new_bytes as nat),
        ) + item("delta_new_bytes"@, signed_decimal(c.delta_new_bytes as int)) + item(
            "regression_ratio"@,
            c.regression_ratio.fixed3(),
        ) + "\n"@,
        None => Seq::empty(),
    }
}

/// The section on the budget gate; nothing where no budget was evaluated.
pub open spec fn markdown_budget(b: Option<BudgetResultModel>) -> Seq<char> {
    match b {
        Some(g) => "## Budget gate\n\n"@ + item(
            "threshold_regression_ratio"@,
            g.threshold_regression_ratio.fixed3(),
        ) + item("pass"@, flag_text(g.pass)) + item("reason"@, g.reason) + "\n"@,
        None => Seq::empty(),
    }
}

/// The paragraph on one depot.
pub open spec fn markdown_depot(d: DepotReportModel) -> Seq<char> {
    "### Depot "@ + d.depot_id + "\n"@ + item("new_bytes"@, decimal(d.metrics.new_bytes as nat))
        + item("changed_content_bytes"@, decimal(d.metrics.changed_content_bytes as nat)) + item(
        "waste_ratio"@,
        d.metrics.waste_ratio.fixed3(),
    ) + item("confidence"@, d.confidence.label()) + "\n"@
}

/// The paragraphs on the depots, in order.
pub open spec fn markdown_depot_list(ds: Seq<DepotReportModel>) -> Seq<char>
    decreases ds.len(),
{
    if ds.len() == 0 {
        Seq::empty()
    } else {
        markdown_depot_list(ds.drop_last()) + markdown_depot(ds.last())
    }
}

/// The section on the depots; nothing where there is none.
pub open spec fn markdown_depots(ds: Seq<DepotReportModel>) -> Seq<char> {
    if ds.len() == 0 {
        Seq::empty()
    } else {
        "## Per-depot metrics\n\n"@ + markdown_depot_list(ds)
    }
}

/// The section on the build; nothing where the report holds no metadata.
pub open spec fn markdown_build(meta: Option<BuildMetadataModel>) -> Seq<char> {
    match meta {
        Some(m) => "## Build metadata\n\n"@ + optional_item("sha"@, m.sha) + optional_item(
            "branch"@,
            m.branch,
        ) + optional_item("build_id"@, m.build_id) + "\n"@,
        None => Seq::empty(),
    }
}

/// The paragraph on one finding. Evidence and suggested actions are
/// listed only where there are any.
pub open spec fn markdown_finding(f: FindingModel) -> Seq<char> {
    "### "@ + f.id + "\n"@ + item("severity"@, f.severity.label()) + "- likely_cause: "@
        + f.likely_cause + "\n"@ + titled_sub_items("- evidence:\n"@, f.evidence)
        + titled_sub_items("- suggested_actions:\n"@, f.suggested_actions) + "\n"@
}

/// The paragraphs on the findings, in order.
pub open spec fn markdown_finding_list(fs: Seq<FindingModel>) -> Seq<char>
    decreases fs.len(),
{
    if fs.len() == 0 {
        Seq::empty()
    } else {
        markdown_finding_list(fs.drop_last()) + markdown_finding(fs.last())
    }
}

/// The section on the findings, which says so where there is none.
pub open spec fn markdown_findings(fs: Seq<FindingModel>) -> Seq<char> {
    "## Findings\n\n"@ + if fs.len() == 0 {
        "- (none)\n"@
    } else {
        markdown_finding_list(fs)
    }
}

/// The narrative form of a report: its sections in their fixed order. The
/// sections on baseline, budget, depots and build metadata are left out
/// where the report holds none; the findings section always stands.
pub open spec fn markdown_of(r: ReportModel) -> Seq<char> {
    markdown_head(r) + markdown_metrics(r.metrics) + markdown_baseline(r.baseline_comparison)
        + markdown_budget(r.budget) + markdown_depots(r.per_depot) + markdown_build(
        r.build_metadata,
    ) + markdown_findings(r.findings)
}

fn push_item(out: &mut String, name: &str, value: &str)
    ensures
        final(out)@ == old(out)@ + item(name@, value@),
{
    out.append("- ");
    out.append(name);
    out.append(": `");
    out.append(value);
    out.append("`\n");
    assert(final(out)@ =~= old(out)@ + item(name@, value@));
}

fn push_optional_item(out: &mut String, name: &str, value: &Option<String>)
    ensures
        final(out)@ == old(out)@ + optional_item(name@, value.deep_view()),
{
    match value {
        Some(v) => {
            push_item(out, name, v.as_str());
        },
        None => {
            assert(final(out)@ =~= old(out)@ + optional_item(name@, value.deep_view()));
        },
    }
}

fn push_number_item(out: &mut String, name: &str, n: u64)
    ensures
        final(out)@ == old(out)@ + item(name@, decimal(n as nat)),
{
    let mut value = String::new();
    push_decimal(&mut value, n as u128);
    assert(value@ =~= decimal(n as nat));
    push_item(out, name, value.as_str());
}

fn push_ratio_item(out: &mut String, name: &str, r: &Ratio)
    ensures
        final(out)@ == old(out)@ + item(name@, r.fixed3()),
{
    let value = r.to_fixed3();
    push_item(out, name, value.as_str());
}

fn push_sub_items(out: &mut String, lines: &Vec<String>)
    ensures
        final(out)@ == old(out)@ + sub_items(lines.deep_view()),
{
    let ghost all = lines.deep_view();
    let mut i: usize = 0;
    assert(sub_items(all.take(0)) =~= Seq::<char>::empty());
    assert(out@ =~= old(out)@ + sub_items(all.take(0)));
    while i < lines.len()
        invariant
            i <= lines.len(),
            all == lines.deep_view(),
            out@ == old(out)@ + sub_items(all.take(i as int)),
        decreases lines.len() - i,
    {
        let ghost before = out@;
        out.append("  - ");
        out.append(lines[i].as_str());
        out.append("\n");
        proof {
            let next = all.take(i + 1);
            assert(next.drop_last() =~= all.take(i as int));
            assert(next.last() == lines[i as int]@);
            assert(out@ =~= old(out)@ + sub_items(next));
        }
        i += 1;
    }
    assert(all.take(i as int) =~= all);
}

fn push_titled_sub_items(out: &mut String, title: &str, lines: &Vec<String>)
    ensures
        final(out)@ == old(out)@ + titled_sub_items(title@, lines.deep_view()),
{
    if lines.len() > 0 {
        out.append(title);
        push_sub_items(out, lines);
        assert(final(out)@ =~= old(out)@ + titled_sub_items(title@, lines.deep_view()));
    } else {
        assert(final(out)@ =~= old(out)@ + titled_sub_items(title@, lines.deep_view()));
    }
}


fn push_markdown_head(out: &mut String, r: &Report)
    ensures
        final(out)@ == old(out)@ + markdown_head(r@),
{
    out.append("# patchwaste report\n\n");
    push_item(out, "report_version", r.report_version.as_str());
    push_item(out, "input_path", r.inputs.input_path.as_str());
    push_item(out, "parse_mode", r.inputs.parse_mode.as_str());
    out.append("\n");
    assert(final(out)@ =~= old(out)@ + markdown_head(r@));
}

fn push_markdown_metrics(out: &mut String, m: &Metrics)
    ensures
        final(out)@ == old(out)@ + markdown_metrics(*m),
{
    out.append("## Metrics\n\n");
    push_number_item(out, "new_bytes", m.new_bytes);
    push_number_item(out, "changed_content_bytes", m.changed_content_bytes);
    push_ratio_item(out, "delta_efficiency", &m.delta_efficiency);
    push_ratio_item(out, "waste_ratio", &m.waste_ratio);
    out.append("\n");
    assert(final(out)@ =~= old(out)@ + markdown_metrics(*m));
}

fn push_markdown_baseline(out: &mut String, b: &Option<BaselineComparison>)
    ensures
        final(out)@ == old(out)@ + markdown_baseline(*b),
{
    match b {
        Some(c) => {
            out.append("## Baseline comparison\n\n");
            push_number_item(out, "baseline_new_bytes", c.baseline_new_bytes);
            let mut delta = String::new();
            push_signed_decimal(&mut delta, c.delta_new_bytes);
            assert(delta@ =~= signed_decimal(c.delta_new_bytes as int));
            push_item(out, "delta_new_bytes", delta.as_str());
            push_ratio_item(out, "regression_ratio", &c.regression_ratio);
            out.append("\n");
            assert(final(out)@ =~= old(out)@ + markdown_baseline(*b));
        },
        None => {
            assert(final(out)@ =~= old(out)@ + markdown_baseline(*b));
        },
    }
}

fn push_markdown_budget(out: &mut String, b: &Option<BudgetResult>)
    ensures
        final(out)@ == old(out)@ + markdown_budget(b.deep_view()),
{
    match b {
        Some(g) => {
            out.append("## Budget gate\n\n");
            push_ratio_item(out, "threshold_regression_ratio", &g.threshold_regression_ratio);
            push_item(
                out,
                "pass",
                if g.pass {
                    "true"
                } else {
                    "false"
                },
            );
            push_item(out, "reason", g.reason.as_str());
            out.append("\n");
            assert(final(out)@ =~= old(out)@ + markdown_budget(b.deep_view()));
        },
        None => {
            assert(final(out)@ =~= old(out)@ + markdown_budget(b.deep_view()));
        },
    }
}

fn push_markdown_depot(out: &mut String, d: &DepotReport)
    ensures
        final(out)@ == old(out)@ + markdown_depot(d@),
{
    out.append("### Depot ");
    out.append(d.depot_id.as_str());
    out.append("\n");
    push_number_item(out, "new_bytes", d.metrics.new_bytes);
    push_number_item(out, "changed_content_bytes", d.metrics.changed_content_bytes);
    push_ratio_item(out, "waste_ratio", &d.metrics.waste_ratio);
    push_item(out, "confidence", d.confidence.name());
    out.append("\n");
    assert(final(out)@ =~= old(out)@ + markdown_depot(d@));
}

fn push_markdown_depots(out: &mut String, ds: &Vec<DepotReport>)
    ensures
        final(out)@ == old(out)@ + markdown_depots(ds.deep_view()),
{
    let ghost all = ds.deep_view();
    if ds.len() == 0 {
        assert(final(out)@ =~= old(out)@ + markdown_depots(all));
        return ;
    }
    out.append("## Per-depot metrics\n\n");
    let ghost start = out@;
    let mut i: usize = 0;
    assert(out@ =~= start + markdown_depot_list(all.take(0)));
    while i < ds.len()
        invariant
            i <= ds.len(),
            all == ds.deep_view(),
            out@ == start + markdown_depot_list(all.take(i as int)),
        decreases ds.len() - i,
    {
        push_markdown_depot(out, &ds[i]);
        proof {
            let next = all.take(i + 1);
            assert(next.drop_last() =~= all.take(i as int));
            assert(next.last() == ds[i as int]@);
            assert(out@ =~= start + markdown_depot_list(next));
        }
        i += 1;
    }
    assert(all.take(i as int) =~= all);
    assert(final(out)@ =~= old(out)@ + markdown_depots(all));
}

fn push_markdown_build(out: &mut String, meta: &Option<BuildMetadata>)
    ensures
        final(out)@ == old(out)@ + markdown_build(meta.deep_view()),
{
    match meta {
        Some(m) => {
            out.append("## Build metadata\n\n");
            push_optional_item(out, "sha", &m.sha);
            push_optional_item(out, "branch", &m.branch);
            push_optional_item(out, "build_id", &m.build_id);
            out.append("\n");
            assert(final(out)@ =~= old(out)@ + markdown_build(meta.deep_view()));
        },
        None => {
            assert(final(out)@ =~= old(out)@ + markdown_build(meta.deep_view()));
        },
    }
}

fn push_markdown_finding(out: &mut String, f: &Finding)
    ensures
        final(out)@ == old(out)@ + markdown_finding(f@),
{
    out.append("### ");
    out.append(f.id.as_str());
    out.append("\n");
    push_item(out, "severity", f.severity.name());
    out.append("- likely_cause: ");
    out.append(f.likely_cause.as_str());
    out.append("\n");
    push_titled_sub_items(out, "- evidence:\n", &f.evidence);
    push_titled_sub_items(out, "- suggested_actions:\n", &f.suggested_actions);
    out.append("\n");
    assert(final(out)@ =~= old(out)@ + markdown_finding(f@));
}

fn push_markdown_findings(out: &mut String, fs: &Vec<Finding>)
    ensures
        final(out)@ == old(out)@ + markdown_findings(fs.deep_view()),
{
    let ghost all = fs.deep_view();
    out.append("## Findings\n\n");
    let ghost start = out@;
    if fs.len() == 0 {
        out.append("- (none)\n");
        assert(final(out)@ =~= old(out)@ + markdown_findings(all));
        return ;
    }
    let mut i: usize = 0;
    assert(out@ =~= start + markdown_finding_list(all.take(0)));
    while i < fs.len()
        invariant
            i <= fs.len(),
            all == fs.deep_view(),
            out@ == start + markdown_finding_list(all.take(i as int)),
        decreases fs.len() - i,
    {
        push_markdown_finding(out, &fs[i]);
        proof {
            let next = all.take(i + 1);
            assert(next.drop_last() =~= all.take(i as int));
            assert(next.last() == fs[i as int]@);
            assert(out@ =~= start + markdown_finding_list(next));
        }
        i += 1;
    }
    assert(all.take(i as int) =~= all);
    assert(final(out)@ =~= old(out)@ + markdown_findings(all));
}

impl Report {
    /// The report as Markdown.
    pub fn to_markdown(&self) -> (s: String)
        ensures
            s@ == markdown_of(self@),
    {
        let mut s = String::new();
        push_markdown_head(&mut s, self);
        push_markdown_metrics(&mut s, &self.metrics);
        push_markdown_baseline(&mut s, &self.baseline_comparison);
        push_markdown_budget(&mut s, &self.budget);
        push_markdown_depots(&mut s, &self.per_depot);
        push_markdown_build(&mut s, &self.build_metadata);
        push_markdown_findings(&mut s, &self.findings);
        assert(s@ =~= markdown_of(self@));
        s
    }
}

} // verus!
