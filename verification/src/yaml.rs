//! Plain-text rendering of a rule document, and the owned artifact's
//! key-value data derived from it.
//!
//! The artifact stores the document as structured text. The exact rendering
//! is specified character by character, so that an unchanged document always
//! produces byte-identical text. Field values (names, expressions,
//! durations, label values) are emitted verbatim on one line each, except
//! that a value beginning with `{` — the live-value placeholder in
//! annotations — is single-quoted to keep it a scalar.

use vstd::prelude::*;
use vstd::string::{StrSliceExecFns, StringExecFns};

use crate::alert::{
    AlertGroup, AlertGroupView, AlertRules, AlertRulesView, PromAlerts, PromAlertsView,
    PrometheusSeverity,
};

verus! {

/// The lower-case text of a severity.
pub open spec fn severity_text(s: PrometheusSeverity) -> Seq<char> {
    match s {
        PrometheusSeverity::Warning => "warning"@,
        PrometheusSeverity::Critical => "critical"@,
        PrometheusSeverity::Page => "page"@,
    }
}

/// The lower-case text of a severity.
pub fn severity_str(s: &PrometheusSeverity) -> (r: &'static str)
    ensures
        r@ == severity_text(*s),
{
    match s {
        PrometheusSeverity::Warning => "warning",
        PrometheusSeverity::Critical => "critical",
        PrometheusSeverity::Page => "page",
    }
}

/// A field value as it is emitted: verbatim, unless it opens with `{`, in
/// which case it is single-quoted.
#[verifier::opaque]
pub open spec fn yaml_value(s: Seq<char>) -> Seq<char> {
    if s.len() > 0 && s[0] == '{' {
        "'"@ + s + "'"@
    } else {
        s
    }
}

/// The rendered block of one rule, as a list item of a group's `rules` key.
pub open spec fn yaml_rule(r: AlertRulesView) -> Seq<char> {
    "  - alert: "@ + yaml_value(r.alert) + "\n    expr: "@ + yaml_value(r.expr) + "\n    for: "@
        + yaml_value(r.for_) + "\n    labels:\n      severity: "@ + severity_text(
        r.labels.severity,
    ) + "\n      source: "@ + yaml_value(r.labels.source) + "\n      owner: "@ + yaml_value(
        r.labels.owner,
    ) + "\n    annotations:\n      summary: "@ + yaml_value(r.annotations.summary)
        + "\n      description: "@ + yaml_value(r.annotations.description) + "\n"@
}

/// The rendered blocks of the first `n` rules of a group.
pub open spec fn yaml_rules_upto(rules: Seq<AlertRulesView>, n: int) -> Seq<char>
    decreases n,
{
    if n <= 0 {
        Seq::empty()
    } else {
        yaml_rules_upto(rules, n - 1) + yaml_rule(rules[n - 1])
    }
}

/// The rendered block of one group, as a list item of the document's
/// `groups` key.
pub open spec fn yaml_group(g: AlertGroupView) -> Seq<char> {
    "- name: "@ + yaml_value(g.name) + "\n  rules:"@ + if g.rules.len() == 0 {
        " []\n"@
    } else {
        "\n"@ + yaml_rules_upto(g.rules, g.rules.len() as int)
    }
}

/// The rendered blocks of the first `n` groups of a document.
pub open spec fn yaml_groups_upto(groups: Seq<AlertGroupView>, n: int) -> Seq<char>
    decreases n,
{
    if n <= 0 {
        Seq::empty()
    } else {
        yaml_groups_upto(groups, n - 1) + yaml_group(groups[n - 1])
    }
}

/// The rendered text of a whole rule document.
pub open spec fn yaml_doc(d: PromAlertsView) -> Seq<char> {
    "groups:"@ + if d.groups.len() == 0 {
        " []\n"@
    } else {
        "\n"@ + yaml_groups_upto(d.groups, d.groups.len() as int)
    }
}

/// Appends one field value, quoting it when it opens with `{`.
fn append_scalar(out: &mut String, v: &String)
    ensures
        final (out)@ == old(out)@ + yaml_value(v@),
{
    proof {
        reveal(yaml_value);
    }
    let len = v.as_str().unicode_len();
    if len > 0 && v.as_str().get_char(0) == '{' {
        out.append("'");
        out.append(v.as_str());
        out.append("'");
    } else {
        out.append(v.as_str());
    }
    proof {
        assert(out@ =~= old(out)@ + yaml_value(v@));
    }
}

/// Appends the rendered block of one rule.
#[verifier::rlimit(60)]
fn append_rule(out: &mut String, r: &AlertRules)
    ensures
        final (out)@ == old(out)@ + yaml_rule(r@),
{
    out.append("  - alert: ");
    append_scalar(out, &r.alert);
    out.append("\n    expr: ");
    append_scalar(out, &r.expr);
    out.append("\n    for: ");
    append_scalar(out, &r.for_);
    out.append("\n    labels:\n      severity: ");
    out.append(severity_str(&r.labels.severity));
    out.append("\n      source: ");
    append_scalar(out, &r.labels.source);
    out.append("\n      owner: ");
    append_scalar(out, &r.labels.owner);
    out.append("\n    annotations:\n      summary: ");
    append_scalar(out, &r.annotations.summary);
    out.append("\n      description: ");
    append_scalar(out, &r.annotations.description);
    out.append("\n");
    proof {
        assert(out@ =~= old(out)@ + yaml_rule(r@));
    }
}

/// Appends the rendered block of one group.
fn append_group(out: &mut String, g: &AlertGroup)
    ensures
        final (out)@ == old(out)@ + yaml_group(g@),
{
    out.append("- name: ");
    append_scalar(out, &g.name);
    out.append("\n  rules:");
    if g.rules.len() == 0 {
        out.append(" []\n");
        proof {
            assert(out@ =~= old(out)@ + yaml_group(g@));
        }
        return ;
    }
    out.append("\n");
    let ghost rv = g@.rules;
    let ghost base = out@;
    let mut i: usize = 0;
    while i < g.rules.len()
        invariant
            i <= g.rules.len(),
            rv == g@.rules,
            rv.len() == g.rules@.len(),
            out@ == base + yaml_rules_upto(rv, i as int),
        decreases g.rules.len() - i,
    {
        proof {
            assert(rv[i as int] == g.rules@[i as int]@);
        }
        append_rule(out, &g.rules[i]);
        proof {
            assert(out@ =~= base + yaml_rules_upto(rv, i as int + 1));
        }
        i = i + 1;
    }
    proof {
        assert(out@ =~= old(out)@ + yaml_group(g@));
    }
}

/// Renders a rule document as structured text.
pub fn to_yaml(alerts: &PromAlerts) -> (r: String)
    ensures
        r@ == yaml_doc(alerts@),
{
    let mut out: String = "groups:".to_owned();
    if alerts.groups.len() == 0 {
        out.append(" []\n");
        proof {
            assert(out@ =~= yaml_doc(alerts@));
        }
        return out;
    }
    out.append("\n");
    let ghost gv = alerts@.groups;
    let ghost base = out@;
    let mut k: usize = 0;
    while k < alerts.groups.len()
        invariant
            k <= alerts.groups.len(),
            gv == alerts@.groups,
            gv.len() == alerts.groups@.len(),
            out@ == base + yaml_groups_upto(gv, k as int),
        decreases alerts.groups.len() - k,
    {
        proof {
            assert(gv[k as int] == alerts.groups@[k as int]@);
        }
        append_group(&mut out, &alerts.groups[k]);
        proof {
            assert(out@ =~= base + yaml_groups_upto(gv, k as int + 1));
        }
        k = k + 1;
    }
    proof {
        assert(out@ =~= yaml_doc(alerts@));
    }
    out
}

/// Why a document cannot back an owned artifact.
#[derive(Clone, Copy, Debug, PartialEq, Eq, Structural)]
pub enum ArtifactError {
    /// The document has no alert rule groups.
    NoAlertGroups,
    /// The document's first group has no rules.
    NoRulesInGroup,
}

/// The single key-value pair the owned artifact stores: the `owner` label of
/// the document's first rule, mapped to the rendered document. The owner is
/// a stable identifier of the producing specification, so an unchanged
/// specification re-derives the same pair.
pub fn artifact_data(alerts: &PromAlerts) -> (r: Result<(String, String), ArtifactError>)
    ensures
        match r {
            Ok(kv) => alerts@.groups.len() > 0 && alerts@.groups[0].rules.len() > 0 && kv.0@
                == alerts@.groups[0].rules[0].labels.owner && kv.1@ == yaml_doc(alerts@),
            Err(e) => match e {
                ArtifactError::NoAlertGroups => alerts@.groups.len() == 0,
                ArtifactError::NoRulesInGroup => alerts@.groups.len() > 0
                    && alerts@.groups[0].rules.len() == 0,
            },
        },
{
    if alerts.groups.len() == 0 {
        return Err(ArtifactError::NoAlertGroups);
    }
    if alerts.groups[0].rules.len() == 0 {
        proof {
            assert(alerts@.groups[0] == alerts.groups@[0]@);
        }
        return Err(ArtifactError::NoRulesInGroup);
    }
    let identifier = alerts.groups[0].rules[0].labels.owner.clone();
    let text = to_yaml(alerts);
    proof {
        assert(alerts@.groups[0] == alerts.groups@[0]@);
        assert(alerts@.groups[0].rules[0] == alerts.groups@[0].rules@[0]@);
    }
    Ok((identifier, text))
}

} // verus!
