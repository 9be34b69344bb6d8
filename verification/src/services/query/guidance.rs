//! What an agent is told about a read before it runs. Guidance never blocks.
use vstd::prelude::*;
use vstd::string::*;

use crate::model::ConnectionProfile;
use crate::text::{
    decimal, decimal_text, duplicate_texts, holds_text, is_text, precedes, same_text, texts,
};

verus! {

/// What the planner's row estimate gives cause to say.
#[derive(Debug, Clone, Copy, PartialEq, Eq, Structural)]
pub enum EstimateFinding {
    /// Nothing.
    Unremarkable,
    /// The estimate is above the review threshold.
    Above { rows: i64, threshold: i64 },
    /// There is no estimate for a query on production.
    Missing,
}

/// What was found about a read and the database it would run on.
#[derive(Debug, Clone, Copy, PartialEq, Eq, Structural)]
pub struct Guidance {
    /// The connection is labelled production.
    pub production: bool,
    /// The database's load is not normal.
    pub under_pressure: bool,
    /// The database's load is high.
    pub busy: bool,
    /// The load could only be measured in part.
    pub limited_coverage: bool,
    pub estimate: EstimateFinding,
}

/// What the row estimate gives cause to say.
pub open spec fn estimate_finding(
    production: bool,
    estimated_rows: Option<i64>,
    threshold: i64,
) -> EstimateFinding {
    match estimated_rows {
        Some(rows) => if rows > threshold && rows > 0 {
            EstimateFinding::Above { rows, threshold }
        } else {
            EstimateFinding::Unremarkable
        },
        None => if production {
            EstimateFinding::Missing
        } else {
            EstimateFinding::Unremarkable
        },
    }
}

/// What is found of a connection with this label, on a database with this load, for a
/// query with this estimate.
pub open spec fn findings(
    environment: Option<String>,
    level: Seq<char>,
    coverage: Seq<char>,
    estimated_rows: Option<i64>,
    threshold: i64,
) -> Guidance {
    let production = is_text(environment, "prod"@);
    Guidance {
        production,
        under_pressure: level != "normal"@,
        busy: level == "busy"@,
        limited_coverage: coverage == "limited"@,
        estimate: estimate_finding(production, estimated_rows, threshold),
    }
}

/// The wording of what the estimate gives cause to say.
pub open spec fn estimate_notice(estimate: EstimateFinding) -> Seq<Seq<char>> {
    match estimate {
        EstimateFinding::Unremarkable => seq![],
        EstimateFinding::Above { rows, threshold } => seq![
            "EXPLAIN estimates "@ + decimal(rows as int)
                + " result/plan rows, above the configured "@ + decimal(threshold as int)
                + " review threshold."@,
        ],
        EstimateFinding::Missing => seq![
            "EXPLAIN did not provide a usable row estimate for this production query."@,
        ],
    }
}

/// One item, or none.
pub open spec fn when(condition: bool, item: Seq<char>) -> Seq<Seq<char>> {
    if condition {
        seq![item]
    } else {
        seq![]
    }
}

impl Guidance {
    /// Whether anything calls for caution.
    pub open spec fn cautious(self) -> bool {
        self.production || self.under_pressure || self.limited_coverage || self.estimate
            != EstimateFinding::Unremarkable
    }

    /// The notices, in the order in which they are given: the production label, what
    /// the load check said, the estimate.
    pub open spec fn notice_texts(self, reasons: Seq<Seq<char>>) -> Seq<Seq<char>> {
        when(self.production, "This connection is labeled production."@) + reasons
            + estimate_notice(self.estimate)
    }

    /// The suggestions, in alphabetical order.
    pub open spec fn suggestion_texts(self) -> Seq<Seq<char>> {
        when(
            self.estimate is Above,
            "Add a selective time/filter condition or aggregate before joining large log tables."@,
        ) + when(
            self.limited_coverage,
            "Enable PostgreSQL pg_monitor in DopeDB settings for fuller aggregate load checks."@,
        ) + when(
            self.production,
            "Prefer a read replica or a bounded time range for production analysis."@,
        ) + when(
            self.estimate is Missing,
            "Review the plan and narrow the query before execution."@,
        ) + when(self.busy, "Wait for database pressure to fall before running this query."@)
    }

    /// The decision: `ready`, or `caution`, which is advice and blocks nothing.
    pub fn decision(&self) -> (r: &'static str)
        ensures
            r == if self.cautious() {
                "caution"
            } else {
                "ready"
            },
    {
        let remarkable = match self.estimate {
            EstimateFinding::Unremarkable => false,
            _ => true,
        };
        if self.production || self.under_pressure || self.limited_coverage || remarkable {
            "caution"
        } else {
            "ready"
        }
    }

    /// Gathers the findings.
    pub fn assess(
        environment: &Option<String>,
        level: &str,
        coverage: &str,
        estimated_rows: Option<i64>,
        threshold: i64,
    ) -> (r: Guidance)
        ensures
            r == findings(*environment, level@, coverage@, estimated_rows, threshold),
    {
        let production = holds_text(environment, "prod");
        let estimate = match estimated_rows {
            Some(rows) => {
                if rows > threshold && rows > 0 {
                    EstimateFinding::Above { rows, threshold }
                } else {
                    EstimateFinding::Unremarkable
                }
            },
            None => {
                if production {
                    EstimateFinding::Missing
                } else {
                    EstimateFinding::Unremarkable
                }
            },
        };
        Guidance {
            production,
            under_pressure: !same_text(level, "normal"),
            busy: same_text(level, "busy"),
            limited_coverage: same_text(coverage, "limited"),
            estimate,
        }
    }

    /// The notices for a load check that gave these reasons.
    pub fn notices(&self, reasons: &Vec<String>) -> (r: Vec<String>)
        ensures
            texts(r@) == self.notice_texts(texts(reasons@)),
    {
        let mut out: Vec<String> = Vec::new();
        if self.production {
            out.push("This connection is labeled production.".to_owned());
        }
        let ghost head = when(self.production, "This connection is labeled production."@);
        assert(texts(out@) =~= head);
        let mut i: usize = 0;
        while i < reasons.len()
            invariant
                i <= reasons.len(),
                texts(out@) == head + texts(reasons@).subrange(0, i as int),
            decreases reasons.len() - i,
        {
            let ghost before = out@;
            out.push(reasons[i].clone());
            i = i + 1;
            assert(texts(out@) =~= texts(before).push(reasons@[i - 1]@));
            assert(texts(out@) =~= head + texts(reasons@).subrange(0, i as int));
        }
        assert(texts(reasons@).subrange(0, i as int) =~= texts(reasons@));
        let ghost before = out@;
        match self.estimate {
            EstimateFinding::Unremarkable => {},
            EstimateFinding::Above { rows, threshold } => {
                let mut notice = "EXPLAIN estimates ".to_owned();
                notice.append(decimal_text(rows).as_str());
                notice.append(" result/plan rows, above the configured ");
                notice.append(decimal_text(threshold).as_str());
                notice.append(" review threshold.");
                out.push(notice);
            },
            EstimateFinding::Missing => {
                out.push(
                    "EXPLAIN did not provide a usable row estimate for this production query.".to_owned(),
                );
            },
        }
        assert(texts(out@) =~= texts(before) + estimate_notice(self.estimate));
        out
    }

    /// The suggestions.
    pub fn suggestions(&self) -> (r: Vec<String>)
        ensures
            texts(r@) == self.suggestion_texts(),
    {
        let mut out: Vec<String> = Vec::new();
        let above = match self.estimate {
            EstimateFinding::Above { .. } => true,
            _ => false,
        };
        let missing = match self.estimate {
            EstimateFinding::Missing => true,
            _ => false,
        };
        push_when(
            &mut out,
            above,
            "Add a selective time/filter condition or aggregate before joining large log tables.",
        );
        push_when(
            &mut out,
            self.limited_coverage,
            "Enable PostgreSQL pg_monitor in DopeDB settings for fuller aggregate load checks.",
        );
        push_when(
            &mut out,
            self.production,
            "Prefer a read replica or a bounded time range for production analysis.",
        );
        push_when(&mut out, missing, "Review the plan and narrow the query before execution.");
        push_when(
            &mut out,
            self.busy,
            "Wait for database pressure to fall before running this query.",
        );
        assert(texts(out@) =~= self.suggestion_texts());
        out
    }
}

fn push_when(out: &mut Vec<String>, condition: bool, item: &str)
    ensures
        texts(final(out)@) == texts(old(out)@) + when(condition, item@),
{
    if condition {
        out.push(item.to_owned());
    }
    assert(texts(out@) =~= texts(old(out)@) + when(condition, item@));
}

/// The load of a database, as the load check reports it.
#[derive(PartialEq, Eq)]
pub struct HealthSnapshot {
    pub level: String,
    pub coverage: String,
    pub reasons: Vec<String>,
}

impl HealthSnapshot {
    /// Whether two snapshots hold the same.
    pub open spec fn same(self, other: HealthSnapshot) -> bool {
        &&& self.level == other.level
        &&& self.coverage == other.coverage
        &&& self.reasons@ == other.reasons@
    }

    /// A snapshot that holds the same.
    pub fn duplicate(&self) -> (r: HealthSnapshot)
        ensures
            r.same(*self),
    {
        let reasons = duplicate_texts(&self.reasons);
        HealthSnapshot { level: self.level.clone(), coverage: self.coverage.clone(), reasons }
    }
}

/// The decision, the notices and the suggestions for a read on a connection.
pub fn planning_guidance(
    profile: &ConnectionProfile,
    health: &HealthSnapshot,
    estimated_rows: Option<i64>,
    estimate_limit: i64,
) -> (r: (String, Vec<String>, Vec<String>))
    ensures
        ({
            let found = findings(
                profile.env,
                health.level@,
                health.coverage@,
                estimated_rows,
                estimate_limit,
            );
            &&& r.0@ == if found.cautious() {
                "caution"@
            } else {
                "ready"@
            }
            &&& texts(r.1@) == found.notice_texts(texts(health.reasons@))
            &&& texts(r.2@) == found.suggestion_texts()
        }),
{
    let found = Guidance::assess(
        &profile.env,
        health.level.as_str(),
        health.coverage.as_str(),
        estimated_rows,
        estimate_limit,
    );
    (found.decision().to_owned(), found.notices(&health.reasons), found.suggestions())
}

/// The suggestions come in alphabetical order, and none comes twice.
pub proof fn suggestions_are_sorted(guidance: Guidance)
    ensures
        forall|i: int, j: int|
            0 <= i < j < guidance.suggestion_texts().len() ==> precedes(
                #[trigger] guidance.suggestion_texts()[i],
                #[trigger] guidance.suggestion_texts()[j],
            ),
{
    reveal_strlit(
        "Add a selective time/filter condition or aggregate before joining large log tables.",
    );
    reveal_strlit(
        "Enable PostgreSQL pg_monitor in DopeDB settings for fuller aggregate load checks.",
    );
    reveal_strlit("Prefer a read replica or a bounded time range for production analysis.");
    reveal_strlit("Review the plan and narrow the query before execution.");
    reveal_strlit("Wait for database pressure to fall before running this query.");
    assert(forall|a: Seq<char>, b: Seq<char>|
        a.len() > 0 && b.len() > 0 && a[0] < b[0] ==> precedes(a, b));
    let s = guidance.suggestion_texts();
    assert forall|i: int, j: int| 0 <= i < j < s.len() implies precedes(
        #[trigger] s[i],
        #[trigger] s[j],
    ) by {
        assert(s[i].len() > 0 && s[j].len() > 0 && s[i][0] < s[j][0]);
    }
}

/// Guidance calls for caution exactly where it has a finding, and a busy database is
/// always a finding.
pub proof fn caution_has_a_cause(
    environment: Option<String>,
    level: Seq<char>,
    coverage: Seq<char>,
    estimated_rows: Option<i64>,
    threshold: i64,
)
    ensures
        ({
            let found = findings(environment, level, coverage, estimated_rows, threshold);
            &&& found.busy ==> found.cautious()
            &&& !found.cautious() ==> found.suggestion_texts().len() == 0
            &&& !found.cautious() ==> found.notice_texts(seq![]).len() == 0
        }),
{
    reveal_strlit("busy");
    reveal_strlit("normal");
    assert("busy"@.len() != "normal"@.len());
}

proof fn either_holds(a: Seq<Seq<char>>, b: Seq<Seq<char>>, item: Seq<char>)
    ensures
        (a + b).contains(item) <==> a.contains(item) || b.contains(item),
{
    let both = a + b;
    if a.contains(item) {
        let i = choose|i: int| 0 <= i < a.len() && a[i] == item;
        assert(both[i] == item);
    }
    if b.contains(item) {
        let i = choose|i: int| 0 <= i < b.len() && b[i] == item;
        assert(both[a.len() + i] == item);
    }
}

proof fn held_when(condition: bool, text: Seq<char>, item: Seq<char>)
    ensures
        (when(condition, text).contains(item)) <==> condition && item == text,
{
    if condition {
        assert(when(condition, text)[0] == text);
    }
}

/// What an agent is told of a read, from what is known of the connection and the database.
/// It is told that the read is ready exactly where the connection is not labelled `prod`,
/// the load is `normal`, its coverage is not `limited`, and no estimate is above the
/// threshold. The notices are the label's, then those of the load check, then the
/// estimate's. A suggestion is made exactly where there is cause for it.
pub proof fn guidance_follows_from_what_is_known(
    profile: ConnectionProfile,
    health: HealthSnapshot,
    estimated_rows: Option<i64>,
    limit: i64,
    r: (String, Vec<String>, Vec<String>),
    text: Seq<char>,
)
    requires
        call_ensures(planning_guidance, (&profile, &health, estimated_rows, limit), r),
    ensures
        ({
            let production = profile.env is Some && profile.env->0@ == "prod"@;
            let above = estimated_rows is Some && estimated_rows->0 > limit && estimated_rows->0
                > 0;
            let unknown = estimated_rows is None && production;
            &&& r.0@ == if production || health.level@ != "normal"@ || health.coverage@
                == "limited"@ || above || unknown {
                "caution"@
            } else {
                "ready"@
            }
            &&& texts(r.1@) == (if production {
                seq!["This connection is labeled production."@]
            } else {
                seq![]
            }) + texts(health.reasons@) + (if above {
                seq![
                    "EXPLAIN estimates "@ + decimal(estimated_rows->0 as int)
                        + " result/plan rows, above the configured "@ + decimal(limit as int)
                        + " review threshold."@,
                ]
            } else if unknown {
                seq!["EXPLAIN did not provide a usable row estimate for this production query."@]
            } else {
                seq![]
            })
            &&& texts(r.2@).contains(text) <==> {
                ||| above && text
                    == "Add a selective time/filter condition or aggregate before joining large log tables."@
                ||| health.coverage@ == "limited"@ && text
                    == "Enable PostgreSQL pg_monitor in DopeDB settings for fuller aggregate load checks."@
                ||| production && text
                    == "Prefer a read replica or a bounded time range for production analysis."@
                ||| unknown && text == "Review the plan and narrow the query before execution."@
                ||| health.level@ == "busy"@ && text
                    == "Wait for database pressure to fall before running this query."@
            }
        }),
{
    let found = findings(profile.env, health.level@, health.coverage@, estimated_rows, limit);
    let a = "Add a selective time/filter condition or aggregate before joining large log tables."@;
    let b = "Enable PostgreSQL pg_monitor in DopeDB settings for fuller aggregate load checks."@;
    let c = "Prefer a read replica or a bounded time range for production analysis."@;
    let d = "Review the plan and narrow the query before execution."@;
    let e = "Wait for database pressure to fall before running this query."@;
    let s1 = when(found.estimate is Above, a);
    let s2 = when(found.limited_coverage, b);
    let s3 = when(found.production, c);
    let s4 = when(found.estimate is Missing, d);
    let s5 = when(found.busy, e);
    held_when(found.estimate is Above, a, text);
    held_when(found.limited_coverage, b, text);
    held_when(found.production, c, text);
    held_when(found.estimate is Missing, d, text);
    held_when(found.busy, e, text);
    either_holds(s1, s2, text);
    either_holds(s1 + s2, s3, text);
    either_holds(s1 + s2 + s3, s4, text);
    either_holds(s1 + s2 + s3 + s4, s5, text);
}

} // verus!
