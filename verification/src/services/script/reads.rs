//! Running the statements of a script that only reads, one after the other.
use vstd::prelude::*;

use crate::services::query::desktop_run::ResultSize;
use crate::services::script::shared::{
    failed, skipped, statement_error, statement_skipped, ScriptStatement,
};
use crate::services::script::transaction::in_step;
use crate::text::Text;

verus! {

/// A script on its way through its reads.
#[derive(PartialEq, Eq)]
pub struct ReadScript {
    pub statements: Vec<String>,
    pub outcomes: Vec<ScriptStatement>,
    /// What went wrong, once something has.
    pub failure: Option<String>,
    /// The rows read so far.
    pub total: i64,
}

/// A statement that read so many rows.
pub open spec fn read(sql: String, size: ResultSize) -> ScriptStatement {
    ScriptStatement { sql, result: Some(size), affected: None, error: None }
}

/// The rows that the statements read, taken together.
pub open spec fn rows_total(outcomes: Seq<ScriptStatement>) -> int
    decreases outcomes.len(),
{
    if outcomes.len() == 0 {
        0
    } else {
        rows_total(outcomes.drop_last()) + match outcomes.last().result {
            Some(size) => size.row_count as i64 as int,
            None => 0,
        }
    }
}

impl ReadScript {
    /// The outcomes are in step with the statements and add up to the total; once a
    /// statement failed, every statement has its outcome.
    pub open spec fn wf(self) -> bool {
        &&& in_step(self.statements@, self.outcomes@)
        &&& self.total == rows_total(self.outcomes@)
        &&& self.failure is Some ==> self.outcomes@.len() == self.statements@.len()
    }

    /// Whether every statement has its outcome.
    pub open spec fn finished(self) -> bool {
        self.outcomes@.len() == self.statements@.len()
    }

    /// A script of which nothing has been run.
    pub fn new(statements: Vec<String>) -> (r: ReadScript)
        ensures
            r.wf(),
            r.statements == statements,
            r.outcomes@ == Seq::<ScriptStatement>::empty(),
            r.failure is None,
    {
        ReadScript { statements, outcomes: Vec::new(), failure: None, total: 0 }
    }

    /// The statement to run next, if any is left to run.
    pub fn next(&self) -> (r: Option<&String>)
        requires
            self.wf(),
        ensures
            match r {
                Some(statement) => !self.finished() && *statement
                    == self.statements@[self.outcomes@.len() as int],
                None => self.finished(),
            },
    {
        if self.outcomes.len() < self.statements.len() {
            Some(&self.statements[self.outcomes.len()])
        } else {
            None
        }
    }

    /// Takes how many rows the next statement read, or why it failed. After a failure the
    /// rest is skipped.
    pub fn record(&mut self, reply: Result<ResultSize, String>)
        requires
            old(self).wf(),
            !old(self).finished(),
            reply matches Ok(size) ==> i64::MIN <= old(self).total + size.row_count as i64
                <= i64::MAX,
        ensures
            final(self).wf(),
            final(self).statements == old(self).statements,
            ({
                let n = old(self).outcomes@.len() as int;
                let statements = old(self).statements@;
                match reply {
                    Ok(size) => {
                        &&& final(self).outcomes@ == old(self).outcomes@.push(
                            read(statements[n], size),
                        )
                        &&& final(self).failure == old(self).failure
                        &&& final(self).total == old(self).total + size.row_count as i64
                    },
                    Err(printed) => {
                        &&& final(self).outcomes@ == Seq::new(
                            statements.len(),
                            |k: int|
                                if k < n {
                                    old(self).outcomes@[k]
                                } else if k == n {
                                    failed(statements[k], Text::Owned(printed))
                                } else {
                                    skipped(statements[k])
                                },
                        )
                        &&& final(self).failure == Some(printed)
                        &&& final(self).total == old(self).total
                    },
                }
            }),
    {
        let n: usize = self.outcomes.len();
        match reply {
            Ok(size) => {
                let outcome = ScriptStatement {
                    sql: self.statements[n].clone(),
                    result: Some(size),
                    affected: None,
                    error: None,
                };
                self.outcomes.push(outcome);
                self.total = self.total + size.row_count as i64;
                assert(self.outcomes@.drop_last() =~= old(self).outcomes@);
            },
            Err(printed) => {
                let outcome = statement_error(&self.statements[n], Text::Owned(printed.clone()));
                self.outcomes.push(outcome);
                let ghost expected = |k: int|
                    if k < n {
                        old(self).outcomes@[k]
                    } else if k == n {
                        failed(old(self).statements@[k], Text::Owned(printed))
                    } else {
                        skipped(old(self).statements@[k])
                    };
                assert(self.outcomes@ =~= Seq::new((n + 1) as nat, expected));
                assert(self.outcomes@.drop_last() =~= old(self).outcomes@);
                while self.outcomes.len() < self.statements.len()
                    invariant
                        n < self.outcomes@.len() <= self.statements@.len(),
                        self.statements == old(self).statements,
                        self.total == old(self).total,
                        self.total == rows_total(self.outcomes@),
                        self.outcomes@ == Seq::new(self.outcomes@.len(), expected),
                        forall|k: int|
                            n < k < self.statements@.len() ==> #[trigger] expected(k) == skipped(
                                old(self).statements@[k],
                            ),
                    decreases self.statements@.len() - self.outcomes@.len(),
                {
                    let ghost before = self.outcomes@;
                    let next = statement_skipped(&self.statements[self.outcomes.len()]);
                    self.outcomes.push(next);
                    assert(next == expected(before.len() as int));
                    assert(self.outcomes@ =~= Seq::new(self.outcomes@.len(), expected));
                    assert(self.outcomes@.drop_last() =~= before);
                }
                self.failure = Some(printed);
                proof {
                    assert forall|k: int| 0 <= k < self.outcomes@.len() implies (
                    #[trigger] self.outcomes@[k]).sql == self.statements@[k] by {
                        assert(self.outcomes@[k] == expected(k));
                    }
                }
            },
        }
    }
}

} // verus!
