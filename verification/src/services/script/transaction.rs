//! Running the statements of a script in one transaction.
use vstd::prelude::*;

use crate::services::script::shared::{
    failed, skipped, statement_error, statement_ok, statement_skipped, succeeded, ScriptStatement,
};
use crate::text::Text;

verus! {

/// What a transaction waits for.
#[derive(Debug, Clone, Copy, PartialEq, Eq, Structural)]
pub enum TransactionPhase {
    /// To hear whether it began.
    Beginning,
    /// To hear of the statement after those whose outcome is known.
    Running,
    /// To be rolled back, whatever comes of that.
    RollingBack,
    /// To hear whether it was committed.
    Committing,
    /// Nothing: it was committed.
    Committed,
    /// Nothing: none of it took effect.
    Aborted,
}

/// A script on its way through a transaction.
#[derive(PartialEq, Eq)]
pub struct Transaction {
    pub statements: Vec<String>,
    pub outcomes: Vec<ScriptStatement>,
    pub phase: TransactionPhase,
}

/// Whether every outcome is a success.
pub open spec fn all_succeeded(outcomes: Seq<ScriptStatement>) -> bool {
    forall|k: int|
        0 <= k < outcomes.len() ==> (#[trigger] outcomes[k]).error is None && outcomes[k].affected
            is Some
}

/// Whether some outcome is a failure.
pub open spec fn some_failed(outcomes: Seq<ScriptStatement>) -> bool {
    exists|k: int| 0 <= k < outcomes.len() && (#[trigger] outcomes[k]).error is Some
}

/// Whether the outcomes are those of the first statements, one each, in order.
pub open spec fn in_step(statements: Seq<String>, outcomes: Seq<ScriptStatement>) -> bool {
    &&& outcomes.len() <= statements.len()
    &&& forall|k: int| 0 <= k < outcomes.len() ==> (#[trigger] outcomes[k]).sql == statements[k]
}

impl Transaction {
    /// The outcomes are in step with the statements, and say what the phase says.
    pub open spec fn wf(self) -> bool {
        &&& in_step(self.statements@, self.outcomes@)
        &&& match self.phase {
            TransactionPhase::Beginning => self.outcomes@.len() == 0,
            TransactionPhase::Running => {
                &&& self.outcomes@.len() < self.statements@.len()
                &&& all_succeeded(self.outcomes@)
            },
            TransactionPhase::Committing | TransactionPhase::Committed => {
                &&& self.outcomes@.len() == self.statements@.len()
                &&& all_succeeded(self.outcomes@)
            },
            TransactionPhase::RollingBack => {
                &&& self.outcomes@.len() == self.statements@.len()
                &&& some_failed(self.outcomes@)
            },
            TransactionPhase::Aborted => {
                &&& self.outcomes@.len() == self.statements@.len()
                &&& self.statements@.len() > 0 ==> some_failed(self.outcomes@)
            },
        }
    }

    /// A transaction for these statements, which has yet to begin.
    pub fn new(statements: Vec<String>) -> (r: Transaction)
        ensures
            r.wf(),
            r.phase == TransactionPhase::Beginning,
            r.statements == statements,
            r.outcomes@ == Seq::<ScriptStatement>::empty(),
    {
        Transaction { statements, outcomes: Vec::new(), phase: TransactionPhase::Beginning }
    }

    /// Takes whether the transaction began. If it did not, every statement has failed.
    pub fn begun(&mut self, reply: Result<(), String>)
        requires
            old(self).wf(),
            old(self).phase == TransactionPhase::Beginning,
        ensures
            final(self).wf(),
            final(self).statements == old(self).statements,
            match reply {
                Ok(_) => {
                    &&& final(self).outcomes@.len() == 0
                    &&& final(self).phase == if old(self).statements@.len() == 0 {
                        TransactionPhase::Committing
                    } else {
                        TransactionPhase::Running
                    }
                },
                Err(printed) => {
                    &&& final(self).phase == TransactionPhase::Aborted
                    &&& final(self).outcomes@ == Seq::new(
                        old(self).statements@.len(),
                        |k: int|
                            failed(
                                old(self).statements@[k],
                                Text::WithText("could not begin transaction: ", printed, ""),
                            ),
                    )
                },
            },
    {
        match reply {
            Ok(_) => {
                if self.statements.len() == 0 {
                    self.phase = TransactionPhase::Committing;
                } else {
                    self.phase = TransactionPhase::Running;
                }
            },
            Err(printed) => {
                let mut i: usize = 0;
                while i < self.statements.len()
                    invariant
                        i <= self.statements@.len(),
                        self.statements == old(self).statements,
                        self.outcomes@ == Seq::new(
                            i as nat,
                            |k: int|
                                failed(
                                    old(self).statements@[k],
                                    Text::WithText("could not begin transaction: ", printed, ""),
                                ),
                        ),
                    decreases self.statements@.len() - i,
                {
                    let outcome = statement_error(
                        &self.statements[i],
                        Text::WithText("could not begin transaction: ", printed.clone(), ""),
                    );
                    self.outcomes.push(outcome);
                    i = i + 1;
                    assert(self.outcomes@ =~= Seq::new(
                        i as nat,
                        |k: int|
                            failed(
                                old(self).statements@[k],
                                Text::WithText("could not begin transaction: ", printed, ""),
                            ),
                    ));
                }
                self.phase = TransactionPhase::Aborted;
                proof {
                    if self.statements@.len() > 0 {
                        assert(self.outcomes@[0].error is Some);
                    }
                }
            },
        }
    }

    /// The statement to execute next.
    pub fn next(&self) -> (r: &String)
        requires
            self.wf(),
            self.phase == TransactionPhase::Running,
        ensures
            *r == self.statements@[self.outcomes@.len() as int],
    {
        &self.statements[self.outcomes.len()]
    }

    /// Takes how many rows the next statement affected, or why it failed. After a failure
    /// the rest is skipped.
    pub fn executed(&mut self, reply: Result<u64, String>)
        requires
            old(self).wf(),
            old(self).phase == TransactionPhase::Running,
        ensures
            final(self).wf(),
            final(self).statements == old(self).statements,
            ({
                let n = old(self).outcomes@.len() as int;
                let statements = old(self).statements@;
                match reply {
                    Ok(affected) => {
                        &&& final(self).outcomes@ == old(self).outcomes@.push(
                            succeeded(statements[n], affected),
                        )
                        &&& final(self).phase == if n + 1 == statements.len() {
                            TransactionPhase::Committing
                        } else {
                            TransactionPhase::Running
                        }
                    },
                    Err(printed) => {
                        &&& final(self).outcomes@ == Seq::new(
                            statements.len(),
                            |k: int|
                                if k < n {
                                    old(self).outcomes@[k]
                                } else if k == n {
                                    failed(statements[k], Text::Owned(printed))
                                } else {
                                    skipped(statements[k])
                                },
                        )
                        &&& final(self).phase == TransactionPhase::RollingBack
                    },
                }
            }),
    {
        let n: usize = self.outcomes.len();
        match reply {
            Ok(affected) => {
                let outcome = statement_ok(&self.statements[n], affected);
                self.outcomes.push(outcome);
                if self.outcomes.len() == self.statements.len() {
                    self.phase = TransactionPhase::Committing;
                }
            },
            Err(printed) => {
                let outcome = statement_error(&self.statements[n], Text::Owned(printed));
                self.outcomes.push(outcome);
                let ghost expected = |k: int|
                    if k < n {
                        old(self).outcomes@[k]
                    } else if k == n {
                        failed(old(self).statements@[k], Text::Owned(printed))
                    } else {
                        skipped(old(self).statements@[k])
                    };
                assert(self.outcomes@ =~= Seq::new((n + 1) as nat, expected));
                while self.outcomes.len() < self.statements.len()
                    invariant
                        n < self.outcomes@.len() <= self.statements@.len(),
                        self.statements == old(self).statements,
                        self.outcomes@ == Seq::new(self.outcomes@.len(), expected),
                        forall|k: int|
                            n < k < self.statements@.len() ==> #[trigger] expected(k) == skipped(
                                old(self).statements@[k],
                            ),
                    decreases self.statements@.len() - self.outcomes@.len(),
                {
                    let ghost before = self.outcomes@;
                    let next = statement_skipped(&self.statements[self.outcomes.len()]);
                    self.outcomes.push(next);
                    assert(next == expected(before.len() as int));
                    assert(self.outcomes@ =~= Seq::new(self.outcomes@.len(), expected));
                }
                self.phase = TransactionPhase::RollingBack;
                proof {
                    assert(self.outcomes@[n as int].error is Some);
                    assert forall|k: int| 0 <= k < self.outcomes@.len() implies (
                    #[trigger] self.outcomes@[k]).sql == self.statements@[k] by {
                        assert(self.outcomes@[k] == expected(k));
                    }
                }
            },
        }
    }

    /// Takes that the transaction was rolled back, or that rolling it back failed.
    pub fn rolled_back(&mut self)
        requires
            old(self).wf(),
            old(self).phase == TransactionPhase::RollingBack,
        ensures
            final(self).wf(),
            final(self).statements == old(self).statements,
            final(self).outcomes == old(self).outcomes,
            final(self).phase == TransactionPhase::Aborted,
    {
        self.phase = TransactionPhase::Aborted;
    }

    /// Takes whether the transaction was committed. If it was not, no statement counts.
    pub fn committed(&mut self, reply: Result<(), String>)
        requires
            old(self).wf(),
            old(self).phase == TransactionPhase::Committing,
        ensures
            final(self).wf(),
            final(self).statements == old(self).statements,
            match reply {
                Ok(_) => {
                    &&& final(self).outcomes == old(self).outcomes
                    &&& final(self).phase == TransactionPhase::Committed
                },
                Err(printed) => {
                    &&& final(self).outcomes@ == Seq::new(
                        old(self).outcomes@.len(),
                        |k: int|
                            ScriptStatement {
                                affected: None,
                                error: Some(
                                    Text::WithText(
                                        "commit failed — nothing was saved: ",
                                        printed,
                                        "",
                                    ),
                                ),
                                ..old(self).outcomes@[k]
                            },
                    )
                    &&& final(self).phase == TransactionPhase::Aborted
                },
            },
    {
        match reply {
            Ok(_) => {
                self.phase = TransactionPhase::Committed;
            },
            Err(printed) => {
                let ghost void = |s: ScriptStatement|
                    ScriptStatement {
                        affected: None,
                        error: Some(
                            Text::WithText("commit failed — nothing was saved: ", printed, ""),
                        ),
                        ..s
                    };
                let mut i: usize = 0;
                while i < self.outcomes.len()
                    invariant
                        i <= self.outcomes@.len(),
                        self.statements == old(self).statements,
                        self.outcomes@.len() == old(self).outcomes@.len(),
                        forall|k: int|
                            0 <= k < i ==> #[trigger] self.outcomes@[k] == void(
                                old(self).outcomes@[k],
                            ),
                        forall|k: int|
                            i <= k < self.outcomes@.len() ==> #[trigger] self.outcomes@[k] == old(
                                self,
                            ).outcomes@[k],
                        forall|s: ScriptStatement| #[trigger]
                            void(s) == (ScriptStatement {
                                affected: None,
                                error: Some(
                                    Text::WithText(
                                        "commit failed — nothing was saved: ",
                                        printed,
                                        "",
                                    ),
                                ),
                                ..s
                            }),
                    decreases self.outcomes@.len() - i,
                {
                    let message = Text::WithText(
                        "commit failed — nothing was saved: ",
                        printed.clone(),
                        "",
                    );
                    self.outcomes[i].error = Some(message);
                    self.outcomes[i].affected = None;
                    assert(self.outcomes@[i as int] == void(old(self).outcomes@[i as int]));
                    i = i + 1;
                }
                self.phase = TransactionPhase::Aborted;
                proof {
                    if self.statements@.len() > 0 {
                        assert(self.outcomes@[0].error is Some);
                    }
                    assert(self.outcomes@ =~= Seq::new(
                        old(self).outcomes@.len(),
                        |k: int|
                            ScriptStatement {
                                affected: None,
                                error: Some(
                                    Text::WithText(
                                        "commit failed — nothing was saved: ",
                                        printed,
                                        "",
                                    ),
                                ),
                                ..old(self).outcomes@[k]
                            },
                    ));
                }
            },
        }
    }
}

/// The rows that the statements affected, taken together.
pub open spec fn affected_total(outcomes: Seq<ScriptStatement>) -> int
    decreases outcomes.len(),
{
    if outcomes.len() == 0 {
        0
    } else {
        affected_total(outcomes.drop_last()) + match outcomes.last().affected {
            Some(affected) => affected as int,
            None => 0,
        }
    }
}

/// Whether the rows of the first statements, added up one after the other, never leave the
/// range of the machine's numbers.
pub open spec fn sums_fit(outcomes: Seq<ScriptStatement>) -> bool {
    forall|i: int|
        0 <= i <= outcomes.len() ==> i64::MIN <= affected_total(
            #[trigger] outcomes.subrange(0, i),
        ) <= i64::MAX
}

/// Adds up the rows that the statements affected.
pub fn sum_affected(outcomes: &Vec<ScriptStatement>) -> (r: i64)
    requires
        sums_fit(outcomes@),
    ensures
        r == affected_total(outcomes@),
{
    let mut total: i64 = 0;
    let mut i: usize = 0;
    while i < outcomes.len()
        invariant
            i <= outcomes@.len(),
            sums_fit(outcomes@),
            total == affected_total(outcomes@.subrange(0, i as int)),
        decreases outcomes@.len() - i,
    {
        proof {
            let longer = outcomes@.subrange(0, i + 1);
            assert(longer.drop_last() =~= outcomes@.subrange(0, i as int));
            assert(i64::MIN <= affected_total(longer) <= i64::MAX);
        }
        match outcomes[i].affected {
            Some(affected) => {
                total = total + affected;
            },
            None => {},
        }
        i = i + 1;
    }
    assert(outcomes@.subrange(0, i as int) =~= outcomes@);
    total
}

/// A transaction is all or nothing in what it reports: if it was committed, every
/// statement succeeded; if it was not, some statement carries an error, and every
/// statement has exactly one outcome either way.
pub proof fn all_or_nothing(transaction: Transaction)
    requires
        transaction.wf(),
        transaction.phase == TransactionPhase::Committed || transaction.phase
            == TransactionPhase::Aborted,
        transaction.statements@.len() > 0,
    ensures
        transaction.outcomes@.len() == transaction.statements@.len(),
        forall|k: int|
            0 <= k < transaction.outcomes@.len() ==> (#[trigger] transaction.outcomes@[k]).sql
                == transaction.statements@[k],
        transaction.phase == TransactionPhase::Committed <==> all_succeeded(transaction.outcomes@),
        transaction.phase == TransactionPhase::Aborted <==> some_failed(transaction.outcomes@),
{
}

} // verus!
