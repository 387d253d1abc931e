use vstd::prelude::*;
use crate::fields::{entry_models, FieldMap};
use crate::storage::{insert_sql, insert_statement, keys_of, param_models, values_of, DatabaseError, Statement};
use crate::value::DbValue;

verus! {

/// What the driver of a batch insert does next.
#[derive(Debug)]
pub enum BatchAction {
    /// No rows were given: report this count without opening a transaction.
    Done(u64),
    /// Inside the transaction, run the statement at this position.
    Execute(usize),
    /// Commit the transaction and report this count.
    Commit(u64),
    /// Roll the transaction back and report this failure.
    Rollback(DatabaseError),
}

/// The kind of an action, without its failure.
pub enum ActionKind {
    Done(nat),
    Execute(nat),
    Commit(nat),
    Rollback,
}

pub open spec fn action_kind(a: BatchAction) -> ActionKind {
    match a {
        BatchAction::Done(n) => ActionKind::Done(n as nat),
        BatchAction::Execute(i) => ActionKind::Execute(i as nat),
        BatchAction::Commit(n) => ActionKind::Commit(n as nat),
        BatchAction::Rollback(_) => ActionKind::Rollback,
    }
}

/// The first action of a batch of `planned` statements; `given` tells
/// whether any rows were handed in.
pub open spec fn first_action(given: bool, planned: nat) -> ActionKind {
    if !given {
        ActionKind::Done(0)
    } else if planned == 0 {
        ActionKind::Commit(0)
    } else {
        ActionKind::Execute(0)
    }
}

/// The action after statement `i` of `planned` ran with the given success.
pub open spec fn next_action(planned: nat, i: nat, ok: bool) -> ActionKind {
    if !ok {
        ActionKind::Rollback
    } else if i + 1 >= planned {
        ActionKind::Commit(planned)
    } else {
        ActionKind::Execute(i + 1)
    }
}

/// The actions that follow from running statements from position `i` with
/// the given successes, one per statement run, until commit or rollback.
pub open spec fn actions_from(planned: nat, i: nat, oks: Seq<bool>) -> Seq<ActionKind>
    decreases oks.len(),
{
    if oks.len() == 0 {
        Seq::empty()
    } else {
        let a = next_action(planned, i, oks[0]);
        match a {
            ActionKind::Execute(_) => seq![a] + actions_from(planned, i + 1, oks.drop_first()),
            _ => seq![a],
        }
    }
}

/// All the actions of a batch that was given rows.
pub open spec fn batch_actions(planned: nat, oks: Seq<bool>) -> Seq<ActionKind> {
    seq![first_action(true, planned)] + if planned == 0 {
        Seq::empty()
    } else {
        actions_from(planned, 0, oks)
    }
}

/// A batch insert: all its rows in one transaction, which is committed only
/// when every row went in. Rows with no values are passed over.
pub struct BatchInsert {
    statements: Vec<Statement>,
    given: bool,
}

/// The rows that hold values.
pub open spec fn non_empty_rows(rows: Seq<FieldMap<DbValue>>) -> Seq<FieldMap<DbValue>> {
    rows.filter(|r: FieldMap<DbValue>| r.entries().len() > 0)
}

impl BatchInsert {
    pub closed spec fn planned(&self) -> Seq<Statement> {
        self.statements@
    }

    pub closed spec fn given(&self) -> bool {
        self.given
    }

    /// Plans one insert statement for each row that holds values, in order.
    pub fn new(table_name: &str, rows: Vec<FieldMap<DbValue>>) -> (r: Self)
        ensures
            r.given() == (rows@.len() > 0),
            r.planned().len() == non_empty_rows(rows@).len(),
            forall|i: int|
                0 <= i < r.planned().len() ==> {
                    let row = non_empty_rows(rows@)[i];
                    &&& (#[trigger] r.planned()[i]).sql@ == insert_sql(
                        table_name@,
                        keys_of(entry_models(row.entries())),
                    )
                    &&& param_models(r.planned()[i]) == values_of(entry_models(row.entries()))
                },
    {
        let given = rows.len() > 0;
        let ghost src = rows@;
        let mut rest = rows;
        let mut done: Ghost<Seq<FieldMap<DbValue>>> = Ghost(Seq::empty());
        let mut statements: Vec<Statement> = Vec::new();
        while rest.len() > 0
            invariant
                src == done@ + rest@,
                statements@.len() == non_empty_rows(done@).len(),
                forall|i: int|
                    0 <= i < statements@.len() ==> {
                        let row = non_empty_rows(done@)[i];
                        &&& (#[trigger] statements@[i]).sql@ == insert_sql(
                            table_name@,
                            keys_of(entry_models(row.entries())),
                        )
                        &&& param_models(statements@[i]) == values_of(
                            entry_models(row.entries()),
                        )
                    },
            decreases rest.len(),
        {
            let row = rest.remove(0);
            let ghost before = done@;
            proof {
                done@ = done@.push(row);
                reveal(Seq::filter);
                assert(done@.drop_last() =~= before);
            }
            match insert_statement(table_name, row) {
                Ok(s) => {
                    statements.push(s);
                },
                Err(_) => {},
            }
            proof {
                assert(src =~= done@ + rest@);
            }
        }
        proof {
            assert(done@ =~= src);
        }
        BatchInsert { statements, given }
    }

    /// How many statements the batch runs.
    pub fn len(&self) -> (r: usize)
        ensures
            r == self.planned().len(),
    {
        self.statements.len()
    }

    /// The statement at position `i`.
    pub fn statement(&self, i: usize) -> (r: &Statement)
        requires
            i < self.planned().len(),
        ensures
            *r == self.planned()[i as int],
    {
        &self.statements[i]
    }

    /// What to do first. Only an empty batch is done without a transaction.
    pub fn first(&self) -> (r: BatchAction)
        ensures
            action_kind(r) == first_action(self.given(), self.planned().len()),
    {
        if !self.given {
            BatchAction::Done(0)
        } else if self.statements.len() == 0 {
            BatchAction::Commit(0)
        } else {
            BatchAction::Execute(0)
        }
    }

    /// What to do once statement `i` ran: go on with the next, commit after
    /// the last, or roll back at the first failure and report it.
    pub fn after(&self, i: usize, outcome: Result<(), DatabaseError>) -> (r: BatchAction)
        requires
            i < self.planned().len(),
        ensures
            action_kind(r) == next_action(self.planned().len(), i as nat, outcome is Ok),
            outcome matches Err(e) ==> r matches BatchAction::Rollback(f) && f == e,
    {
        match outcome {
            Err(e) => BatchAction::Rollback(e),
            Ok(()) => {
                if i >= self.statements.len() - 1 {
                    BatchAction::Commit(self.statements.len() as u64)
                } else {
                    BatchAction::Execute(i + 1)
                }
            },
        }
    }
}

/// Statements run with the given successes from position `i` on: when
/// statement `i + j` fails and all before it went in, the run ends there
/// with a rollback, and no commit comes at all.
proof fn lemma_fail_from(planned: nat, i: nat, j: nat, oks: Seq<bool>)
    requires
        i + j < planned,
        j < oks.len(),
        !oks[j as int],
        forall|k: int| 0 <= k < j ==> oks[k],
    ensures
        actions_from(planned, i, oks).len() == j + 1,
        actions_from(planned, i, oks).last() == ActionKind::Rollback,
        forall|k: int|
            0 <= k < actions_from(planned, i, oks).len() ==> !(#[trigger] actions_from(
                planned,
                i,
                oks,
            )[k] is Commit),
    decreases j,
{
    if j > 0 {
        assert(oks[0]);
        lemma_fail_from(planned, i + 1, (j - 1) as nat, oks.drop_first());
    }
}

/// A batch in which one statement fails after all before it went in ends
/// in a rollback and is never committed, so none of its rows stays.
pub proof fn lemma_batch_atomic(planned: nat, j: nat, oks: Seq<bool>)
    requires
        j < planned,
        j < oks.len(),
        !oks[j as int],
        forall|k: int| 0 <= k < j ==> oks[k],
    ensures
        batch_actions(planned, oks).last() == ActionKind::Rollback,
        forall|k: int|
            0 <= k < batch_actions(planned, oks).len() ==> !(#[trigger] batch_actions(
                planned,
                oks,
            )[k] is Commit),
{
    lemma_fail_from(planned, 0, j, oks);
}

/// A batch in which every statement goes in ends in one commit of them all.
pub proof fn lemma_batch_all_in(planned: nat, oks: Seq<bool>)
    requires
        planned > 0,
        oks.len() == planned,
        forall|k: int| 0 <= k < oks.len() ==> oks[k],
    ensures
        batch_actions(planned, oks).last() == ActionKind::Commit(planned),
{
    lemma_all_in_from(planned, 0, oks);
}

proof fn lemma_all_in_from(planned: nat, i: nat, oks: Seq<bool>)
    requires
        i < planned,
        oks.len() == planned - i,
        forall|k: int| 0 <= k < oks.len() ==> oks[k],
    ensures
        actions_from(planned, i, oks).len() > 0,
        actions_from(planned, i, oks).last() == ActionKind::Commit(planned),
    decreases oks.len(),
{
    if i + 1 < planned {
        lemma_all_in_from(planned, i + 1, oks.drop_first());
    }
}

} // verus!
