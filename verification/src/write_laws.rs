//! What a whole region write does, over every answer of the database.

use vstd::prelude::*;
use crate::manager::{
    after_write, assign_from, fetched_outcome, step, FlowAction, FlowStage, RegionWrite,
    Statement, StatementResult, WriteOutcome,
};
use crate::models::ApiRegion;

verus! {

/// The actions of a write that receives these answers in turn, and its state
/// after the last one.
pub open spec fn run(f: RegionWrite, replies: Seq<StatementResult>) -> (RegionWrite, Seq<FlowAction>)
    decreases replies.len(),
{
    if replies.len() == 0 {
        (f, Seq::empty())
    } else {
        let next = step(f, replies[0]);
        let rest = run(next.0, replies.drop_first());
        (rest.0, seq![next.1] + rest.1)
    }
}

/// `n` statements in a row that succeed without an answer of their own.
pub open spec fn executed(n: nat) -> Seq<StatementResult> {
    Seq::new(n, |k: int| StatementResult::Executed)
}

/// The assignment of the nodes from index `from` on to `region`, in order.
pub open spec fn assignments(region: u128, ns: Seq<u128>, from: int) -> Seq<FlowAction> {
    Seq::new(
        (ns.len() - from) as nat,
        |k: int| FlowAction::Execute(Statement::AssignNode(ns[from + k], region)),
    )
}

/// The statements that give `region` exactly the requested nodes: none when
/// the request names no nodes, else clearing its assignments, then assigning
/// each node in the order of the request.
pub open spec fn node_statements(region: u128, nodes: Option<Vec<u128>>) -> Seq<FlowAction> {
    match nodes {
        Some(ns) => seq![FlowAction::Execute(Statement::ClearNodeAssignments(region))]
            + assignments(region, ns@, 0),
        None => Seq::empty(),
    }
}

/// How many statements [`node_statements`] holds.
pub open spec fn node_statement_count(nodes: Option<Vec<u128>>) -> nat {
    match nodes {
        Some(ns) => ns@.len() + 1,
        None => 0,
    }
}

/// The write's node list fits in memory, as every vector's does.
pub open spec fn nodes_fit(f: RegionWrite) -> bool {
    f.nodes matches Some(ns) ==> ns@.len() <= usize::MAX
}

/// The answers of a successful write: the insert or update, the node
/// statements, the commit, then the region read back.
pub open spec fn success_replies(
    written: StatementResult,
    nodes: Option<Vec<u128>>,
    found: Option<ApiRegion>,
) -> Seq<StatementResult> {
    seq![StatementResult::Executed, written] + executed(node_statement_count(nodes))
        + seq![StatementResult::Executed, StatementResult::RegionFetched(found)]
}

/// The actions of a successful write on `region`, from the insert or update
/// `w` on.
pub open spec fn success_actions(
    w: Statement,
    region: u128,
    nodes: Option<Vec<u128>>,
    outcome: WriteOutcome,
) -> Seq<FlowAction> {
    seq![FlowAction::Execute(w)] + node_statements(region, nodes) + seq![
        FlowAction::Execute(Statement::CommitTransaction),
        FlowAction::Execute(Statement::FetchRegion(region)),
        FlowAction::Finish(outcome),
    ]
}

proof fn lemma_run_len(f: RegionWrite, replies: Seq<StatementResult>)
    ensures
        run(f, replies).1.len() == replies.len(),
    decreases replies.len(),
{
    if replies.len() > 0 {
        lemma_run_len(step(f, replies[0]).0, replies.drop_first());
    }
}

proof fn lemma_finished_stays(f: RegionWrite, replies: Seq<StatementResult>)
    requires
        f.stage is Finished,
    ensures
        run(f, replies).0.stage is Finished,
        forall|j: int|
            0 <= j < replies.len() ==> run(f, replies).1[j] == FlowAction::Finish(
                WriteOutcome::Failed,
            ),
    decreases replies.len(),
{
    lemma_run_len(f, replies);
    if replies.len() > 0 {
        let next = step(f, replies[0]);
        lemma_finished_stays(next.0, replies.drop_first());
        lemma_run_len(next.0, replies.drop_first());
        assert forall|j: int| 0 <= j < replies.len() implies run(f, replies).1[j]
            == FlowAction::Finish(WriteOutcome::Failed) by {
            if j > 0 {
                assert(run(f, replies).1[j] == run(next.0, replies.drop_first()).1[j - 1]);
            }
        }
    }
}

/// A failed statement ends the write: it finishes as failed, and from the
/// failure on it executes no statement; so a statement, the commit among
/// them, is executed only while every earlier statement has succeeded.
pub proof fn lemma_failure_ends_write(f: RegionWrite, replies: Seq<StatementResult>, i: int)
    requires
        0 <= i < replies.len(),
        replies[i] is Failed,
    ensures
        run(f, replies).0.stage is Finished,
        run(f, replies).1.len() == replies.len(),
        forall|j: int|
            i <= j < replies.len() ==> run(f, replies).1[j] == FlowAction::Finish(
                WriteOutcome::Failed,
            ),
    decreases i,
{
    lemma_run_len(f, replies);
    let next = step(f, replies[0]);
    let rest = replies.drop_first();
    lemma_run_len(next.0, rest);
    if i == 0 {
        lemma_finished_stays(next.0, rest);
        assert forall|j: int| i <= j < replies.len() implies run(f, replies).1[j]
            == FlowAction::Finish(WriteOutcome::Failed) by {
            if j > 0 {
                assert(run(f, replies).1[j] == run(next.0, rest).1[j - 1]);
            }
        }
    } else {
        lemma_failure_ends_write(next.0, rest, i - 1);
        assert forall|j: int| i <= j < replies.len() implies run(f, replies).1[j]
            == FlowAction::Finish(WriteOutcome::Failed) by {
            assert(run(f, replies).1[j] == run(next.0, rest).1[j - 1]);
        }
    }
}

proof fn lemma_assignments(g: RegionWrite, ns: Seq<u128>, i: int, tail: Seq<StatementResult>)
    requires
        g.nodes matches Some(v) && v@ == ns,
        ns.len() <= usize::MAX,
        0 <= i <= ns.len(),
    ensures
        ({
            let first = assign_from(g, i);
            let later = run(first.0, executed((ns.len() - i) as nat) + tail);
            let committing = run(RegionWrite { stage: FlowStage::Committing, ..g }, tail);
            &&& later.0 == committing.0
            &&& seq![first.1] + later.1 == assignments(g.region, ns, i) + seq![
                FlowAction::Execute(Statement::CommitTransaction),
            ] + committing.1
        }),
    decreases ns.len() - i,
{
    let first = assign_from(g, i);
    if i == ns.len() {
        assert(executed(0) + tail =~= tail);
        assert(assignments(g.region, ns, i) =~= Seq::<FlowAction>::empty());
        assert(seq![first.1] + run(first.0, tail).1 =~= assignments(g.region, ns, i) + seq![
            FlowAction::Execute(Statement::CommitTransaction),
        ] + run(RegionWrite { stage: FlowStage::Committing, ..g }, tail).1);
    } else {
        let replies = executed((ns.len() - i) as nat) + tail;
        assert(replies[0] == StatementResult::Executed);
        assert(replies.drop_first() =~= executed((ns.len() - (i + 1)) as nat) + tail);
        assert(step(first.0, replies[0]) == assign_from(g, i + 1));
        lemma_assignments(g, ns, i + 1, tail);
        let committing = run(RegionWrite { stage: FlowStage::Committing, ..g }, tail);
        assert(assignments(g.region, ns, i) =~= seq![
            FlowAction::Execute(Statement::AssignNode(ns[i], g.region)),
        ] + assignments(g.region, ns, i + 1));
        assert(seq![first.1] + run(first.0, replies).1 =~= assignments(g.region, ns, i) + seq![
            FlowAction::Execute(Statement::CommitTransaction),
        ] + committing.1);
    }
}

/// From the insert or update of the region on, a write that gets a success
/// for each statement clears and reassigns the requested nodes, commits, and
/// reads the region back.
proof fn lemma_after_write(g: RegionWrite, found: Option<ApiRegion>)
    requires
        nodes_fit(g),
    ensures
        ({
            let first = after_write(g);
            let tail = executed(node_statement_count(g.nodes)) + seq![
                StatementResult::Executed,
                StatementResult::RegionFetched(found),
            ];
            let later = run(first.0, tail);
            &&& later.0.stage is Finished
            &&& seq![first.1] + later.1 == node_statements(g.region, g.nodes) + seq![
                FlowAction::Execute(Statement::CommitTransaction),
                FlowAction::Execute(Statement::FetchRegion(g.region)),
                FlowAction::Finish(fetched_outcome(g.creating, found)),
            ]
        }),
{
    let first = after_write(g);
    let fetch_tail = seq![StatementResult::Executed, StatementResult::RegionFetched(found)];
    let committing = RegionWrite { stage: FlowStage::Committing, ..g };
    let fetching = RegionWrite { stage: FlowStage::Fetching, ..g };
    // the commit, then the read back
    reveal_with_fuel(run, 3);
    assert(fetch_tail.drop_first() =~= seq![StatementResult::RegionFetched(found)]);
    assert(seq![StatementResult::RegionFetched(found)].drop_first() =~= Seq::<
        StatementResult,
    >::empty());
    assert(step(committing, fetch_tail[0]).0 == fetching);
    let finish = run(committing, fetch_tail);
    assert(finish.1 =~= seq![
        FlowAction::Execute(Statement::FetchRegion(g.region)),
        FlowAction::Finish(fetched_outcome(g.creating, found)),
    ]);
    assert(finish.0.stage is Finished);
    match g.nodes {
        Some(v) => {
            let ns = v@;
            let tail = executed(ns.len() + 1) + fetch_tail;
            assert(tail[0] == StatementResult::Executed);
            assert(tail.drop_first() =~= executed(ns.len()) + fetch_tail);
            assert(step(first.0, tail[0]) == assign_from(g, 0));
            lemma_assignments(g, ns, 0, fetch_tail);
            assert(seq![first.1] + run(first.0, tail).1 =~= node_statements(g.region, g.nodes)
                + seq![
                FlowAction::Execute(Statement::CommitTransaction),
                FlowAction::Execute(Statement::FetchRegion(g.region)),
                FlowAction::Finish(fetched_outcome(g.creating, found)),
            ]);
        },
        None => {
            assert(executed(0) + fetch_tail =~= fetch_tail);
            assert(first.0 == committing);
            assert(seq![first.1] + finish.1 =~= node_statements(g.region, g.nodes) + seq![
                FlowAction::Execute(Statement::CommitTransaction),
                FlowAction::Execute(Statement::FetchRegion(g.region)),
                FlowAction::Finish(fetched_outcome(g.creating, found)),
            ]);
        },
    }
}

/// The region read back after the commit is what the write returns: a
/// creation returns exactly that region, or reports it missing when nothing
/// could be read; an update returns what it read, `None` included.
pub proof fn lemma_read_back_is_the_outcome(f: RegionWrite, found: Option<ApiRegion>)
    requires
        f.stage is Fetching,
    ensures
        step(f, StatementResult::RegionFetched(found)).0.stage is Finished,
        f.creating && found is Some ==> step(f, StatementResult::RegionFetched(found)).1
            == FlowAction::Finish(WriteOutcome::Created(found->0)),
        f.creating && found is None ==> step(f, StatementResult::RegionFetched(found)).1
            == FlowAction::Finish(WriteOutcome::MissingAfterCreate),
        !f.creating ==> step(f, StatementResult::RegionFetched(found)).1 == FlowAction::Finish(
            WriteOutcome::Updated(found),
        ),
{
}

/// A creation whose every statement succeeds, the insert answering with the
/// UUID `u`: it inserts the row, clears and reassigns the requested nodes of
/// region `u` (when the request names nodes), commits, reads region `u` back,
/// and returns it, or reports it missing when it cannot be read.
pub proof fn lemma_create_succeeds(f: RegionWrite, u: u128, found: Option<ApiRegion>)
    requires
        f.creating,
        f.stage is Beginning,
        f.write is Some,
        nodes_fit(f),
    ensures
        ({
            let result = run(
                f,
                success_replies(StatementResult::RegionInserted(u), f.nodes, found),
            );
            &&& result.0.stage is Finished
            &&& result.1 == success_actions(
                f.write->0,
                u,
                f.nodes,
                match found {
                    Some(r) => WriteOutcome::Created(r),
                    None => WriteOutcome::MissingAfterCreate,
                },
            )
        }),
{
    reveal_with_fuel(run, 2);
    let replies = success_replies(StatementResult::RegionInserted(u), f.nodes, found);
    let tail = executed(node_statement_count(f.nodes)) + seq![
        StatementResult::Executed,
        StatementResult::RegionFetched(found),
    ];
    let w = f.write->0;
    let writing = RegionWrite { write: None, stage: FlowStage::Writing, ..f };
    assert(step(f, replies[0]) == (writing, FlowAction::Execute(w)));
    assert(replies.drop_first() =~= seq![StatementResult::RegionInserted(u)] + tail);
    let g = RegionWrite { region: u, ..writing };
    assert(step(writing, StatementResult::RegionInserted(u)) == after_write(g));
    assert((seq![StatementResult::RegionInserted(u)] + tail).drop_first() =~= tail);
    lemma_after_write(g, found);
    assert(run(f, replies).1 =~= success_actions(w, u, f.nodes, fetched_outcome(true, found)));
    lemma_read_back_is_the_outcome(RegionWrite { stage: FlowStage::Fetching, ..g }, found);
}

/// An update of an existing region whose every statement succeeds: it
/// updates the row, clears and reassigns the requested nodes (when the
/// request names nodes), commits, reads the region back and returns what it
/// read.
pub proof fn lemma_update_succeeds(f: RegionWrite, answered: u128, found: Option<ApiRegion>)
    requires
        !f.creating,
        f.stage is Beginning,
        f.write is Some,
        nodes_fit(f),
    ensures
        ({
            let result = run(
                f,
                success_replies(StatementResult::RegionUpdated(Some(answered)), f.nodes, found),
            );
            &&& result.0.stage is Finished
            &&& result.1 == success_actions(
                f.write->0,
                f.region,
                f.nodes,
                WriteOutcome::Updated(found),
            )
        }),
{
    reveal_with_fuel(run, 2);
    let replies = success_replies(StatementResult::RegionUpdated(Some(answered)), f.nodes, found);
    let tail = executed(node_statement_count(f.nodes)) + seq![
        StatementResult::Executed,
        StatementResult::RegionFetched(found),
    ];
    let w = f.write->0;
    let writing = RegionWrite { write: None, stage: FlowStage::Writing, ..f };
    assert(step(f, replies[0]) == (writing, FlowAction::Execute(w)));
    assert(replies.drop_first() =~= seq![StatementResult::RegionUpdated(Some(answered))] + tail);
    assert(step(writing, StatementResult::RegionUpdated(Some(answered))) == after_write(writing));
    assert((seq![StatementResult::RegionUpdated(Some(answered))] + tail).drop_first() =~= tail);
    lemma_after_write(writing, found);
    assert(run(f, replies).1 =~= success_actions(
        w,
        f.region,
        f.nodes,
        WriteOutcome::Updated(found),
    ));
}

/// An update of a region that does not exist ends right after the update
/// statement, reporting that no region was found: no node is touched and
/// nothing is committed.
pub proof fn lemma_update_of_missing_region(f: RegionWrite)
    requires
        !f.creating,
        f.stage is Beginning,
        f.write is Some,
    ensures
        ({
            let result = run(
                f,
                seq![StatementResult::Executed, StatementResult::RegionUpdated(None)],
            );
            &&& result.0.stage is Finished
            &&& result.1 == seq![
                FlowAction::Execute(f.write->0),
                FlowAction::Finish(WriteOutcome::Updated(None)),
            ]
        }),
{
    reveal_with_fuel(run, 3);
    let replies = seq![StatementResult::Executed, StatementResult::RegionUpdated(None)];
    assert(replies.drop_first() =~= seq![StatementResult::RegionUpdated(None)]);
    assert(seq![StatementResult::RegionUpdated(None)].drop_first() =~= Seq::<
        StatementResult,
    >::empty());
    assert(run(f, replies).1 =~= seq![
        FlowAction::Execute(f.write->0),
        FlowAction::Finish(WriteOutcome::Updated(None)),
    ]);
}

/// Whether an outcome is one that a write of this kind can end with: a
/// creation ends created, missing or failed; an update ends updated or
/// failed.
pub open spec fn outcome_fits(creating: bool, o: WriteOutcome) -> bool {
    if creating {
        !(o is Updated)
    } else {
        o is Updated || o is Failed
    }
}

/// A write keeps its kind, and ends only with an outcome of its kind, whatever
/// the database answers.
pub proof fn lemma_outcome_fits_write(f: RegionWrite, replies: Seq<StatementResult>)
    ensures
        run(f, replies).0.creating == f.creating,
        forall|j: int|
            0 <= j < run(f, replies).1.len() ==> (#[trigger] run(f, replies).1[j] matches FlowAction::Finish(o)
                ==> outcome_fits(f.creating, o)),
    decreases replies.len(),
{
    if replies.len() > 0 {
        let next = step(f, replies[0]);
        let rest = replies.drop_first();
        assert(next.0.creating == f.creating);
        assert(next.1 matches FlowAction::Finish(o) ==> outcome_fits(f.creating, o));
        lemma_outcome_fits_write(next.0, rest);
        assert forall|j: int| 0 <= j < run(f, replies).1.len() implies (#[trigger] run(f, replies).1[j] matches FlowAction::Finish(o)
            ==> outcome_fits(f.creating, o)) by {
            if j > 0 {
                assert(run(f, replies).1[j] == run(next.0, rest).1[j - 1]);
            }
        }
    }
}

proof fn lemma_success_positions(
    w: Statement,
    region: u128,
    nodes: Option<Vec<u128>>,
    outcome: WriteOutcome,
)
    ensures
        ({
            let a = success_actions(w, region, nodes, outcome);
            &&& a[0] == FlowAction::Execute(w)
            &&& nodes is None ==> {
                &&& a.len() == 4
                &&& a[1] == FlowAction::Execute(Statement::CommitTransaction)
                &&& a[2] == FlowAction::Execute(Statement::FetchRegion(region))
                &&& a[3] == FlowAction::Finish(outcome)
            }
            &&& nodes is Some ==> {
                let n = nodes->0@.len() as int;
                &&& a.len() == n + 5
                &&& a[1] == FlowAction::Execute(Statement::ClearNodeAssignments(region))
                &&& forall|k: int|
                    0 <= k < n ==> #[trigger] a[2 + k] == FlowAction::Execute(
                        Statement::AssignNode(nodes->0@[k], region),
                    )
                &&& a[n + 2] == FlowAction::Execute(Statement::CommitTransaction)
                &&& a[n + 3] == FlowAction::Execute(Statement::FetchRegion(region))
                &&& a[n + 4] == FlowAction::Finish(outcome)
            }
        }),
{
    let a = success_actions(w, region, nodes, outcome);
    if nodes is Some {
        let n = nodes->0@.len() as int;
        let clear = seq![FlowAction::Execute(Statement::ClearNodeAssignments(region))];
        let assigns = assignments(region, nodes->0@, 0);
        assert(node_statements(region, nodes) == clear + assigns);
        assert forall|k: int| 0 <= k < n implies #[trigger] a[2 + k] == FlowAction::Execute(
            Statement::AssignNode(nodes->0@[k], region),
        ) by {
            assert(a[2 + k] == assigns[k]);
        }
    }
}

/// A creation from a request whose every statement succeeds runs, in this
/// order: the insert; when the request names nodes, the clearing of the new
/// region's assignments and the assignment of each requested node, in the
/// request's order, to the new region; the commit; the read back of the new
/// region. It returns exactly the region read back, or reports it missing.
pub proof fn lemma_create_statements_in_order(f: RegionWrite, u: u128, found: Option<ApiRegion>)
    requires
        f.creating,
        f.stage is Beginning,
        f.write is Some,
        nodes_fit(f),
    ensures
        ({
            let a = run(f, success_replies(StatementResult::RegionInserted(u), f.nodes, found)).1;
            let outcome = if found is Some {
                WriteOutcome::Created(found->0)
            } else {
                WriteOutcome::MissingAfterCreate
            };
            &&& a[0] == FlowAction::Execute(f.write->0)
            &&& f.nodes is None ==> {
                &&& a.len() == 4
                &&& a[1] == FlowAction::Execute(Statement::CommitTransaction)
                &&& a[2] == FlowAction::Execute(Statement::FetchRegion(u))
                &&& a[3] == FlowAction::Finish(outcome)
            }
            &&& f.nodes is Some ==> {
                let n = f.nodes->0@.len() as int;
                &&& a.len() == n + 5
                &&& a[1] == FlowAction::Execute(Statement::ClearNodeAssignments(u))
                &&& forall|k: int|
                    0 <= k < n ==> #[trigger] a[2 + k] == FlowAction::Execute(
                        Statement::AssignNode(f.nodes->0@[k], u),
                    )
                &&& a[n + 2] == FlowAction::Execute(Statement::CommitTransaction)
                &&& a[n + 3] == FlowAction::Execute(Statement::FetchRegion(u))
                &&& a[n + 4] == FlowAction::Finish(outcome)
            }
        }),
{
    lemma_create_succeeds(f, u, found);
    let outcome = if found is Some {
        WriteOutcome::Created(found->0)
    } else {
        WriteOutcome::MissingAfterCreate
    };
    lemma_success_positions(f.write->0, u, f.nodes, outcome);
}

/// An update of an existing region whose every statement succeeds runs, in
/// this order: the update; when the request names nodes, the clearing of the
/// region's assignments and the assignment of each requested node, in the
/// request's order, to the region; the commit; the read back of the region.
/// It returns exactly what it read back.
pub proof fn lemma_update_statements_in_order(
    f: RegionWrite,
    answered: u128,
    found: Option<ApiRegion>,
)
    requires
        !f.creating,
        f.stage is Beginning,
        f.write is Some,
        nodes_fit(f),
    ensures
        ({
            let a = run(
                f,
                success_replies(StatementResult::RegionUpdated(Some(answered)), f.nodes, found),
            ).1;
            let r = f.region;
            &&& a[0] == FlowAction::Execute(f.write->0)
            &&& f.nodes is None ==> {
                &&& a.len() == 4
                &&& a[1] == FlowAction::Execute(Statement::CommitTransaction)
                &&& a[2] == FlowAction::Execute(Statement::FetchRegion(r))
                &&& a[3] == FlowAction::Finish(WriteOutcome::Updated(found))
            }
            &&& f.nodes is Some ==> {
                let n = f.nodes->0@.len() as int;
                &&& a.len() == n + 5
                &&& a[1] == FlowAction::Execute(Statement::ClearNodeAssignments(r))
                &&& forall|k: int|
                    0 <= k < n ==> #[trigger] a[2 + k] == FlowAction::Execute(
                        Statement::AssignNode(f.nodes->0@[k], r),
                    )
                &&& a[n + 2] == FlowAction::Execute(Statement::CommitTransaction)
                &&& a[n + 3] == FlowAction::Execute(Statement::FetchRegion(r))
                &&& a[n + 4] == FlowAction::Finish(WriteOutcome::Updated(found))
            }
        }),
{
    lemma_update_succeeds(f, answered, found);
    lemma_success_positions(f.write->0, f.region, f.nodes, WriteOutcome::Updated(found));
}

} // verus!
