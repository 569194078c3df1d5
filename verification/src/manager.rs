//! Creating and changing a region inside one database transaction.
//!
//! A write runs as a dialogue with the database: [`RegionWrite`] names the
//! next statement to execute, the caller executes it and hands back what the
//! database answered, and the write names the following statement, until it
//! finishes with an outcome. A statement that fails ends the write at once:
//! the transaction is then never committed.

use vstd::prelude::*;
use crate::models::{ApiRegion, CreateRegionRequest, UpdateRegionRequest};

verus! {

/// The upper-case form of a string, as `str::to_uppercase` gives it.
pub uninterp spec fn uppercase(s: Seq<char>) -> Seq<char>;

/// Calls `str::to_uppercase`, whose result is named [`uppercase`] of the
/// argument's characters; nothing more of the Unicode case mapping is stated.
#[verifier::external_body]
fn to_uppercase(s: &str) -> (r: String)
    ensures
        r@ == uppercase(s@),
{
    s.to_uppercase()
}

/// The values of a new region's row.
pub struct RegionInsert {
    pub name: String,
    pub country_code: String,
    pub city: Option<String>,
    pub visible: bool,
}

/// The changes of an update: `None` keeps a stored value; the city is
/// overwritten with `city` exactly when `replace_city` holds.
pub struct RegionChanges {
    pub name: Option<String>,
    pub country_code: Option<String>,
    pub replace_city: bool,
    pub city: Option<String>,
    pub visible: Option<bool>,
}

/// One statement of a region write.
pub enum Statement {
    BeginTransaction,
    /// Inserts the row; the database answers with the new region's UUID.
    InsertRegion(RegionInsert),
    /// Updates the region with this UUID; the database answers with the UUID
    /// when the region exists.
    UpdateRegion(u128, RegionChanges),
    /// Removes every node assignment of the region.
    ClearNodeAssignments(u128),
    /// Assigns the node (first) to the region (second), moving it away from
    /// any region that held it.
    AssignNode(u128, u128),
    CommitTransaction,
    /// Reads the region back.
    FetchRegion(u128),
}

/// What the database answered to a statement.
pub enum StatementResult {
    Executed,
    RegionInserted(u128),
    RegionUpdated(Option<u128>),
    RegionFetched(Option<ApiRegion>),
    Failed,
}

/// How a region write ended.
pub enum WriteOutcome {
    Created(ApiRegion),
    /// `None`: no region has the UUID of the update.
    Updated(Option<ApiRegion>),
    /// The region was committed but could not be read back.
    MissingAfterCreate,
    /// A statement failed, or the database answered out of turn.
    Failed,
}

/// Why a region write did not give a region back.
#[derive(PartialEq, Eq, Structural, Clone, Copy, Debug)]
pub enum WriteError {
    /// A statement failed; the transaction was not committed.
    Database,
    /// The region was created but could not be read back.
    RegionMissingAfterCreate,
}

/// The message of [`WriteError::RegionMissingAfterCreate`].
pub const REGION_MISSING_AFTER_CREATE: &'static str = "region not found after creation";

impl WriteOutcome {
    /// The result of a creation: the new region, or why there is none.
    pub fn into_created(self) -> (r: Result<ApiRegion, WriteError>)
        ensures
            match self {
                WriteOutcome::Created(region) => r == Ok::<ApiRegion, WriteError>(region),
                WriteOutcome::MissingAfterCreate => r == Err::<ApiRegion, WriteError>(
                    WriteError::RegionMissingAfterCreate,
                ),
                _ => r == Err::<ApiRegion, WriteError>(WriteError::Database),
            },
    {
        match self {
            WriteOutcome::Created(region) => Ok(region),
            WriteOutcome::MissingAfterCreate => Err(WriteError::RegionMissingAfterCreate),
            _ => Err(WriteError::Database),
        }
    }

    /// The result of an update: the changed region, `None` when no region
    /// has the UUID, or why there is no answer.
    pub fn into_updated(self) -> (r: Result<Option<ApiRegion>, WriteError>)
        ensures
            match self {
                WriteOutcome::Updated(found) => r == Ok::<Option<ApiRegion>, WriteError>(found),
                WriteOutcome::MissingAfterCreate => r == Err::<Option<ApiRegion>, WriteError>(
                    WriteError::RegionMissingAfterCreate,
                ),
                _ => r == Err::<Option<ApiRegion>, WriteError>(WriteError::Database),
            },
    {
        match self {
            WriteOutcome::Updated(found) => Ok(found),
            WriteOutcome::MissingAfterCreate => Err(WriteError::RegionMissingAfterCreate),
            _ => Err(WriteError::Database),
        }
    }
}

/// Whether a deletion removed the region: it did exactly when the statement
/// affected a row.
pub fn region_deleted(rows_affected: u64) -> (r: bool)
    ensures
        r == (rows_affected > 0),
{
    rows_affected > 0
}

/// What the caller does next.
pub enum FlowAction {
    Execute(Statement),
    Finish(WriteOutcome),
}

/// Where a write stands: each stage waits for the answer to one statement.
pub enum FlowStage {
    Beginning,
    Writing,
    Clearing,
    /// Waiting for the assignment of the node at this index.
    Assigning(usize),
    Committing,
    Fetching,
    Finished,
}

/// A region write in progress.
pub struct RegionWrite {
    /// Whether the write creates a region (else it updates one).
    pub creating: bool,
    /// The insert or update, until it is executed.
    pub write: Option<Statement>,
    /// The region written: known from the start for an update, from the
    /// insert's answer for a creation (0 until then).
    pub region: u128,
    /// The nodes that the region is to hold, when the request names them.
    pub nodes: Option<Vec<u128>>,
    pub stage: FlowStage,
}

/// The insert that a creation request asks for: the country code in upper
/// case, and a region visible unless the request says otherwise.
pub open spec fn is_insert_of(p: RegionInsert, req: CreateRegionRequest) -> bool {
    &&& p.name == req.name
    &&& p.country_code@ == uppercase(req.country_code@)
    &&& p.city == req.city
    &&& p.visible == match req.visible {
        Some(v) => v,
        None => true,
    }
}

/// Whether an update request overwrites the city: when it names a city, or
/// when it names an empty country code.
pub open spec fn replaces_city(req: UpdateRegionRequest) -> bool {
    ||| req.city is Some
    ||| (req.country_code matches Some(c) && c@.len() == 0)
}

/// The changes that an update request asks for.
pub open spec fn is_changes_of(c: RegionChanges, req: UpdateRegionRequest) -> bool {
    &&& c.name == req.name
    &&& c.country_code == req.country_code
    &&& c.replace_city == replaces_city(req)
    &&& c.city == req.city
    &&& c.visible == req.visible
}

/// The values of a new region's row, from a creation request.
pub fn insert_params(req: &CreateRegionRequest) -> (p: RegionInsert)
    ensures
        is_insert_of(p, *req),
{
    let country_code = to_uppercase(req.country_code.as_str());
    let visible = match req.visible {
        Some(v) => v,
        None => true,
    };
    RegionInsert { name: req.name.clone(), country_code, city: req.city.clone(), visible }
}

/// The changes of an update, from an update request.
pub fn update_params(req: &UpdateRegionRequest) -> (c: RegionChanges)
    ensures
        is_changes_of(c, *req),
{
    let empty_country_code = match &req.country_code {
        Some(cc) => cc.as_str().is_empty(),
        None => false,
    };
    let replace_city = req.city.is_some() || empty_country_code;
    RegionChanges {
        name: req.name.clone(),
        country_code: req.country_code.clone(),
        replace_city,
        city: req.city.clone(),
        visible: req.visible,
    }
}

/// Starts the creation of a region: the write begins a transaction, then
/// inserts the row that the request asks for.
pub fn start_create(req: CreateRegionRequest) -> (r: (RegionWrite, FlowAction))
    ensures
        r.0.creating,
        r.0.write matches Some(Statement::InsertRegion(p)) && is_insert_of(p, req),
        r.0.region == 0,
        r.0.nodes == req.node_uuids,
        r.0.stage is Beginning,
        r.1 == FlowAction::Execute(Statement::BeginTransaction),
{
    let p = insert_params(&req);
    let w = RegionWrite {
        creating: true,
        write: Some(Statement::InsertRegion(p)),
        region: 0,
        nodes: req.node_uuids,
        stage: FlowStage::Beginning,
    };
    (w, FlowAction::Execute(Statement::BeginTransaction))
}

/// Starts the update of the region `uuid`: the write begins a transaction,
/// then updates the row with the changes that the request asks for.
pub fn start_update(uuid: u128, req: UpdateRegionRequest) -> (r: (RegionWrite, FlowAction))
    ensures
        !r.0.creating,
        r.0.write matches Some(Statement::UpdateRegion(u, c)) && u == uuid && is_changes_of(c, req),
        r.0.region == uuid,
        r.0.nodes == req.node_uuids,
        r.0.stage is Beginning,
        r.1 == FlowAction::Execute(Statement::BeginTransaction),
{
    let c = update_params(&req);
    let w = RegionWrite {
        creating: false,
        write: Some(Statement::UpdateRegion(uuid, c)),
        region: uuid,
        nodes: req.node_uuids,
        stage: FlowStage::Beginning,
    };
    (w, FlowAction::Execute(Statement::BeginTransaction))
}

/// The write ended: the stage is finished and nothing else changes.
pub open spec fn finished(f: RegionWrite) -> RegionWrite {
    RegionWrite { stage: FlowStage::Finished, ..f }
}

/// The write gives up: no statement follows.
pub open spec fn abort(f: RegionWrite) -> (RegionWrite, FlowAction) {
    (finished(f), FlowAction::Finish(WriteOutcome::Failed))
}

/// The statement that follows the assignments done so far: the assignment of
/// the node at index `i`, or the commit once every node is assigned.
pub open spec fn assign_from(f: RegionWrite, i: int) -> (RegionWrite, FlowAction) {
    match f.nodes {
        Some(ns) if 0 <= i < ns@.len() => (
            RegionWrite { stage: FlowStage::Assigning(i as usize), ..f },
            FlowAction::Execute(Statement::AssignNode(ns@[i], f.region)),
        ),
        _ => (
            RegionWrite { stage: FlowStage::Committing, ..f },
            FlowAction::Execute(Statement::CommitTransaction),
        ),
    }
}

/// The statement that follows the insert or update of the region: clearing
/// its node assignments when the request names nodes, else the commit.
pub open spec fn after_write(f: RegionWrite) -> (RegionWrite, FlowAction) {
    if f.nodes is Some {
        (
            RegionWrite { stage: FlowStage::Clearing, ..f },
            FlowAction::Execute(Statement::ClearNodeAssignments(f.region)),
        )
    } else {
        (
            RegionWrite { stage: FlowStage::Committing, ..f },
            FlowAction::Execute(Statement::CommitTransaction),
        )
    }
}

/// The outcome of a write from the region read back after the commit.
pub open spec fn fetched_outcome(creating: bool, found: Option<ApiRegion>) -> WriteOutcome {
    if creating {
        match found {
            Some(r) => WriteOutcome::Created(r),
            None => WriteOutcome::MissingAfterCreate,
        }
    } else {
        WriteOutcome::Updated(found)
    }
}

/// One turn of a region write: the state after the database's answer, and
/// what the caller does next. A failure, or an answer that does not fit the
/// statement asked for, ends the write with [`WriteOutcome::Failed`].
pub open spec fn step(f: RegionWrite, reply: StatementResult) -> (RegionWrite, FlowAction) {
    match f.stage {
        FlowStage::Beginning => match (reply, f.write) {
            (StatementResult::Executed, Some(w)) => (
                RegionWrite { write: None, stage: FlowStage::Writing, ..f },
                FlowAction::Execute(w),
            ),
            _ => abort(f),
        },
        FlowStage::Writing => match reply {
            StatementResult::RegionInserted(u) => if f.creating {
                after_write(RegionWrite { region: u, ..f })
            } else {
                abort(f)
            },
            StatementResult::RegionUpdated(found) => if f.creating {
                abort(f)
            } else if found is Some {
                after_write(f)
            } else {
                (finished(f), FlowAction::Finish(WriteOutcome::Updated(None)))
            },
            _ => abort(f),
        },
        FlowStage::Clearing => match reply {
            StatementResult::Executed => assign_from(f, 0),
            _ => abort(f),
        },
        FlowStage::Assigning(i) => match reply {
            StatementResult::Executed => assign_from(f, i + 1),
            _ => abort(f),
        },
        FlowStage::Committing => match reply {
            StatementResult::Executed => (
                RegionWrite { stage: FlowStage::Fetching, ..f },
                FlowAction::Execute(Statement::FetchRegion(f.region)),
            ),
            _ => abort(f),
        },
        FlowStage::Fetching => match reply {
            StatementResult::RegionFetched(found) => (
                finished(f),
                FlowAction::Finish(fetched_outcome(f.creating, found)),
            ),
            _ => abort(f),
        },
        FlowStage::Finished => abort(f),
    }
}

impl RegionWrite {
    /// Whether the write has ended.
    pub fn is_finished(&self) -> (r: bool)
        ensures
            r == (self.stage is Finished),
    {
        match self.stage {
            FlowStage::Finished => true,
            _ => false,
        }
    }

    /// Hands the database's answer to the write and returns what to do next.
    pub fn advance(&mut self, reply: StatementResult) -> (a: FlowAction)
        ensures
            (*final(self), a) == step(*old(self), reply),
    {
        match self.stage {
            FlowStage::Beginning => {
                match reply {
                    StatementResult::Executed => {
                        match self.write.take() {
                            Some(w) => {
                                self.stage = FlowStage::Writing;
                                FlowAction::Execute(w)
                            },
                            None => self.abort(),
                        }
                    },
                    _ => self.abort(),
                }
            },
            FlowStage::Writing => {
                match reply {
                    StatementResult::RegionInserted(u) => {
                        if self.creating {
                            self.region = u;
                            self.after_write()
                        } else {
                            self.abort()
                        }
                    },
                    StatementResult::RegionUpdated(found) => {
                        if self.creating {
                            self.abort()
                        } else if found.is_some() {
                            self.after_write()
                        } else {
                            self.stage = FlowStage::Finished;
                            FlowAction::Finish(WriteOutcome::Updated(None))
                        }
                    },
                    _ => self.abort(),
                }
            },
            FlowStage::Clearing => {
                match reply {
                    StatementResult::Executed => self.assign_from(0),
                    _ => self.abort(),
                }
            },
            FlowStage::Assigning(i) => {
                match reply {
                    StatementResult::Executed => self.assign_after(i),
                    _ => self.abort(),
                }
            },
            FlowStage::Committing => {
                match reply {
                    StatementResult::Executed => {
                        self.stage = FlowStage::Fetching;
                        FlowAction::Execute(Statement::FetchRegion(self.region))
                    },
                    _ => self.abort(),
                }
            },
            FlowStage::Fetching => {
                match reply {
                    StatementResult::RegionFetched(found) => {
                        self.stage = FlowStage::Finished;
                        if self.creating {
                            match found {
                                Some(r) => FlowAction::Finish(WriteOutcome::Created(r)),
                                None => FlowAction::Finish(WriteOutcome::MissingAfterCreate),
                            }
                        } else {
                            FlowAction::Finish(WriteOutcome::Updated(found))
                        }
                    },
                    _ => self.abort(),
                }
            },
            FlowStage::Finished => self.abort(),
        }
    }

    fn abort(&mut self) -> (a: FlowAction)
        ensures
            (*final(self), a) == abort(*old(self)),
    {
        self.stage = FlowStage::Finished;
        FlowAction::Finish(WriteOutcome::Failed)
    }

    fn after_write(&mut self) -> (a: FlowAction)
        ensures
            (*final(self), a) == after_write(*old(self)),
    {
        if self.nodes.is_some() {
            self.stage = FlowStage::Clearing;
            FlowAction::Execute(Statement::ClearNodeAssignments(self.region))
        } else {
            self.stage = FlowStage::Committing;
            FlowAction::Execute(Statement::CommitTransaction)
        }
    }

    fn assign_after(&mut self, i: usize) -> (a: FlowAction)
        ensures
            (*final(self), a) == assign_from(*old(self), i + 1),
    {
        let next = match &self.nodes {
            Some(ns) => if i < ns.len() && i + 1 < ns.len() {
                Some(ns[i + 1])
            } else {
                None
            },
            None => None,
        };
        match next {
            Some(node) => {
                self.stage = FlowStage::Assigning(i + 1);
                FlowAction::Execute(Statement::AssignNode(node, self.region))
            },
            None => {
                self.stage = FlowStage::Committing;
                FlowAction::Execute(Statement::CommitTransaction)
            },
        }
    }

    fn assign_from(&mut self, i: usize) -> (a: FlowAction)
        ensures
            (*final(self), a) == assign_from(*old(self), i as int),
    {
        let next = match &self.nodes {
            Some(ns) => if i < ns.len() {
                Some(ns[i])
            } else {
                None
            },
            None => None,
        };
        match next {
            Some(node) => {
                self.stage = FlowStage::Assigning(i);
                FlowAction::Execute(Statement::AssignNode(node, self.region))
            },
            None => {
                self.stage = FlowStage::Committing;
                FlowAction::Execute(Statement::CommitTransaction)
            },
        }
    }
}

} // verus!
