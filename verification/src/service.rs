//! The orchestration layer between a dispatcher and the in-process
//! store: decoded requests in, typed outcomes out.
//!
//! A dispatcher decodes transport input into a [`Request`], applies it
//! here, and encodes the [`Response`] or the failure — mapping each
//! failure to its outcome kind through [`crate::errors::status_kind`].
//! Applying a request performs exactly one step of the canonical state
//! machine of [`crate::semantics`]; listing returns a point-in-time
//! snapshot and moves nothing.

use vstd::prelude::*;

use crate::errors::StoreError;
use crate::memory::MemoryStore;
use crate::record::{Question, QuestionModel};
use crate::semantics::{step_result, step_state, Contents, Op, OpOutcome};

verus! {

/// One decoded request against the store.
pub enum Request {
    Get(u128),
    Create(Question),
    Replace(u128, Question),
    Delete(u128),
    SetAnswer(u128, String),
    List,
}

/// What a completed request hands back: a record snapshot for a
/// lookup, the created identifier for a create, a snapshot of every
/// record for a list, and a bare completion for the rest.
pub enum Response {
    Record(Question),
    Records(Vec<Question>),
    Created(u128),
    Done,
}

/// The state-machine operation a request denotes.  `List` denotes no
/// step — it is a snapshot — and is handled apart.
pub open spec fn request_op(req: Request) -> Op {
    match req {
        Request::Get(id) => Op::Get(id),
        Request::Create(q) => Op::Create(q@),
        Request::Replace(id, q) => Op::Replace(id, q@),
        Request::Delete(id) => Op::Delete(id),
        Request::SetAnswer(id, a) => Op::SetAnswer(id, a@),
        Request::List => vstd::pervasive::arbitrary(),
    }
}

/// The outcome a response stands for, compared against what the state
/// machine demands.
pub open spec fn response_model(r: Result<Response, StoreError>) -> Result<
    OpOutcome,
    StoreError,
> {
    match r {
        Ok(Response::Record(q)) => Ok(OpOutcome::Fetched(q@)),
        Ok(Response::Created(id)) => Ok(OpOutcome::Created(id)),
        Ok(Response::Done) => Ok(OpOutcome::Changed),
        Ok(Response::Records(_)) => Ok(OpOutcome::Changed),
        Err(e) => Err(e),
    }
}

/// The service owning an in-process store.  An embedding program that
/// serves concurrent callers guards one service with one
/// mutual-exclusion lock held across a whole `apply`, which makes each
/// request atomic.
pub struct ResourceService {
    store: MemoryStore,
}

impl ResourceService {
    /// The authoritative contents: one record model per identifier.
    pub closed spec fn contents(&self) -> Contents {
        self.store@
    }

    /// The service is well kept; established at construction and
    /// preserved by every request.
    pub closed spec fn wf(&self) -> bool {
        self.store.wf()
    }

    /// A service over an empty store.
    pub fn new() -> (r: ResourceService)
        ensures
            r.wf(),
            r.contents() == Map::<u128, QuestionModel>::empty(),
    {
        ResourceService { store: MemoryStore::new() }
    }

    /// Applies one decoded request.  Every request but `List` performs
    /// exactly one step of the canonical state machine: the state
    /// moves as the step demands and the response stands for the
    /// step's result.  `List` moves nothing and returns one snapshot
    /// of every record, each under its identifier, none repeated.
    pub fn apply(&mut self, req: Request) -> (r: Result<Response, StoreError>)
        requires
            old(self).wf(),
        ensures
            final(self).wf(),
            match req {
                Request::List => {
                    &&& final(self).contents() == old(self).contents()
                    &&& r matches Ok(Response::Records(out))
                    &&& out@.len() == old(self).contents().len()
                    &&& forall|i: int|
                        0 <= i < out@.len() ==> old(self).contents().contains_key(
                            (#[trigger] out@[i])@.id,
                        ) && old(self).contents()[out@[i]@.id] == out@[i]@
                    &&& forall|i: int, j: int|
                        0 <= i < j < out@.len() ==> (#[trigger] out@[i])@.id != (
                        #[trigger] out@[j])@.id
                },
                _ => {
                    &&& final(self).contents() == step_state(old(self).contents(), request_op(req))
                    &&& response_model(r) == step_result(old(self).contents(), request_op(req))
                    &&& !(r matches Ok(Response::Records(_)))
                },
            },
    {
        match req {
            Request::Get(id) => match self.store.get(id) {
                Ok(q) => Ok(Response::Record(q)),
                Err(e) => Err(e),
            },
            Request::Create(q) => match self.store.create(q) {
                Ok(id) => Ok(Response::Created(id)),
                Err(e) => Err(e),
            },
            Request::Replace(id, q) => match self.store.replace(id, q) {
                Ok(_) => Ok(Response::Done),
                Err(e) => Err(e),
            },
            Request::Delete(id) => match self.store.delete(id) {
                Ok(_) => Ok(Response::Done),
                Err(e) => Err(e),
            },
            Request::SetAnswer(id, a) => match self.store.set_answer(id, a) {
                Ok(_) => Ok(Response::Done),
                Err(e) => Err(e),
            },
            Request::List => Ok(Response::Records(self.store.list())),
        }
    }
}

} // verus!
