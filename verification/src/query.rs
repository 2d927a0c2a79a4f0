//! Planning of query tasks for the proving backend.
//!
//! A query task is one step of a query: a tabular query (prove every matching
//! row with the universal circuit, then reveal the rows), an aggregation step,
//! or a revelation. The planner decides which circuit runs next and, for the
//! tabular revelation, which proof each matching row carries.

use vstd::prelude::*;
use crate::manager::ProverError;

verus! {

/// The input of a revelation circuit. For a tabular revelation, `dehydrated`
/// says for each matching row whether its proof is still missing.
pub enum RevelationInput {
    Aggregated,
    Tabular { dehydrated: Vec<bool> },
}

/// The input of an aggregation step.
#[derive(Clone, Copy, Debug, PartialEq, Eq, Structural)]
pub enum AggregationInput {
    RowsChunk,
    ChunkAggregation,
    NonExistence,
}

/// One step of a query. A tabular step has `rows` row inputs for the
/// universal circuit.
pub enum QueryStep {
    Tabular { rows: usize, revelation: RevelationInput },
    Aggregation(AggregationInput),
    Revelation(RevelationInput),
}

/// A circuit to run for a query step.
#[derive(Clone, Copy, Debug, PartialEq, Eq, Structural)]
pub enum QueryRequest {
    /// The universal circuit on row input `row`.
    UniversalCircuit { row: usize },
    RowsChunk,
    ChunkAggregation,
    NonExistence,
    AggregatedRevelation,
    /// The tabular revelation on the first `rows` matching rows; when
    /// `hydrated`, missing row proofs are taken from the proofs produced for
    /// this step (see `row_proof_source`).
    TabularRevelation { rows: usize, hydrated: bool },
}

/// Where the proof of a matching row comes from in a tabular revelation.
#[derive(Clone, Copy, Debug, PartialEq, Eq, Structural)]
pub enum RowProofSource {
    /// The proof the row already carries.
    Own,
    /// The proof produced for this step at the given position.
    Generated(usize),
}

/// Why a query step cannot be proven.
#[derive(Clone, Copy, Debug, PartialEq, Eq, Structural)]
pub enum QueryPlanError {
    /// The public inputs of the query do not parse.
    InvalidPublicInputs,
    /// A tabular step must carry a tabular revelation input.
    WrongRevelationInput,
}

/// What to do next for a query step.
#[derive(Clone, Copy, Debug, PartialEq, Eq, Structural)]
pub enum QueryAction {
    Prove(QueryRequest),
    Done(usize),
    Fail(QueryPlanError),
}

pub open spec fn min(a: int, b: int) -> int {
    if a <= b {
        a
    } else {
        b
    }
}

/// The number of matching rows a tabular step reveals: row inputs and
/// matching rows are paired in order, and the surplus of either is dropped.
pub open spec fn paired_rows(rows: usize, dehydrated: Seq<bool>) -> int {
    min(rows as int, dehydrated.len() as int)
}

/// The circuits a query step runs, in order.
pub open spec fn query_requests(step: QueryStep) -> Seq<QueryRequest> {
    match step {
        QueryStep::Tabular { rows, revelation } => match revelation {
            RevelationInput::Tabular { dehydrated } => {
                let k = paired_rows(rows, dehydrated@);
                Seq::new(k as nat, |j: int| QueryRequest::UniversalCircuit { row: j as usize }).push(
                    QueryRequest::TabularRevelation { rows: k as usize, hydrated: true },
                )
            },
            RevelationInput::Aggregated => Seq::empty(),
        },
        QueryStep::Aggregation(a) => match a {
            AggregationInput::RowsChunk => seq![QueryRequest::RowsChunk],
            AggregationInput::ChunkAggregation => seq![QueryRequest::ChunkAggregation],
            AggregationInput::NonExistence => seq![QueryRequest::NonExistence],
        },
        QueryStep::Revelation(r) => match r {
            RevelationInput::Aggregated => seq![QueryRequest::AggregatedRevelation],
            RevelationInput::Tabular { dehydrated } => seq![
                QueryRequest::TabularRevelation { rows: dehydrated@.len() as usize, hydrated: false },
            ],
        },
    }
}

/// The error a query step meets, if any.
pub open spec fn query_error(step: QueryStep) -> Option<QueryPlanError> {
    match step {
        QueryStep::Tabular { revelation: RevelationInput::Aggregated, .. } => Some(
            QueryPlanError::WrongRevelationInput,
        ),
        _ => None,
    }
}

/// The action that follows `done` proofs of a query step.
pub open spec fn query_action_after(step: QueryStep, done: int) -> QueryAction {
    let reqs = query_requests(step);
    if done < reqs.len() {
        QueryAction::Prove(reqs[done])
    } else {
        match query_error(step) {
            Some(e) => QueryAction::Fail(e),
            None => QueryAction::Done((done - 1) as usize),
        }
    }
}

/// The source of the proof of matching row `j` in the revelation of `step`.
pub open spec fn row_source(step: QueryStep, j: int) -> RowProofSource {
    match step {
        QueryStep::Tabular { rows, revelation: RevelationInput::Tabular { dehydrated } } => {
            if 0 <= j < paired_rows(rows, dehydrated@) && dehydrated@[j] {
                RowProofSource::Generated(j as usize)
            } else {
                RowProofSource::Own
            }
        },
        _ => RowProofSource::Own,
    }
}

/// Computes the circuits a query step runs, and the error it meets.
pub fn plan_query(step: &QueryStep) -> (r: (Vec<QueryRequest>, Option<QueryPlanError>))
    ensures
        r.0@ == query_requests(*step),
        r.1 == query_error(*step),
{
    let mut reqs: Vec<QueryRequest> = Vec::new();
    match step {
        QueryStep::Tabular { rows, revelation } => match revelation {
            RevelationInput::Tabular { dehydrated } => {
                let k = if *rows <= dehydrated.len() {
                    *rows
                } else {
                    dehydrated.len()
                };
                let mut j: usize = 0;
                while j < k
                    invariant
                        j <= k,
                        reqs@ =~= Seq::new(j as nat, |i: int| QueryRequest::UniversalCircuit { row: i as usize }),
                    decreases k - j,
                {
                    reqs.push(QueryRequest::UniversalCircuit { row: j });
                    j = j + 1;
                }
                reqs.push(QueryRequest::TabularRevelation { rows: k, hydrated: true });
                assert(reqs@ =~= query_requests(*step));
                (reqs, None)
            },
            RevelationInput::Aggregated => (reqs, Some(QueryPlanError::WrongRevelationInput)),
        },
        QueryStep::Aggregation(a) => {
            let req = match a {
                AggregationInput::RowsChunk => QueryRequest::RowsChunk,
                AggregationInput::ChunkAggregation => QueryRequest::ChunkAggregation,
                AggregationInput::NonExistence => QueryRequest::NonExistence,
            };
            reqs.push(req);
            assert(reqs@ =~= query_requests(*step));
            (reqs, None)
        },
        QueryStep::Revelation(r) => {
            let req = match r {
                RevelationInput::Aggregated => QueryRequest::AggregatedRevelation,
                RevelationInput::Tabular { dehydrated } => QueryRequest::TabularRevelation {
                    rows: dehydrated.len(),
                    hydrated: false,
                },
            };
            reqs.push(req);
            assert(reqs@ =~= query_requests(*step));
            (reqs, None)
        },
    }
}

/// The action that follows `done` proofs of a query step whose public inputs
/// parsed (`pis_parsed`) or not: public inputs that do not parse end the step
/// before any circuit runs.
pub open spec fn query_action(step: QueryStep, pis_parsed: bool, done: int) -> QueryAction {
    if !pis_parsed {
        QueryAction::Fail(QueryPlanError::InvalidPublicInputs)
    } else {
        query_action_after(step, done)
    }
}

/// Decides what to do after `done` proofs of a query step have been produced,
/// in the order in which this function requested them, given the outcome of
/// parsing the query's public inputs.
pub fn next_query_action(step: &QueryStep, pis: &Result<(), String>, done: usize) -> (r: QueryAction)
    requires
        pis is Err ==> done == 0,
        done <= query_requests(*step).len(),
    ensures
        r == query_action(*step, pis is Ok, done as int),
{
    if pis.is_err() {
        return QueryAction::Fail(QueryPlanError::InvalidPublicInputs);
    }
    let (reqs, error) = plan_query(step);
    if done < reqs.len() {
        QueryAction::Prove(reqs[done])
    } else {
        match error {
            Some(e) => QueryAction::Fail(e),
            None => QueryAction::Done(done - 1),
        }
    }
}

/// What follows a proving step of a query step whose public inputs parsed:
/// `outcome` is how the circuit that `next_query_action` requested after
/// `done` proofs ended. A success moves on; the first failure ends the step
/// with the circuit's error.
pub fn after_query_step(step: &QueryStep, done: usize, outcome: Result<(), ProverError>) -> (r: Result<
    QueryAction,
    ProverError,
>)
    requires
        done < query_requests(*step).len(),
    ensures
        match outcome {
            Ok(()) => r == Ok::<QueryAction, ProverError>(query_action_after(*step, done + 1)),
            Err(e) => r == Err::<QueryAction, ProverError>(e),
        },
{
    match outcome {
        Ok(()) => {
            let (reqs, _) = plan_query(step);
            assert(done < reqs.len());
            let ok: Result<(), String> = Ok(());
            Ok(next_query_action(step, &ok, done + 1))
        },
        Err(e) => Err(e),
    }
}

/// Says where the proof of matching row `j` comes from in the revelation of a
/// query step.
pub fn row_proof_source(step: &QueryStep, j: usize) -> (r: RowProofSource)
    ensures
        r == row_source(*step, j as int),
{
    match step {
        QueryStep::Tabular { rows, revelation: RevelationInput::Tabular { dehydrated } } => {
            let k = if *rows <= dehydrated.len() {
                *rows
            } else {
                dehydrated.len()
            };
            if j < k && dehydrated[j] {
                RowProofSource::Generated(j)
            } else {
                RowProofSource::Own
            }
        },
        _ => RowProofSource::Own,
    }
}

/// A tabular step proves the paired rows one by one with the universal
/// circuit, then reveals exactly those rows; a row whose proof was missing
/// gets the universal proof made for it, the others keep their own. The
/// step's result is the revelation proof.
pub proof fn lemma_tabular_plan(rows: usize, dehydrated: Vec<bool>)
    ensures
        ({
            let step = QueryStep::Tabular { rows, revelation: RevelationInput::Tabular { dehydrated } };
            let k = paired_rows(rows, dehydrated@);
            let reqs = query_requests(step);
            &&& reqs.len() == k + 1
            &&& forall|j: int| 0 <= j < k ==> #[trigger] reqs[j] == QueryRequest::UniversalCircuit { row: j as usize }
            &&& reqs[k] == QueryRequest::TabularRevelation { rows: k as usize, hydrated: true }
            &&& forall|j: int|
                0 <= j < k ==> #[trigger] row_source(step, j) == (if dehydrated@[j] {
                    RowProofSource::Generated(j as usize)
                } else {
                    RowProofSource::Own
                })
            &&& query_action_after(step, k + 1) == QueryAction::Done(k as usize)
        }),
{
}

} // verus!
