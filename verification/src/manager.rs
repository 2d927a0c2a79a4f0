//! The registry of provers a worker runs, keyed by the kind of task each one
//! proves, and the choice of provers by the worker's class.

use vstd::prelude::*;

verus! {

/// The kind of task a prover handles.
#[derive(Clone, Copy, Debug, PartialEq, Eq, Structural)]
pub enum ProverType {
    V1Query,
    V1Preprocessing,
    V1Groth16,
}

/// The class of a worker: how demanding the tasks it accepts may be.
#[derive(Clone, Copy, Debug, PartialEq, Eq, Structural)]
pub enum TaskDifficulty {
    Small,
    Medium,
    Large,
}

/// Classes are ordered `Small < Medium < Large`.
pub open spec fn difficulty_rank(d: TaskDifficulty) -> int {
    match d {
        TaskDifficulty::Small => 0,
        TaskDifficulty::Medium => 1,
        TaskDifficulty::Large => 2,
    }
}

impl TaskDifficulty {
    /// Whether this class is at least `other`.
    pub fn at_least(&self, other: &TaskDifficulty) -> (r: bool)
        ensures
            r == (difficulty_rank(*self) >= difficulty_rank(*other)),
    {
        let a: u8 = match self {
            TaskDifficulty::Small => 0,
            TaskDifficulty::Medium => 1,
            TaskDifficulty::Large => 2,
        };
        let b: u8 = match other {
            TaskDifficulty::Small => 0,
            TaskDifficulty::Medium => 1,
            TaskDifficulty::Large => 2,
        };
        a >= b
    }

    /// The class name used in configuration and in the worker class sent to
    /// the gateway.
    pub fn name(&self) -> (r: String)
        ensures
            r@ == difficulty_name(*self),
    {
        match self {
            TaskDifficulty::Small => String::from_str("small"),
            TaskDifficulty::Medium => String::from_str("medium"),
            TaskDifficulty::Large => String::from_str("large"),
        }
    }
}

pub open spec fn difficulty_name(d: TaskDifficulty) -> Seq<char> {
    match d {
        TaskDifficulty::Small => "small"@,
        TaskDifficulty::Medium => "medium"@,
        TaskDifficulty::Large => "large"@,
    }
}

/// The provers a worker of class `d` runs, in the order they are created:
/// a query prover from `Small` on, a preprocessing prover from `Medium` on
/// and a Groth16 prover for `Large`.
pub open spec fn provers_for_class(d: TaskDifficulty) -> Seq<ProverType> {
    let q = seq![ProverType::V1Query];
    let p = if difficulty_rank(d) >= 1 {
        q.push(ProverType::V1Preprocessing)
    } else {
        q
    };
    if difficulty_rank(d) >= 2 {
        p.push(ProverType::V1Groth16)
    } else {
        p
    }
}

/// Lists the provers a worker of class `instance_type` runs.
pub fn required_provers(instance_type: TaskDifficulty) -> (r: Vec<ProverType>)
    ensures
        r@ == provers_for_class(instance_type),
{
    let mut v: Vec<ProverType> = Vec::new();
    if instance_type.at_least(&TaskDifficulty::Small) {
        v.push(ProverType::V1Query);
    }
    if instance_type.at_least(&TaskDifficulty::Medium) {
        v.push(ProverType::V1Preprocessing);
    }
    if instance_type.at_least(&TaskDifficulty::Large) {
        v.push(ProverType::V1Groth16);
    }
    assert(v@ =~= provers_for_class(instance_type));
    v
}

/// A worker runs every prover that a worker of a lower class runs.
pub proof fn lemma_provers_monotone(lower: TaskDifficulty, higher: TaskDifficulty, t: ProverType)
    requires
        difficulty_rank(lower) <= difficulty_rank(higher),
        provers_for_class(lower).contains(t),
    ensures
        provers_for_class(higher).contains(t),
{
    let l = provers_for_class(lower);
    let h = provers_for_class(higher);
    let i = choose|i: int| 0 <= i < l.len() && l[i] == t;
    assert(h[i] == t);
}

/// A task, by kind: the payloads are those of the respective backends.
pub enum TaskType<P, Q, G> {
    V1Preprocessing(P),
    V1Query(Q),
    V1Groth16(G),
}

/// The kind of prover a task is for.
pub open spec fn task_kind<P, Q, G>(t: TaskType<P, Q, G>) -> ProverType {
    match t {
        TaskType::V1Preprocessing(_) => ProverType::V1Preprocessing,
        TaskType::V1Query(_) => ProverType::V1Query,
        TaskType::V1Groth16(_) => ProverType::V1Groth16,
    }
}

impl<P, Q, G> TaskType<P, Q, G> {
    pub fn to_prover_type(&self) -> (r: ProverType)
        ensures
            r == task_kind(*self),
    {
        match self {
            TaskType::V1Preprocessing(_) => ProverType::V1Preprocessing,
            TaskType::V1Query(_) => ProverType::V1Query,
            TaskType::V1Groth16(_) => ProverType::V1Groth16,
        }
    }
}

/// An error reported by a prover.
#[derive(Debug)]
pub struct ProverError {
    pub message: String,
}

/// A prover's error with the context that the task runner adds to it.
#[derive(Debug)]
pub struct TaskError {
    /// What was being done.
    pub context: String,
    /// The prover's error.
    pub cause: ProverError,
}

/// A task as the gateway delivers it: the ids of its query and of itself,
/// the chain it is for, the key its proof is stored under, and the task.
#[derive(Debug)]
pub struct TaskEnvelope<T> {
    pub query_id: String,
    pub task_id: String,
    pub chain_id: u64,
    pub proof_key: String,
    pub task: T,
}

/// A prover's reply: the ids of the task's query and of the task, the kind
/// of prover that answered, the chain, and the proof under its key.
#[derive(Debug)]
pub struct ReplyEnvelope {
    pub query_id: String,
    pub task_id: String,
    pub kind: ProverType,
    pub chain_id: u64,
    pub proof: Option<(String, Vec<u8>)>,
}

/// A prover: given a task, it produces the reply or fails. Implemented by the
/// proving backends.
pub trait LgnProver<T, R> {
    /// Whether `r` is an answer the prover may give to `task`. A prover that
    /// states nothing of its answers keeps this default.
    open spec fn answers(&self, task: T, r: Result<R, ProverError>) -> bool {
        true
    }

    fn run(&self, task: &T) -> (r: Result<R, ProverError>)
        ensures
            self.answers(*task, r),
    ;
}

/// Why a task could not be delegated.
#[derive(Debug)]
pub enum ManagerError {
    /// No prover is registered for the kind of task.
    NoProverFound(ProverType),
    /// The prover failed.
    ProofFailed(ProverError),
}

/// The registry: for each kind of task, at most one prover.
pub struct ProversManager<P> {
    provers: Vec<(ProverType, P)>,
}

/// The kinds in `s` are pairwise distinct.
pub open spec fn distinct_kinds<P>(s: Seq<(ProverType, P)>) -> bool {
    forall|i: int, j: int| 0 <= i < s.len() && 0 <= j < s.len() && i != j ==> s[i].0 != s[j].0
}

/// Some entry of `s` is for kind `t`.
pub open spec fn has_kind<P>(s: Seq<(ProverType, P)>, t: ProverType) -> bool {
    exists|i: int| 0 <= i < s.len() && s[i].0 == t
}

/// The map from kinds to provers that `s` holds.
pub open spec fn kind_map<P>(s: Seq<(ProverType, P)>) -> Map<ProverType, P> {
    Map::new(
        |t: ProverType| has_kind(s, t),
        |t: ProverType| s[choose|i: int| 0 <= i < s.len() && s[i].0 == t].1,
    )
}

impl<P> View for ProversManager<P> {
    type V = Map<ProverType, P>;

    closed spec fn view(&self) -> Map<ProverType, P> {
        kind_map(self.provers@)
    }
}

/// In a sequence of distinct kinds, the entry at `i` is the one the map holds
/// for its kind.
proof fn lemma_kind_map_at<P>(s: Seq<(ProverType, P)>, i: int)
    requires
        distinct_kinds(s),
        0 <= i < s.len(),
    ensures
        kind_map(s).contains_key(s[i].0),
        kind_map(s)[s[i].0] == s[i].1,
{
    let t = s[i].0;
    assert(has_kind(s, t));
    let j = choose|j: int| 0 <= j < s.len() && s[j].0 == t;
    assert(j == i);
}

impl<P> ProversManager<P> {
    /// The registry invariant: one entry per kind.
    pub closed spec fn wf(&self) -> bool {
        distinct_kinds(self.provers@)
    }

    /// An empty registry.
    pub fn new() -> (r: Self)
        ensures
            r.wf(),
            r@ == Map::<ProverType, P>::empty(),
    {
        let r = ProversManager { provers: Vec::new() };
        assert(r@ =~= Map::<ProverType, P>::empty());
        r
    }

    /// Finds the position of the entry for `t`.
    fn position(&self, t: ProverType) -> (r: Option<usize>)
        requires
            self.wf(),
        ensures
            match r {
                Some(i) => i < self.provers@.len() && self.provers@[i as int].0 == t,
                None => !has_kind(self.provers@, t),
            },
    {
        let mut i: usize = 0;
        while i < self.provers.len()
            invariant
                i <= self.provers@.len(),
                forall|j: int| 0 <= j < i ==> self.provers@[j].0 != t,
            decreases self.provers@.len() - i,
        {
            if self.provers[i].0 == t {
                return Some(i);
            }
            i = i + 1;
        }
        None
    }

    /// Registers `prover` for the tasks of kind `task_type`, replacing the
    /// prover registered for that kind before, if any.
    pub fn add_prover(&mut self, task_type: ProverType, prover: P)
        requires
            old(self).wf(),
        ensures
            final(self).wf(),
            final(self)@ == old(self)@.insert(task_type, prover),
    {
        let ghost s0 = self.provers@;
        match self.position(task_type) {
            Some(i) => {
                self.provers.set(i, (task_type, prover));
                let ghost s1 = self.provers@;
                assert(s1 == s0.update(i as int, (task_type, prover)));
                assert(distinct_kinds(s1));
                assert forall|t: ProverType| #[trigger] has_kind(s1, t) == has_kind(s0, t) by {
                    if has_kind(s0, t) {
                        let j = choose|j: int| 0 <= j < s0.len() && s0[j].0 == t;
                        assert(s1[j].0 == t);
                    }
                    if has_kind(s1, t) {
                        let j = choose|j: int| 0 <= j < s1.len() && s1[j].0 == t;
                        assert(s0[j].0 == t);
                    }
                }
                assert forall|t: ProverType| #[trigger] kind_map(s1).contains_key(t) implies kind_map(s1)[t]
                    == kind_map(s0).insert(task_type, prover)[t] by {
                    let j = choose|j: int| 0 <= j < s1.len() && s1[j].0 == t;
                    lemma_kind_map_at(s1, j);
                    if t != task_type {
                        lemma_kind_map_at(s0, j);
                    }
                }
                assert(kind_map(s1) =~= kind_map(s0).insert(task_type, prover));
            },
            None => {
                self.provers.push((task_type, prover));
                let ghost s1 = self.provers@;
                assert(s1 == s0.push((task_type, prover)));
                assert(distinct_kinds(s1));
                assert forall|t: ProverType| #[trigger] has_kind(s1, t) == (has_kind(s0, t) || t == task_type) by {
                    if has_kind(s0, t) {
                        let j = choose|j: int| 0 <= j < s0.len() && s0[j].0 == t;
                        assert(s1[j].0 == t);
                    }
                    if t == task_type {
                        assert(s1[s0.len() as int].0 == t);
                    }
                    if has_kind(s1, t) && t != task_type {
                        let j = choose|j: int| 0 <= j < s1.len() && s1[j].0 == t;
                        assert(j < s0.len());
                        assert(s0[j].0 == t);
                    }
                }
                assert forall|t: ProverType| #[trigger] kind_map(s1).contains_key(t) implies kind_map(s1)[t]
                    == kind_map(s0).insert(task_type, prover)[t] by {
                    let j = choose|j: int| 0 <= j < s1.len() && s1[j].0 == t;
                    lemma_kind_map_at(s1, j);
                    if t != task_type {
                        assert(j < s0.len());
                        lemma_kind_map_at(s0, j);
                    }
                }
                assert(kind_map(s1) =~= kind_map(s0).insert(task_type, prover));
            },
        }
    }

    /// The prover registered for tasks of kind `task_type`.
    pub fn prover_for(&self, task_type: ProverType) -> (r: Option<&P>)
        requires
            self.wf(),
        ensures
            match r {
                Some(p) => self@.contains_key(task_type) && *p == self@[task_type],
                None => !self@.contains_key(task_type),
            },
    {
        match self.position(task_type) {
            Some(i) => {
                proof {
                    lemma_kind_map_at(self.provers@, i as int);
                }
                Some(&self.provers[i].1)
            },
            None => None,
        }
    }

    /// Sends the task of `env` to the prover registered for the task's own
    /// kind, and returns its reply.
    pub fn delegate_proving<A, B, C, R>(&self, env: &TaskEnvelope<TaskType<A, B, C>>) -> (r: Result<
        R,
        ManagerError,
    >)
        where P: LgnProver<TaskEnvelope<TaskType<A, B, C>>, R>,
        requires
            self.wf(),
        ensures
            !self@.contains_key(task_kind(env.task)) <==> r == Err::<R, ManagerError>(
                ManagerError::NoProverFound(task_kind(env.task)),
            ),
            self@.contains_key(task_kind(env.task)) ==> match r {
                Ok(reply) => self@[task_kind(env.task)].answers(*env, Ok(reply)),
                Err(ManagerError::ProofFailed(e)) => self@[task_kind(env.task)].answers(*env, Err(e)),
                Err(ManagerError::NoProverFound(_)) => false,
            },
    {
        let task_type = env.task.to_prover_type();
        match self.prover_for(task_type) {
            Some(prover) => match prover.run(env) {
                Ok(reply) => Ok(reply),
                Err(e) => Err(ManagerError::ProofFailed(e)),
            },
            None => Err(ManagerError::NoProverFound(task_type)),
        }
    }
}

/// The registry built from `provers`, registered one after the other under
/// the kinds `kinds`: the first `n` of them.
pub open spec fn registry_of<P>(kinds: Seq<ProverType>, provers: Seq<Result<P, ProverError>>, n: int) -> Map<
    ProverType,
    P,
>
    decreases n,
{
    if n <= 0 {
        Map::empty()
    } else {
        registry_of(kinds, provers, n - 1).insert(kinds[n - 1], provers[n - 1]->Ok_0)
    }
}

/// The kinds a registry built from the first `n` kinds holds.
proof fn lemma_registry_kinds<P>(kinds: Seq<ProverType>, provers: Seq<Result<P, ProverError>>, n: int, t: ProverType)
    requires
        0 <= n <= kinds.len(),
    ensures
        registry_of(kinds, provers, n).contains_key(t) <==> kinds.subrange(0, n).contains(t),
    decreases n,
{
    if n == 0 {
        assert(kinds.subrange(0, 0).len() == 0);
    } else {
        lemma_registry_kinds(kinds, provers, n - 1, t);
        let a = kinds.subrange(0, n - 1);
        let b = kinds.subrange(0, n);
        assert(b =~= a.push(kinds[n - 1]));
        assert(b[n - 1] == kinds[n - 1]);
        if a.contains(t) {
            let i = choose|i: int| 0 <= i < a.len() && a[i] == t;
            assert(b[i] == t);
        }
        if b.contains(t) && t != kinds[n - 1] {
            let i = choose|i: int| 0 <= i < b.len() && b[i] == t;
            assert(a[i] == t);
        }
    }
}

/// No creation outcome among the first `n` is an error.
pub open spec fn all_created<P>(provers: Seq<Result<P, ProverError>>, n: int) -> bool {
    forall|i: int| 0 <= i < n ==> (#[trigger] provers[i]) is Ok
}

impl<P> ProversManager<P> {
    /// Builds the registry of a worker of class `d` from the outcomes of
    /// creating its provers, given in the order of `provers_for_class(d)`:
    /// every prover under its kind when all were created, else the first
    /// creation error.
    pub fn for_class(d: TaskDifficulty, created: Vec<Result<P, ProverError>>) -> (r: Result<Self, ProverError>)
        requires
            created@.len() == provers_for_class(d).len(),
        ensures
            match r {
                Ok(m) => {
                    &&& m.wf()
                    &&& all_created(created@, created@.len() as int)
                    &&& m@ == registry_of(provers_for_class(d), created@, created@.len() as int)
                    &&& forall|t: ProverType| m@.contains_key(t) <==> provers_for_class(d).contains(t)
                },
                Err(e) => exists|i: int|
                    #![trigger created@[i]]
                    0 <= i < created@.len() && all_created(created@, i) && created@[i] == Err::<P, ProverError>(e),
            },
    {
        let kinds = required_provers(d);
        let ghost all = created@;
        let n = created.len();
        let mut rest = created;
        let mut m: ProversManager<P> = ProversManager::new();
        let mut i: usize = 0;
        while i < n
            invariant
                n == all.len(),
                all == created@,
                kinds@ == provers_for_class(d),
                kinds@.len() == n,
                i <= n,
                rest@ == all.subrange(i as int, n as int),
                m.wf(),
                all_created(all, i as int),
                m@ == registry_of(kinds@, all, i as int),
            decreases n - i,
        {
            let item = rest.remove(0);
            assert(item == all[i as int]);
            match item {
                Ok(p) => {
                    m.add_prover(kinds[i], p);
                    assert(rest@ =~= all.subrange(i + 1, n as int));
                    i = i + 1;
                },
                Err(e) => {
                    assert(0 <= i < all.len() && all_created(all, i as int) && all[i as int] == Err::<
                        P,
                        ProverError,
                    >(e));
                    return Err(e);
                },
            }
        }
        proof {
            assert forall|t: ProverType| m@.contains_key(t) <==> provers_for_class(d).contains(t) by {
                lemma_registry_kinds(kinds@, all, n as int, t);
                assert(kinds@.subrange(0, n as int) =~= kinds@);
            }
        }
        Ok(m)
    }
}

/// Registering a prover for a kind makes it the prover of that kind, and
/// leaves every other kind as it was.
pub proof fn lemma_add_then_lookup<P>(m: Map<ProverType, P>, t: ProverType, p: P, u: ProverType)
    ensures
        m.insert(t, p).contains_key(t),
        m.insert(t, p)[t] == p,
        u != t ==> m.insert(t, p).contains_key(u) == m.contains_key(u),
        u != t && m.contains_key(u) ==> m.insert(t, p)[u] == m[u],
{
}

} // verus!
