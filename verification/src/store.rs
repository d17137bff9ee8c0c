//! The in-memory persistence provider: the same operations, outcomes and
//! error mapping the relational store exhibits, over plain values. Rows get
//! store-generated identities, signatures and timestamps from two counters.
use vstd::prelude::*;
use vstd::string::StringExecFns;

use crate::db::{
    EntityId, EnvironmentEntity, IndexEntity, IndexStatus, InputEnvironmentEntity,
    InputIndexEntity, ProvideError, ProvideResult,
};
use crate::text::{clone_string_vec, spec_dec, u128_string};

verus! {

/// Two index rows carry the same data.
pub open spec fn spec_same_index(a: IndexEntity, b: IndexEntity) -> bool {
    &&& a.id == b.id
    &&& a.index_type@ == b.index_type@
    &&& a.data_source@ == b.data_source@
    &&& a.regions@ == b.regions@
    &&& a.signature@ == b.signature@
    &&& a.status == b.status
    &&& a.created_at == b.created_at
    &&& a.updated_at == b.updated_at
}

/// Two environment rows carry the same data, indexes aside.
pub open spec fn spec_same_env_shallow(a: EnvironmentEntity, b: EnvironmentEntity) -> bool {
    &&& a.id == b.id
    &&& a.name@ == b.name@
    &&& a.signature@ == b.signature@
    &&& a.port == b.port
    &&& a.created_at == b.created_at
    &&& a.updated_at == b.updated_at
}

/// Two environment rows carry the same data, their indexes included.
pub open spec fn spec_same_env(a: EnvironmentEntity, b: EnvironmentEntity) -> bool {
    &&& spec_same_env_shallow(a, b)
    &&& a.indexes@.len() == b.indexes@.len()
    &&& forall|k: int|
        0 <= k < a.indexes@.len() ==> spec_same_index(#[trigger] a.indexes@[k], b.indexes@[k])
}

/// Copy an index row.
fn clone_index_entity(e: &IndexEntity) -> (r: IndexEntity)
    ensures
        spec_same_index(r, *e),
{
    IndexEntity {
        id: e.id,
        index_type: e.index_type.clone(),
        data_source: e.data_source.clone(),
        regions: clone_string_vec(&e.regions),
        signature: e.signature.clone(),
        status: e.status,
        created_at: e.created_at,
        updated_at: e.updated_at,
    }
}

/// Copy an environment row, leaving the indexes out, as the row reads do.
fn clone_env_shallow(e: &EnvironmentEntity) -> (r: EnvironmentEntity)
    ensures
        spec_same_env_shallow(r, *e),
        r.indexes@.len() == 0,
{
    EnvironmentEntity {
        id: e.id,
        name: e.name.clone(),
        signature: e.signature.clone(),
        port: e.port,
        indexes: Vec::new(),
        created_at: e.created_at,
        updated_at: e.updated_at,
    }
}

/// The store holds an environment row under this name.
pub open spec fn spec_has_env_name(s: MemStore, name: Seq<char>) -> bool {
    exists|i: int| 0 <= i < s.environments@.len() && (#[trigger] s.environments@[i]).name@ == name
}

/// The store holds an environment row under this id.
pub open spec fn spec_has_env_id(s: MemStore, id: EntityId) -> bool {
    exists|i: int| 0 <= i < s.environments@.len() && (#[trigger] s.environments@[i]).id == id
}

/// The in-memory provider: environment rows in creation order, and the
/// counters that mint identities, signatures and timestamps.
pub struct MemStore {
    pub environments: Vec<EnvironmentEntity>,
    pub next_id: EntityId,
    pub clock: i64,
}

impl MemStore {
    /// Names and ids are unique, and no row carries an identity the counter
    /// has yet to reach.
    pub open spec fn wf(self) -> bool {
        &&& forall|i: int, j: int|
            0 <= i < j < self.environments@.len() ==> (#[trigger] self.environments@[i]).name@
                != (#[trigger] self.environments@[j]).name@
        &&& forall|i: int, j: int|
            0 <= i < j < self.environments@.len() ==> (#[trigger] self.environments@[i]).id != (
            #[trigger] self.environments@[j]).id
        &&& forall|i: int|
            0 <= i < self.environments@.len() ==> (#[trigger] self.environments@[i]).id
                < self.next_id
    }

    /// An empty store.
    pub fn new() -> (s: MemStore)
        ensures
            s.wf(),
            s.environments@.len() == 0,
            s.next_id == 1,
            s.clock == 0,
    {
        MemStore { environments: Vec::new(), next_id: 1, clock: 0 }
    }

    /// All environment rows, in creation order, without their indexes.
    pub fn get_all_environments(&self) -> (r: ProvideResult<Vec<EnvironmentEntity>>)
        ensures
            r matches Ok(v) && v@.len() == self.environments@.len() && forall|i: int|
                0 <= i < v@.len() ==> spec_same_env_shallow(
                    #[trigger] v@[i],
                    self.environments@[i],
                ) && v@[i].indexes@.len() == 0,
    {
        let mut v: Vec<EnvironmentEntity> = Vec::new();
        let mut i: usize = 0;
        while i < self.environments.len()
            invariant
                0 <= i <= self.environments@.len(),
                v@.len() == i,
                forall|j: int|
                    0 <= j < i ==> spec_same_env_shallow(
                        #[trigger] v@[j],
                        self.environments@[j],
                    ) && v@[j].indexes@.len() == 0,
            decreases self.environments@.len() - i,
        {
            v.push(clone_env_shallow(&self.environments[i]));
            i = i + 1;
        }
        Ok(v)
    }

    /// The indexes of one environment, in creation order; an unknown
    /// environment id reads as no rows, as a keyed row scan does.
    pub fn get_environment_indexes(&self, environment: EntityId) -> (r: ProvideResult<
        Vec<IndexEntity>,
    >)
        requires
            self.wf(),
        ensures
            r matches Ok(v) && (match spec_env_index_of(*self, environment) {
                Some(i) => v@.len() == self.environments@[i].indexes@.len() && forall|k: int|
                    0 <= k < v@.len() ==> spec_same_index(
                        #[trigger] v@[k],
                        self.environments@[i].indexes@[k],
                    ),
                None => v@.len() == 0,
            }),
    {
        let mut i: usize = 0;
        while i < self.environments.len()
            invariant
                self.wf(),
                0 <= i <= self.environments@.len(),
                forall|j: int|
                    0 <= j < i ==> (#[trigger] self.environments@[j]).id != environment,
            decreases self.environments@.len() - i,
        {
            if self.environments[i].id == environment {
                proof {
                    assert(spec_env_index_of(*self, environment) == Some(i as int));
                }
                let src = &self.environments[i];
                let mut v: Vec<IndexEntity> = Vec::new();
                let mut k: usize = 0;
                while k < src.indexes.len()
                    invariant
                        0 <= k <= src.indexes@.len(),
                        v@.len() == k,
                        forall|m: int|
                            0 <= m < k ==> spec_same_index(
                                #[trigger] v@[m],
                                src.indexes@[m],
                            ),
                    decreases src.indexes@.len() - k,
                {
                    v.push(clone_index_entity(&src.indexes[k]));
                    k = k + 1;
                }
                return Ok(v);
            }
            i = i + 1;
        }
        proof {
            assert(spec_env_index_of(*self, environment) is None);
        }
        Ok(Vec::new())
    }
}

/// Where the row with this environment id stands, if anywhere. With a
/// well-formed store the position is unique.
pub open spec fn spec_env_index_of(s: MemStore, id: EntityId) -> Option<int> {
    if spec_has_env_id(s, id) {
        Some(choose|i: int| 0 <= i < s.environments@.len() && s.environments@[i].id == id)
    } else {
        None
    }
}

/// Copy a list of index rows.
fn clone_index_vec(v: &Vec<IndexEntity>) -> (r: Vec<IndexEntity>)
    ensures
        r@.len() == v@.len(),
        forall|k: int| 0 <= k < v@.len() ==> spec_same_index(#[trigger] r@[k], v@[k]),
{
    let mut r: Vec<IndexEntity> = Vec::new();
    let mut i: usize = 0;
    while i < v.len()
        invariant
            0 <= i <= v@.len(),
            r@.len() == i,
            forall|k: int| 0 <= k < i ==> spec_same_index(#[trigger] r@[k], v@[k]),
        decreases v@.len() - i,
    {
        r.push(clone_index_entity(&v[i]));
        i = i + 1;
    }
    r
}

/// Copy an environment row, its indexes included.
fn clone_env_full(e: &EnvironmentEntity) -> (r: EnvironmentEntity)
    ensures
        spec_same_env(r, *e),
{
    EnvironmentEntity {
        id: e.id,
        name: e.name.clone(),
        signature: e.signature.clone(),
        port: e.port,
        indexes: clone_index_vec(&e.indexes),
        created_at: e.created_at,
        updated_at: e.updated_at,
    }
}

/// A creation refused because the name is taken: the store is unchanged and
/// the error names the conflicting key.
pub open spec fn spec_create_env_err(
    pre: MemStore,
    input: InputEnvironmentEntity,
    post: MemStore,
    pe: ProvideError,
) -> bool {
    &&& spec_has_env_name(pre, input.name@)
    &&& post == pre
    &&& pe matches ProvideError::UniqueViolation { details } && details@ == "Key (name)=("@
        + input.name@ + ") already exists."@
}

/// A successful creation: one new row at the end, under a fresh identity and
/// signature, stamped with the store clock; nothing else moves.
pub open spec fn spec_create_env_ok(
    pre: MemStore,
    input: InputEnvironmentEntity,
    post: MemStore,
    e: EnvironmentEntity,
) -> bool {
    &&& !spec_has_env_name(pre, input.name@)
    &&& e.id == pre.next_id
    &&& e.name@ == input.name@
    &&& e.port == input.port
    &&& e.signature@ == "sig-"@ + spec_dec(pre.next_id as nat)
    &&& e.indexes@.len() == 0
    &&& e.created_at == pre.clock
    &&& e.updated_at == pre.clock
    &&& post.environments@.len() == pre.environments@.len() + 1
    &&& forall|i: int|
        0 <= i < pre.environments@.len() ==> post.environments@[i] == pre.environments@[i]
    &&& spec_same_env(post.environments@.last(), e)
    &&& post.next_id == pre.next_id + 1
    &&& post.clock == pre.clock + 1
}

/// A successful deletion: the row leaves its position, everything else keeps
/// its place, and the removed row comes back to the caller.
pub open spec fn spec_delete_env_ok(
    pre: MemStore,
    id: EntityId,
    post: MemStore,
    e: EnvironmentEntity,
) -> bool {
    &&& spec_env_index_of(pre, id) matches Some(i) && spec_same_env(e, pre.environments@[i])
        && post.environments@ == pre.environments@.remove(i)
    &&& post.next_id == pre.next_id
    &&& post.clock == pre.clock
}

/// A successful index creation: the owning row gains one index at the end of
/// its list, under a fresh identity, in the initial status; nothing else
/// moves.
pub open spec fn spec_create_index_ok(
    pre: MemStore,
    input: InputIndexEntity,
    post: MemStore,
    ix: IndexEntity,
) -> bool {
    &&& ix.id == pre.next_id
    &&& ix.index_type@ == input.index_type@
    &&& ix.data_source@ == input.data_source@
    &&& ix.regions@ == input.regions@
    &&& ix.signature@ == "sig-"@ + spec_dec(pre.next_id as nat)
    &&& ix.status == IndexStatus::NotAvailable
    &&& ix.created_at == pre.clock
    &&& ix.updated_at == pre.clock
    &&& spec_env_index_of(pre, input.environment) matches Some(i) && {
        &&& post.environments@.len() == pre.environments@.len()
        &&& forall|j: int|
            0 <= j < pre.environments@.len() && j != i ==> post.environments@[j]
                == pre.environments@[j]
        &&& spec_same_env_shallow(post.environments@[i], pre.environments@[i])
        &&& post.environments@[i].indexes@.len() == pre.environments@[i].indexes@.len() + 1
        &&& forall|k: int|
            0 <= k < pre.environments@[i].indexes@.len() ==> post.environments@[i].indexes@[k]
                == pre.environments@[i].indexes@[k]
        &&& spec_same_index(post.environments@[i].indexes@.last(), ix)
    }
    &&& post.next_id == pre.next_id + 1
    &&& post.clock == pre.clock + 1
}

impl MemStore {
    /// Create an environment row. A taken name yields `UniqueViolation` and
    /// leaves the store as it was; otherwise the row is appended with a fresh
    /// identity, signature and timestamps.
    pub fn create_environment(&mut self, environment: &InputEnvironmentEntity) -> (r:
        ProvideResult<EnvironmentEntity>)
        requires
            old(self).wf(),
            old(self).next_id < EntityId::MAX,
            old(self).clock < i64::MAX,
        ensures
            final(self).wf(),
            match r {
                Ok(e) => spec_create_env_ok(*old(self), *environment, *final(self), e),
                Err(pe) => spec_create_env_err(*old(self), *environment, *final(self), pe),
            },
    {
        let mut i: usize = 0;
        while i < self.environments.len()
            invariant
                *self == *old(self),
                self.wf(),
                self.next_id < EntityId::MAX,
                self.clock < i64::MAX,
                0 <= i <= self.environments@.len(),
                forall|j: int|
                    0 <= j < i ==> (#[trigger] self.environments@[j]).name@
                        != environment.name@,
            decreases self.environments@.len() - i,
        {
            if self.environments[i].name.eq(&environment.name) {
                let mut details = String::from_str("Key (name)=(");
                details.append(environment.name.as_str());
                details.append(") already exists.");
                proof {
                    assert(details@ =~= "Key (name)=("@ + environment.name@
                        + ") already exists."@);
                }
                return Err(ProvideError::UniqueViolation { details });
            }
            i = i + 1;
        }
        let mut signature = String::from_str("sig-");
        signature.append(u128_string(self.next_id).as_str());
        proof {
            assert(signature@ =~= "sig-"@ + spec_dec(self.next_id as nat));
        }
        let stored = EnvironmentEntity {
            id: self.next_id,
            name: environment.name.clone(),
            signature,
            port: environment.port,
            indexes: Vec::new(),
            created_at: self.clock,
            updated_at: self.clock,
        };
        let returned = clone_env_shallow(&stored);
        self.environments.push(stored);
        self.next_id = self.next_id + 1;
        self.clock = self.clock + 1;
        Ok(returned)
    }

    /// Delete the environment row with this id and hand it back; an unknown
    /// id yields `NotFound` and leaves the store as it was.
    pub fn delete_environment(&mut self, environment: EntityId) -> (r: ProvideResult<
        EnvironmentEntity,
    >)
        requires
            old(self).wf(),
        ensures
            final(self).wf(),
            match r {
                Ok(e) => spec_delete_env_ok(*old(self), environment, *final(self), e),
                Err(pe) => pe == ProvideError::NotFound && !spec_has_env_id(
                    *old(self),
                    environment,
                ) && *final(self) == *old(self),
            },
    {
        let mut i: usize = 0;
        while i < self.environments.len()
            invariant
                *self == *old(self),
                self.wf(),
                0 <= i <= self.environments@.len(),
                forall|j: int|
                    0 <= j < i ==> (#[trigger] self.environments@[j]).id != environment,
            decreases self.environments@.len() - i,
        {
            if self.environments[i].id == environment {
                proof {
                    assert(spec_env_index_of(*self, environment) == Some(i as int));
                }
                let ghost before = self.environments@;
                let removed = self.environments.remove(i);
                let returned = clone_env_full(&removed);
                proof {
                    assert forall|a: int, b: int|
                        0 <= a < b < self.environments@.len() implies (
                    #[trigger] self.environments@[a]).id != (
                    #[trigger] self.environments@[b]).id && self.environments@[a].name@
                        != self.environments@[b].name@ by {
                        let olda = if a < i { a } else { a + 1 };
                        let oldb = if b < i { b } else { b + 1 };
                        assert(self.environments@[a] == before[olda]);
                        assert(self.environments@[b] == before[oldb]);
                    }
                }
                return Ok(returned);
            }
            i = i + 1;
        }
        Err(ProvideError::NotFound)
    }

    /// Create an index row on an existing environment. An unknown
    /// environment id violates the foreign relation and yields
    /// `ModelViolation`, leaving the store as it was.
    pub fn create_index(&mut self, index: &InputIndexEntity) -> (r: ProvideResult<IndexEntity>)
        requires
            old(self).wf(),
            old(self).next_id < EntityId::MAX,
            old(self).clock < i64::MAX,
        ensures
            final(self).wf(),
            match r {
                Ok(ix) => spec_create_index_ok(*old(self), *index, *final(self), ix),
                Err(pe) => {
                    &&& pe matches ProvideError::ModelViolation { details } && details@
                        == "insert or update violates foreign key constraint (environment)"@
                    &&& !spec_has_env_id(*old(self), index.environment)
                    &&& *final(self) == *old(self)
                },
            },
    {
        let mut i: usize = 0;
        while i < self.environments.len()
            invariant
                *self == *old(self),
                self.wf(),
                self.next_id < EntityId::MAX,
                self.clock < i64::MAX,
                0 <= i <= self.environments@.len(),
                forall|j: int|
                    0 <= j < i ==> (#[trigger] self.environments@[j]).id != index.environment,
            decreases self.environments@.len() - i,
        {
            if self.environments[i].id == index.environment {
                proof {
                    assert(spec_env_index_of(*self, index.environment) == Some(i as int));
                }
                let mut signature = String::from_str("sig-");
                signature.append(u128_string(self.next_id).as_str());
                proof {
                    assert(signature@ =~= "sig-"@ + spec_dec(self.next_id as nat));
                }
                let stored = IndexEntity {
                    id: self.next_id,
                    index_type: index.index_type.clone(),
                    data_source: index.data_source.clone(),
                    regions: clone_string_vec(&index.regions),
                    signature,
                    status: IndexStatus::NotAvailable,
                    created_at: self.clock,
                    updated_at: self.clock,
                };
                let returned = clone_index_entity(&stored);
                let ghost before = self.environments@;
                let mut owner = self.environments.remove(i);
                owner.indexes.push(stored);
                self.environments.insert(i, owner);
                proof {
                    assert forall|j: int|
                        0 <= j < before.len() && j != i implies self.environments@[j] == before[
                    j] by {
                        if j < i {
                            assert(self.environments@[j] == before.remove(i as int)[j]);
                        } else {
                            assert(self.environments@[j] == before.remove(i as int)[j - 1]);
                        }
                    }
                    assert(returned.regions@ =~= index.regions@);
                }
                self.next_id = self.next_id + 1;
                self.clock = self.clock + 1;
                return Ok(returned);
            }
            i = i + 1;
        }
        Err(
            ProvideError::ModelViolation {
                details: String::from_str(
                    "insert or update violates foreign key constraint (environment)",
                ),
            },
        )
    }

    /// Read the environment row with this id, without its indexes; an unknown
    /// id yields `NotFound`.
    pub fn get_environment_by_id(&self, id: EntityId) -> (r: ProvideResult<EnvironmentEntity>)
        requires
            self.wf(),
        ensures
            match r {
                Ok(e) => spec_env_index_of(*self, id) matches Some(i) && spec_same_env_shallow(
                    e,
                    self.environments@[i],
                ) && e.indexes@.len() == 0,
                Err(pe) => pe == ProvideError::NotFound && !spec_has_env_id(*self, id),
            },
    {
        let mut i: usize = 0;
        while i < self.environments.len()
            invariant
                self.wf(),
                0 <= i <= self.environments@.len(),
                forall|j: int| 0 <= j < i ==> (#[trigger] self.environments@[j]).id != id,
            decreases self.environments@.len() - i,
        {
            if self.environments[i].id == id {
                proof {
                    assert(spec_env_index_of(*self, id) == Some(i as int));
                }
                return Ok(clone_env_shallow(&self.environments[i]));
            }
            i = i + 1;
        }
        Err(ProvideError::NotFound)
    }
}

/// Creating the same environment name twice cannot succeed twice: whatever
/// port the second run allocated and whatever else the store holds, the
/// second creation is refused with a uniqueness violation and leaves the
/// store exactly as the first creation left it.
pub proof fn lemma_repeat_create_environment_conflicts(
    pre: MemStore,
    first: InputEnvironmentEntity,
    mid: MemStore,
    e: EnvironmentEntity,
    second: InputEnvironmentEntity,
    post: MemStore,
    r: ProvideResult<EnvironmentEntity>,
)
    requires
        first.name@ == second.name@,
        spec_create_env_ok(pre, first, mid, e),
        match r {
            Ok(e2) => spec_create_env_ok(mid, second, post, e2),
            Err(pe) => spec_create_env_err(mid, second, post, pe),
        },
    ensures
        r matches Err(pe) && pe matches ProvideError::UniqueViolation { details } && details@
            == "Key (name)=("@ + second.name@ + ") already exists."@,
        post == mid,
{
    let last = mid.environments@.len() - 1;
    assert(mid.environments@[last].name@ == second.name@);
    assert(spec_has_env_name(mid, second.name@));
}

/// Indexes land on their environment in creation order: two successive index
/// creations on one environment leave its list ending with the two new rows,
/// first one first, everything before them untouched.
pub proof fn lemma_indexes_follow_creation_order(
    pre: MemStore,
    first: InputIndexEntity,
    mid: MemStore,
    ix1: IndexEntity,
    second: InputIndexEntity,
    post: MemStore,
    ix2: IndexEntity,
)
    requires
        pre.wf(),
        mid.wf(),
        first.environment == second.environment,
        spec_create_index_ok(pre, first, mid, ix1),
        spec_create_index_ok(mid, second, post, ix2),
    ensures
        spec_env_index_of(pre, first.environment) matches Some(i) && {
            &&& post.environments@[i].indexes@.len() == pre.environments@[i].indexes@.len() + 2
            &&& forall|k: int|
                0 <= k < pre.environments@[i].indexes@.len()
                    ==> post.environments@[i].indexes@[k] == pre.environments@[i].indexes@[k]
            &&& spec_same_index(
                post.environments@[i].indexes@[post.environments@[i].indexes@.len() - 2],
                ix1,
            )
            &&& spec_same_index(post.environments@[i].indexes@.last(), ix2)
        },
{
    let i = spec_env_index_of(pre, first.environment)->Some_0;
    let j = spec_env_index_of(mid, second.environment)->Some_0;
    assert(mid.environments@[i].id == pre.environments@[i].id);
    assert(spec_has_env_id(mid, second.environment));
    assert(0 <= j < mid.environments@.len() && mid.environments@[j].id == second.environment);
    assert(j == i);
}

} // verus!
