//! The request-facing entities, their conversions from stored rows, and the
//! store-backed operations behind the request surface.
use vstd::prelude::*;
use vstd::string::StringExecFns;

use crate::db;
use crate::db::{
    EntityId, EnvironmentEntity, IndexEntity, InputEnvironmentEntity, InputIndexEntity,
};
use crate::error::Error;
use crate::store::{
    spec_create_index_ok, spec_env_index_of, spec_has_env_id, spec_has_env_name, MemStore,
};
use crate::text::{clone_string_vec, spec_dec};

verus! {

/// Where an index stands in its processing progression, as reported.
#[derive(Clone, Copy, Debug, PartialEq, Eq, Structural)]
pub enum IndexStatus {
    NotAvailable,
    DownloadingInProgress,
    DownloadingError,
    Downloaded,
    ProcessingInProgress,
    ProcessingError,
    Processed,
    IndexingInProgress,
    IndexingError,
    Indexed,
    ValidationInProgress,
    ValidationError,
    Available,
}

/// The reported status a stored status reads as, variant for variant.
pub open spec fn spec_status_from_db(s: db::IndexStatus) -> IndexStatus {
    match s {
        db::IndexStatus::NotAvailable => IndexStatus::NotAvailable,
        db::IndexStatus::DownloadingInProgress => IndexStatus::DownloadingInProgress,
        db::IndexStatus::DownloadingError => IndexStatus::DownloadingError,
        db::IndexStatus::Downloaded => IndexStatus::Downloaded,
        db::IndexStatus::ProcessingInProgress => IndexStatus::ProcessingInProgress,
        db::IndexStatus::ProcessingError => IndexStatus::ProcessingError,
        db::IndexStatus::Processed => IndexStatus::Processed,
        db::IndexStatus::IndexingInProgress => IndexStatus::IndexingInProgress,
        db::IndexStatus::IndexingError => IndexStatus::IndexingError,
        db::IndexStatus::Indexed => IndexStatus::Indexed,
        db::IndexStatus::ValidationInProgress => IndexStatus::ValidationInProgress,
        db::IndexStatus::ValidationError => IndexStatus::ValidationError,
        db::IndexStatus::Available => IndexStatus::Available,
    }
}

/// The stored status a reported status writes as, variant for variant.
pub open spec fn spec_status_to_db(s: IndexStatus) -> db::IndexStatus {
    match s {
        IndexStatus::NotAvailable => db::IndexStatus::NotAvailable,
        IndexStatus::DownloadingInProgress => db::IndexStatus::DownloadingInProgress,
        IndexStatus::DownloadingError => db::IndexStatus::DownloadingError,
        IndexStatus::Downloaded => db::IndexStatus::Downloaded,
        IndexStatus::ProcessingInProgress => db::IndexStatus::ProcessingInProgress,
        IndexStatus::ProcessingError => db::IndexStatus::ProcessingError,
        IndexStatus::Processed => db::IndexStatus::Processed,
        IndexStatus::IndexingInProgress => db::IndexStatus::IndexingInProgress,
        IndexStatus::IndexingError => db::IndexStatus::IndexingError,
        IndexStatus::Indexed => db::IndexStatus::Indexed,
        IndexStatus::ValidationInProgress => db::IndexStatus::ValidationInProgress,
        IndexStatus::ValidationError => db::IndexStatus::ValidationError,
        IndexStatus::Available => db::IndexStatus::Available,
    }
}

impl IndexStatus {
    /// Read a stored status.
    pub fn from_db(s: db::IndexStatus) -> (r: IndexStatus)
        ensures
            r == spec_status_from_db(s),
    {
        match s {
            db::IndexStatus::NotAvailable => IndexStatus::NotAvailable,
            db::IndexStatus::DownloadingInProgress => IndexStatus::DownloadingInProgress,
            db::IndexStatus::DownloadingError => IndexStatus::DownloadingError,
            db::IndexStatus::Downloaded => IndexStatus::Downloaded,
            db::IndexStatus::ProcessingInProgress => IndexStatus::ProcessingInProgress,
            db::IndexStatus::ProcessingError => IndexStatus::ProcessingError,
            db::IndexStatus::Processed => IndexStatus::Processed,
            db::IndexStatus::IndexingInProgress => IndexStatus::IndexingInProgress,
            db::IndexStatus::IndexingError => IndexStatus::IndexingError,
            db::IndexStatus::Indexed => IndexStatus::Indexed,
            db::IndexStatus::ValidationInProgress => IndexStatus::ValidationInProgress,
            db::IndexStatus::ValidationError => IndexStatus::ValidationError,
            db::IndexStatus::Available => IndexStatus::Available,
        }
    }

    /// Write this status as the store holds it.
    pub fn to_db(self) -> (r: db::IndexStatus)
        ensures
            r == spec_status_to_db(self),
    {
        match self {
            IndexStatus::NotAvailable => db::IndexStatus::NotAvailable,
            IndexStatus::DownloadingInProgress => db::IndexStatus::DownloadingInProgress,
            IndexStatus::DownloadingError => db::IndexStatus::DownloadingError,
            IndexStatus::Downloaded => db::IndexStatus::Downloaded,
            IndexStatus::ProcessingInProgress => db::IndexStatus::ProcessingInProgress,
            IndexStatus::ProcessingError => db::IndexStatus::ProcessingError,
            IndexStatus::Processed => db::IndexStatus::Processed,
            IndexStatus::IndexingInProgress => db::IndexStatus::IndexingInProgress,
            IndexStatus::IndexingError => db::IndexStatus::IndexingError,
            IndexStatus::Indexed => db::IndexStatus::Indexed,
            IndexStatus::ValidationInProgress => db::IndexStatus::ValidationInProgress,
            IndexStatus::ValidationError => db::IndexStatus::ValidationError,
            IndexStatus::Available => db::IndexStatus::Available,
        }
    }
}

/// The status every index starts in.
pub fn default_status() -> (r: IndexStatus)
    ensures
        r == IndexStatus::NotAvailable,
{
    IndexStatus::NotAvailable
}

/// An environment as reported to clients.
pub struct Environment {
    pub id: EntityId,
    pub name: String,
    pub signature: String,
    pub port: i32,
    pub indexes: Vec<Index>,
    pub created_at: i64,
    pub updated_at: i64,
}

/// An index as reported to clients.
pub struct Index {
    pub id: EntityId,
    pub index_type: String,
    pub data_source: String,
    pub regions: Vec<String>,
    pub signature: String,
    pub status: IndexStatus,
    pub created_at: i64,
    pub updated_at: i64,
}

/// The reported index carries the stored row's data.
pub open spec fn spec_index_matches_entity(x: Index, e: IndexEntity) -> bool {
    &&& x.id == e.id
    &&& x.index_type@ == e.index_type@
    &&& x.data_source@ == e.data_source@
    &&& x.regions@ == e.regions@
    &&& x.signature@ == e.signature@
    &&& x.status == spec_status_from_db(e.status)
    &&& x.created_at == e.created_at
    &&& x.updated_at == e.updated_at
}

/// The reported environment carries the stored row's data, indexes included.
pub open spec fn spec_env_matches_entity(v: Environment, e: EnvironmentEntity) -> bool {
    &&& v.id == e.id
    &&& v.name@ == e.name@
    &&& v.signature@ == e.signature@
    &&& v.port == e.port
    &&& v.created_at == e.created_at
    &&& v.updated_at == e.updated_at
    &&& v.indexes@.len() == e.indexes@.len()
    &&& forall|k: int|
        0 <= k < v.indexes@.len() ==> spec_index_matches_entity(
            #[trigger] v.indexes@[k],
            e.indexes@[k],
        )
}

impl Index {
    /// Read one stored index row.
    pub fn from_entity(e: &IndexEntity) -> (r: Index)
        ensures
            spec_index_matches_entity(r, *e),
    {
        Index {
            id: e.id,
            index_type: e.index_type.clone(),
            data_source: e.data_source.clone(),
            regions: clone_string_vec(&e.regions),
            signature: e.signature.clone(),
            status: IndexStatus::from_db(e.status),
            created_at: e.created_at,
            updated_at: e.updated_at,
        }
    }
}

impl Environment {
    /// Read one stored environment row, its indexes included.
    pub fn from_entity(e: &EnvironmentEntity) -> (r: Environment)
        ensures
            spec_env_matches_entity(r, *e),
    {
        let mut indexes: Vec<Index> = Vec::new();
        let mut k: usize = 0;
        while k < e.indexes.len()
            invariant
                0 <= k <= e.indexes@.len(),
                indexes@.len() == k,
                forall|m: int|
                    0 <= m < k ==> spec_index_matches_entity(
                        #[trigger] indexes@[m],
                        e.indexes@[m],
                    ),
            decreases e.indexes@.len() - k,
        {
            indexes.push(Index::from_entity(&e.indexes[k]));
            k = k + 1;
        }
        Environment {
            id: e.id,
            name: e.name.clone(),
            signature: e.signature.clone(),
            port: e.port,
            indexes,
            created_at: e.created_at,
            updated_at: e.updated_at,
        }
    }
}

/// The response body for one environment.
pub struct SingleEnvironmentResponseBody {
    pub env: Option<Environment>,
}

impl SingleEnvironmentResponseBody {
    /// Wrap one environment.
    pub fn from_env(env: Environment) -> (r: SingleEnvironmentResponseBody)
        ensures
            r.env matches Some(v) && v == env,
    {
        SingleEnvironmentResponseBody { env: Some(env) }
    }
}

/// The response body for multiple environments, with their count.
pub struct MultiEnvironmentsResponseBody {
    pub envs: Vec<Environment>,
    pub envs_count: i32,
}

impl MultiEnvironmentsResponseBody {
    /// Wrap a list of environments; the count is its length.
    pub fn from_envs(envs: Vec<Environment>) -> (r: MultiEnvironmentsResponseBody)
        requires
            envs@.len() <= i32::MAX,
        ensures
            r.envs == envs,
            r.envs_count == envs@.len(),
    {
        let envs_count = envs.len() as i32;
        MultiEnvironmentsResponseBody { envs, envs_count }
    }
}

/// A request to create an environment.
pub struct EnvironmentRequestBody {
    pub name: String,
}

/// A request naming one environment.
pub struct EnvironmentIdBody {
    pub id: EntityId,
}

/// The response body for one index.
pub struct SingleIndexResponseBody {
    pub index: Option<Index>,
}

impl SingleIndexResponseBody {
    /// Wrap one index.
    pub fn from_index(index: Index) -> (r: SingleIndexResponseBody)
        ensures
            r.index matches Some(x) && x == index,
    {
        SingleIndexResponseBody { index: Some(index) }
    }
}

/// A request to create an index on an environment.
pub struct IndexRequestBody {
    pub environment: EntityId,
    pub index_type: String,
    pub data_source: String,
    pub regions: Vec<String>,
}

impl InputEnvironmentEntity {
    /// Turn a creation request into store input. The port is not known at
    /// this stage: it is set to zero and overwritten with the allocation
    /// result before persisting.
    pub fn from_request(request: EnvironmentRequestBody) -> (r: InputEnvironmentEntity)
        ensures
            r.name == request.name,
            r.port == 0,
    {
        InputEnvironmentEntity { name: request.name, port: 0i32 }
    }
}

impl InputIndexEntity {
    /// Turn an index creation request into store input.
    pub fn from_request(request: IndexRequestBody) -> (r: InputIndexEntity)
        ensures
            r.environment == request.environment,
            r.index_type == request.index_type,
            r.data_source == request.data_source,
            r.regions == request.regions,
    {
        InputIndexEntity {
            environment: request.environment,
            index_type: request.index_type,
            data_source: request.data_source,
            regions: request.regions,
        }
    }
}

/// Retrieve all environments, each carrying its indexes in creation order;
/// the count is the number of environments.
pub fn list_environments(store: &MemStore) -> (r: Result<MultiEnvironmentsResponseBody, Error>)
    requires
        store.wf(),
        store.environments@.len() <= i32::MAX,
    ensures
        r matches Ok(body) && {
            &&& body.envs_count == store.environments@.len()
            &&& body.envs@.len() == store.environments@.len()
            &&& forall|i: int|
                0 <= i < body.envs@.len() ==> spec_env_matches_entity(
                    #[trigger] body.envs@[i],
                    store.environments@[i],
                )
        },
{
    let entities = match store.get_all_environments() {
        Ok(v) => v,
        Err(_) => {
            proof {
                assert(false);
            }
            Vec::new()
        },
    };
    let mut environments: Vec<Environment> = Vec::new();
    let mut i: usize = 0;
    while i < entities.len()
        invariant
            store.wf(),
            entities@.len() == store.environments@.len(),
            forall|j: int|
                0 <= j < entities@.len() ==> (#[trigger] entities@[j]).id
                    == store.environments@[j].id && entities@[j].name@
                    == store.environments@[j].name@ && entities@[j].signature@
                    == store.environments@[j].signature@ && entities@[j].port
                    == store.environments@[j].port && entities@[j].created_at
                    == store.environments@[j].created_at && entities@[j].updated_at
                    == store.environments@[j].updated_at,
            0 <= i <= entities@.len(),
            environments@.len() == i,
            forall|j: int|
                0 <= j < i ==> spec_env_matches_entity(
                    #[trigger] environments@[j],
                    store.environments@[j],
                ),
        decreases entities@.len() - i,
    {
        let indexes = match store.get_environment_indexes(entities[i].id) {
            Ok(v) => v,
            Err(_) => {
                proof {
                    assert(false);
                }
                Vec::new()
            },
        };
        proof {
            let id = entities@[i as int].id;
            assert(store.environments@[i as int].id == id);
            assert(spec_has_env_id(*store, id));
            let k = spec_env_index_of(*store, id)->Some_0;
            assert(0 <= k < store.environments@.len() && store.environments@[k].id == id);
            assert(k == i as int);
        }
        let mut entity = clone_entity_shallow_local(&entities[i]);
        entity.indexes = indexes;
        environments.push(Environment::from_entity(&entity));
        i = i + 1;
    }
    Ok(MultiEnvironmentsResponseBody::from_envs(environments))
}

/// Copy an environment row without its indexes.
fn clone_entity_shallow_local(e: &EnvironmentEntity) -> (r: EnvironmentEntity)
    ensures
        r.id == e.id,
        r.name@ == e.name@,
        r.signature@ == e.signature@,
        r.port == e.port,
        r.created_at == e.created_at,
        r.updated_at == e.updated_at,
        r.indexes@.len() == 0,
{
    EnvironmentEntity {
        id: e.id,
        name: e.name.clone(),
        signature: e.signature.clone(),
        port: e.port,
        indexes: Vec::new(),
        created_at: e.created_at,
        updated_at: e.updated_at,
    }
}

/// Create a new environment row for an already provisioned environment,
/// recording the allocated port; a taken name is refused with
/// `UniqueViolation` and the store is left as it was.
pub fn create_environment(store: &mut MemStore, request: EnvironmentRequestBody, port: u16) -> (r:
    Result<SingleEnvironmentResponseBody, Error>)
    requires
        old(store).wf(),
        old(store).next_id < EntityId::MAX,
        old(store).clock < i64::MAX,
    ensures
        final(store).wf(),
        match r {
            Ok(body) => {
                &&& !spec_has_env_name(*old(store), request.name@)
                &&& body.env matches Some(v) && v.id == old(store).next_id && v.name@
                    == request.name@ && v.port == port as i32 && v.signature@ == "sig-"@
                    + spec_dec(old(store).next_id as nat) && v.indexes@.len() == 0
                    && v.created_at == old(store).clock && v.updated_at == old(store).clock
                    && spec_env_matches_entity(v, final(store).environments@.last())
                &&& final(store).environments@.len() == old(store).environments@.len() + 1
                &&& forall|i: int|
                    0 <= i < old(store).environments@.len() ==> final(store).environments@[i]
                        == old(store).environments@[i]
                &&& final(store).next_id == old(store).next_id + 1
                &&& final(store).clock == old(store).clock + 1
            },
            Err(e) => {
                &&& e matches Error::UniqueViolation { details } && details@ == "Key (name)=("@
                    + request.name@ + ") already exists."@
                &&& spec_has_env_name(*old(store), request.name@)
                &&& *final(store) == *old(store)
            },
        },
{
    let mut input = InputEnvironmentEntity::from_request(request);
    input.port = port as i32;
    match store.create_environment(&input) {
        Ok(e) => {
            let environment = Environment::from_entity(&e);
            Ok(SingleEnvironmentResponseBody::from_env(environment))
        },
        Err(pe) => Err(pe.to_error()),
    }
}

/// Delete an environment and return it, its indexes included; an unknown id
/// yields `NotFound`.
pub fn delete_environment(store: &mut MemStore, id: EnvironmentIdBody) -> (r: Result<
    SingleEnvironmentResponseBody,
    Error,
>)
    requires
        old(store).wf(),
    ensures
        final(store).wf(),
        match r {
            Ok(body) => {
                &&& spec_env_index_of(*old(store), id.id) matches Some(i) && body.env matches Some(
                    v,
                ) && spec_env_matches_entity(v, old(store).environments@[i])
                    && final(store).environments@ == old(store).environments@.remove(i)
                &&& final(store).next_id == old(store).next_id
                &&& final(store).clock == old(store).clock
            },
            Err(e) => {
                &&& e == Error::NotFound
                &&& !spec_has_env_id(*old(store), id.id)
                &&& *final(store) == *old(store)
            },
        },
{
    match store.delete_environment(id.id) {
        Ok(e) => Ok(SingleEnvironmentResponseBody::from_env(Environment::from_entity(&e))),
        Err(pe) => Err(pe.to_error()),
    }
}

/// Create a new index on an existing environment; an unknown environment id
/// violates the foreign relation and yields `ModelViolation`, leaving the
/// store as it was.
pub fn create_index(store: &mut MemStore, request: IndexRequestBody) -> (r: Result<
    SingleIndexResponseBody,
    Error,
>)
    requires
        old(store).wf(),
        old(store).next_id < EntityId::MAX,
        old(store).clock < i64::MAX,
    ensures
        final(store).wf(),
        match r {
            Ok(body) => body.index matches Some(x) && exists|e: IndexEntity|
                spec_create_index_ok(
                    *old(store),
                    (InputIndexEntity {
                        environment: request.environment,
                        index_type: request.index_type,
                        data_source: request.data_source,
                        regions: request.regions,
                    }),
                    *final(store),
                    e,
                ) && spec_index_matches_entity(x, e),
            Err(e) => {
                &&& e matches Error::ModelViolation { details } && details@
                    == "insert or update violates foreign key constraint (environment)"@
                &&& !spec_has_env_id(*old(store), request.environment)
                &&& *final(store) == *old(store)
            },
        },
{
    let input = InputIndexEntity::from_request(request);
    match store.create_index(&input) {
        Ok(e) => {
            let index = Index::from_entity(&e);
            proof {
                assert(spec_create_index_ok(*old(store), input, *store, e));
            }
            Ok(SingleIndexResponseBody::from_index(index))
        },
        Err(pe) => Err(pe.to_error()),
    }
}

} // verus!
