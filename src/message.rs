use vstd::prelude::*;

verus! {

/// A request to rebuild the whole cache, as a record with its type tag.
#[derive(Debug)]
pub struct CacheRebuildMessage {
    pub msg_type: String,
}

/// A request about one entity, as a record with its type tag.
#[derive(Debug)]
pub struct EntityCacheMessage {
    pub msg_type: String,
    pub sub_type: String,
    pub params: EntityCacheMessageParams,
}

/// What identifies the entity that an entity message is about.
#[derive(Debug)]
pub struct EntityCacheMessageParams {
    pub id: String,
    pub uuid: String,
    pub bundle: Option<String>,
    pub operation: String,
}

/// A decoded cache event.
#[derive(Debug)]
pub enum CacheMessage {
    Entity { sub_type: String, params: EntityCacheMessageParams, origin: Option<String> },
    CacheRebuild { origin: Option<String> },
}

/// The origin marker of a message, whatever its variant.
pub open spec fn origin_of(m: CacheMessage) -> Option<String> {
    match m {
        CacheMessage::Entity { origin, .. } => origin,
        CacheMessage::CacheRebuild { origin } => origin,
    }
}

/// The message `m` with its origin replaced by `o`, everything else kept.
pub open spec fn stamped(m: CacheMessage, o: String) -> CacheMessage {
    match m {
        CacheMessage::Entity { sub_type, params, .. } => CacheMessage::Entity {
            sub_type,
            params,
            origin: Some(o),
        },
        CacheMessage::CacheRebuild { .. } => CacheMessage::CacheRebuild { origin: Some(o) },
    }
}

impl CacheMessage {
    /// Returns the message with its origin set to `new_origin`, in either variant.
    pub fn with_origin(self, new_origin: String) -> (r: Self)
        ensures
            r == stamped(self, new_origin),
            origin_of(r) == Some(new_origin),
    {
        match self {
            CacheMessage::Entity { sub_type, params, origin: _ } => CacheMessage::Entity {
                sub_type,
                params,
                origin: Some(new_origin),
            },
            CacheMessage::CacheRebuild { origin: _ } => CacheMessage::CacheRebuild {
                origin: Some(new_origin),
            },
        }
    }

    /// The origin marker of the message.
    pub fn origin(&self) -> (r: &Option<String>)
        ensures
            *r == origin_of(*self),
    {
        match self {
            CacheMessage::Entity { origin, .. } => origin,
            CacheMessage::CacheRebuild { origin } => origin,
        }
    }
}

/// Stamping twice with the same origin gives what stamping once gives.
pub proof fn lemma_with_origin_idempotent(m: CacheMessage, o: String)
    ensures
        stamped(stamped(m, o), o) == stamped(m, o),
{
}

/// Stamping with a second origin overwrites the first: the last one wins.
pub proof fn lemma_with_origin_last_wins(m: CacheMessage, o1: String, o2: String)
    ensures
        stamped(stamped(m, o1), o2) == stamped(m, o2),
        origin_of(stamped(stamped(m, o1), o2)) == Some(o2),
{
}

} // verus!
