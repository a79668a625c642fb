use vstd::prelude::*;
use vstd::string::*;

use crate::json::{find_member, lemma_member_at, member, same_text, Json};
use crate::message::{origin_of, stamped, CacheMessage, EntityCacheMessageParams};

verus! {

/// Why a payload could not be read as a cache message.
#[derive(Debug, PartialEq, Eq, Structural)]
pub enum DecodeError {
    /// The payload is not UTF-8 text.
    InvalidUtf8,
    /// The text is not a JSON document.
    InvalidJson,
    /// The document is JSON but not one of the message shapes.
    InvalidShape,
}

/// A member that must be a string.
pub open spec fn required_text(v: Option<Json>) -> Option<String> {
    match v {
        Some(Json::Str(s)) => Some(s),
        _ => None,
    }
}

/// A member that may be a string, `null` or absent; `None` when it is something else.
pub open spec fn optional_text(v: Option<Json>) -> Option<Option<String>> {
    match v {
        None => Some(None),
        Some(Json::Null) => Some(None),
        Some(Json::Str(s)) => Some(Some(s)),
        _ => None,
    }
}

/// The entity parameters that a JSON value holds, if it has their shape.
pub open spec fn params_from(v: Option<Json>) -> Option<EntityCacheMessageParams> {
    match v {
        Some(Json::Object(fs)) => {
            let id = required_text(member(fs@, "id"@));
            let uuid = required_text(member(fs@, "uuid"@));
            let bundle = optional_text(member(fs@, "bundle"@));
            let operation = required_text(member(fs@, "operation"@));
            if id is Some && uuid is Some && bundle is Some && operation is Some {
                Some(
                    EntityCacheMessageParams {
                        id: id->Some_0,
                        uuid: uuid->Some_0,
                        bundle: bundle->Some_0,
                        operation: operation->Some_0,
                    },
                )
            } else {
                None
            }
        },
        _ => None,
    }
}

/// The message that a JSON document holds: an object whose `type` member is
/// `"entity"` or `"cache_rebuild"`, with the members of that variant.
/// Members that the variant does not name are ignored.
pub open spec fn decoded(j: Json) -> Result<CacheMessage, DecodeError> {
    match j {
        Json::Object(fs) => match member(fs@, "type"@) {
            Some(Json::Str(t)) => {
                let origin = optional_text(member(fs@, "origin"@));
                if t@ == "entity"@ {
                    let sub_type = required_text(member(fs@, "subType"@));
                    let params = params_from(member(fs@, "params"@));
                    if sub_type is Some && params is Some && origin is Some {
                        Ok(
                            CacheMessage::Entity {
                                sub_type: sub_type->Some_0,
                                params: params->Some_0,
                                origin: origin->Some_0,
                            },
                        )
                    } else {
                        Err(DecodeError::InvalidShape)
                    }
                } else if t@ == "cache_rebuild"@ {
                    if origin is Some {
                        Ok(CacheMessage::CacheRebuild { origin: origin->Some_0 })
                    } else {
                        Err(DecodeError::InvalidShape)
                    }
                } else {
                    Err(DecodeError::InvalidShape)
                }
            },
            _ => Err(DecodeError::InvalidShape),
        },
        _ => Err(DecodeError::InvalidShape),
    }
}

/// `null` for no value, else the string.
pub open spec fn optional_json(o: Option<String>) -> Json {
    match o {
        None => Json::Null,
        Some(s) => Json::Str(s),
    }
}

/// `j` is the object `{"id", "uuid", "bundle", "operation"}` of `p`, in that order.
pub open spec fn is_params_json(p: EntityCacheMessageParams, j: Json) -> bool {
    match j {
        Json::Object(fs) => {
            &&& fs@.len() == 4
            &&& fs@[0].0@ == "id"@ && fs@[0].1 == Json::Str(p.id)
            &&& fs@[1].0@ == "uuid"@ && fs@[1].1 == Json::Str(p.uuid)
            &&& fs@[2].0@ == "bundle"@ && fs@[2].1 == optional_json(p.bundle)
            &&& fs@[3].0@ == "operation"@ && fs@[3].1 == Json::Str(p.operation)
        },
        _ => false,
    }
}

/// `j` is the wire form of `m`: an object whose first member is the `type` tag,
/// followed by the variant's members in order, `origin` last.
pub open spec fn is_message_json(m: CacheMessage, j: Json) -> bool {
    match j {
        Json::Object(fs) => match m {
            CacheMessage::Entity { sub_type, params, origin } => {
                &&& fs@.len() == 4
                &&& fs@[0].0@ == "type"@ && fs@[0].1 is Str && fs@[0].1->Str_0@ == "entity"@
                &&& fs@[1].0@ == "subType"@ && fs@[1].1 == Json::Str(sub_type)
                &&& fs@[2].0@ == "params"@ && is_params_json(params, fs@[2].1)
                &&& fs@[3].0@ == "origin"@ && fs@[3].1 == optional_json(origin)
            },
            CacheMessage::CacheRebuild { origin } => {
                &&& fs@.len() == 2
                &&& fs@[0].0@ == "type"@ && fs@[0].1 is Str && fs@[0].1->Str_0@
                    == "cache_rebuild"@
                &&& fs@[1].0@ == "origin"@ && fs@[1].1 == optional_json(origin)
            },
        },
        _ => false,
    }
}

proof fn lemma_params_round_trip(p: EntityCacheMessageParams, j: Json)
    requires
        is_params_json(p, j),
    ensures
        params_from(Some(j)) == Some(p),
{
    reveal_strlit("id");
    reveal_strlit("uuid");
    reveal_strlit("bundle");
    reveal_strlit("operation");
    let fs = j->Object_0@;
    assert("id"@.len() == 2 && "uuid"@.len() == 4 && "bundle"@.len() == 6);
    assert("operation"@.len() == 9);
    lemma_member_at(fs, "id"@, 0);
    lemma_member_at(fs, "uuid"@, 1);
    lemma_member_at(fs, "bundle"@, 2);
    lemma_member_at(fs, "operation"@, 3);
}

/// Reading back the wire form of a message gives the message.
pub proof fn lemma_decode_message_json(m: CacheMessage, j: Json)
    requires
        is_message_json(m, j),
    ensures
        decoded(j) == Ok::<CacheMessage, DecodeError>(m),
{
    reveal_strlit("type");
    reveal_strlit("subType");
    reveal_strlit("params");
    reveal_strlit("origin");
    reveal_strlit("entity");
    reveal_strlit("cache_rebuild");
    let fs = j->Object_0@;
    lemma_member_at(fs, "type"@, 0);
    match m {
        CacheMessage::Entity { sub_type, params, origin } => {
            assert("type"@.len() == 4 && "subType"@.len() == 7 && "params"@.len() == 6);
            assert("params"@[0] != "origin"@[0]);
            lemma_member_at(fs, "subType"@, 1);
            lemma_member_at(fs, "params"@, 2);
            lemma_member_at(fs, "origin"@, 3);
            lemma_params_round_trip(params, fs[2].1);
        },
        CacheMessage::CacheRebuild { origin } => {
            assert("type"@.len() != "origin"@.len());
            assert("entity"@.len() != "cache_rebuild"@.len());
            lemma_member_at(fs, "origin"@, 1);
        },
    }
}

/// A message stamped with an origin and written as a JSON document reads back as
/// the stamped message, whose origin is the one given.
pub proof fn lemma_round_trip_keeps_origin(m: CacheMessage, o: String, j: Json)
    requires
        is_message_json(stamped(m, o), j),
    ensures
        decoded(j) == Ok::<CacheMessage, DecodeError>(stamped(m, o)),
        decoded(j) matches Ok(d) && origin_of(d) == Some(o),
{
    lemma_decode_message_json(stamped(m, o), j);
}

/// The value behind a looked-up member.
pub open spec fn present(v: Option<&Json>) -> Option<Json> {
    match v {
        Some(x) => Some(*x),
        None => None,
    }
}

fn read_required(v: Option<&Json>) -> (r: Option<String>)
    ensures
        r == required_text(present(v)),
{
    match v {
        Some(Json::Str(s)) => Some(s.clone()),
        _ => None,
    }
}

fn read_optional(v: Option<&Json>) -> (r: Option<Option<String>>)
    ensures
        r == optional_text(present(v)),
{
    match v {
        None => Some(None),
        Some(Json::Null) => Some(None),
        Some(Json::Str(s)) => Some(Some(s.clone())),
        _ => None,
    }
}

fn read_params(v: Option<&Json>) -> (r: Option<EntityCacheMessageParams>)
    ensures
        r == params_from(present(v)),
{
    match v {
        Some(Json::Object(fs)) => {
            let id = read_required(find_member(fs, "id"));
            let uuid = read_required(find_member(fs, "uuid"));
            let bundle = read_optional(find_member(fs, "bundle"));
            let operation = read_required(find_member(fs, "operation"));
            match (id, uuid, bundle, operation) {
                (Some(id), Some(uuid), Some(bundle), Some(operation)) => Some(
                    EntityCacheMessageParams { id, uuid, bundle, operation },
                ),
                _ => None,
            }
        },
        _ => None,
    }
}

/// Reads a cache message out of a JSON document.
pub fn from_json(j: &Json) -> (r: Result<CacheMessage, DecodeError>)
    ensures
        r == decoded(*j),
{
    match j {
        Json::Object(fs) => match find_member(fs, "type") {
            Some(Json::Str(t)) => {
                let origin = read_optional(find_member(fs, "origin"));
                if same_text(t.as_str(), "entity") {
                    let sub_type = read_required(find_member(fs, "subType"));
                    let params = read_params(find_member(fs, "params"));
                    match (sub_type, params, origin) {
                        (Some(sub_type), Some(params), Some(origin)) => Ok(
                            CacheMessage::Entity { sub_type, params, origin },
                        ),
                        _ => Err(DecodeError::InvalidShape),
                    }
                } else if same_text(t.as_str(), "cache_rebuild") {
                    match origin {
                        Some(origin) => Ok(CacheMessage::CacheRebuild { origin }),
                        None => Err(DecodeError::InvalidShape),
                    }
                } else {
                    Err(DecodeError::InvalidShape)
                }
            },
            _ => Err(DecodeError::InvalidShape),
        },
        _ => Err(DecodeError::InvalidShape),
    }
}

fn text(s: &str) -> (r: Json)
    ensures
        r is Str && r->Str_0@ == s@,
{
    Json::Str(String::from_str(s))
}

fn optional_to_json(o: &Option<String>) -> (r: Json)
    ensures
        r == optional_json(*o),
{
    match o {
        None => Json::Null,
        Some(s) => Json::Str(s.clone()),
    }
}

fn params_to_json(p: &EntityCacheMessageParams) -> (r: Json)
    ensures
        is_params_json(*p, r),
{
    let mut fs: Vec<(String, Json)> = Vec::new();
    fs.push((String::from_str("id"), Json::Str(p.id.clone())));
    fs.push((String::from_str("uuid"), Json::Str(p.uuid.clone())));
    fs.push((String::from_str("bundle"), optional_to_json(&p.bundle)));
    fs.push((String::from_str("operation"), Json::Str(p.operation.clone())));
    Json::Object(fs)
}

/// Writes a cache message as a JSON document: its `type` tag first, then the
/// variant's members, `origin` last (`null` when unset).
pub fn to_json(m: &CacheMessage) -> (r: Json)
    ensures
        is_message_json(*m, r),
        decoded(r) == Ok::<CacheMessage, DecodeError>(*m),
{
    let mut fs: Vec<(String, Json)> = Vec::new();
    match m {
        CacheMessage::Entity { sub_type, params, origin } => {
            fs.push((String::from_str("type"), text("entity")));
            fs.push((String::from_str("subType"), Json::Str(sub_type.clone())));
            fs.push((String::from_str("params"), params_to_json(params)));
            fs.push((String::from_str("origin"), optional_to_json(origin)));
        },
        CacheMessage::CacheRebuild { origin } => {
            fs.push((String::from_str("type"), text("cache_rebuild")));
            fs.push((String::from_str("origin"), optional_to_json(origin)));
        },
    }
    let r = Json::Object(fs);
    proof {
        lemma_decode_message_json(*m, r);
    }
    r
}

/// The JSON string literal that serde_json writes for a text: the text in
/// double quotes, with quotes, backslashes and control characters escaped.
pub uninterp spec fn json_quoted(s: Seq<char>) -> Seq<char>;

/// Relies on serde_json::to_string on a `str`: the text as a quoted, escaped
/// JSON string. It writes into memory, where writing cannot fail.
#[verifier::external_body]
fn quoted(s: &str) -> (r: String)
    ensures
        r@ == json_quoted(s@),
{
    serde_json::to_string(s).unwrap_or_default()
}

/// `null` for no value, else the quoted string.
pub open spec fn optional_quoted(o: Option<String>) -> Seq<char> {
    match o {
        None => "null"@,
        Some(s) => json_quoted(s@),
    }
}

/// The wire text of a message: the `type` tag first, then the variant's
/// members in order, `origin` last, with no whitespace.
pub open spec fn wire_text(m: CacheMessage) -> Seq<char> {
    match m {
        CacheMessage::Entity { sub_type, params, origin } => "{\"type\":\"entity\",\"subType\":"@
            + json_quoted(sub_type@) + ",\"params\":{\"id\":"@ + json_quoted(params.id@)
            + ",\"uuid\":"@ + json_quoted(params.uuid@) + ",\"bundle\":"@ + optional_quoted(
            params.bundle,
        ) + ",\"operation\":"@ + json_quoted(params.operation@) + "},\"origin\":"@
            + optional_quoted(origin) + "}"@,
        CacheMessage::CacheRebuild { origin } => "{\"type\":\"cache_rebuild\",\"origin\":"@
            + optional_quoted(origin) + "}"@,
    }
}

fn append_optional(out: &mut String, o: &Option<String>)
    ensures
        final(out)@ == old(out)@ + optional_quoted(*o),
{
    match o {
        None => out.append("null"),
        Some(s) => out.append(quoted(s.as_str()).as_str()),
    }
}

/// Writes a message as JSON text in its wire form.
pub fn encode(m: &CacheMessage) -> (r: String)
    ensures
        r@ == wire_text(*m),
{
    match m {
        CacheMessage::Entity { sub_type, params, origin } => {
            let mut out = String::from_str("{\"type\":\"entity\",\"subType\":");
            out.append(quoted(sub_type.as_str()).as_str());
            out.append(",\"params\":{\"id\":");
            out.append(quoted(params.id.as_str()).as_str());
            out.append(",\"uuid\":");
            out.append(quoted(params.uuid.as_str()).as_str());
            out.append(",\"bundle\":");
            append_optional(&mut out, &params.bundle);
            out.append(",\"operation\":");
            out.append(quoted(params.operation.as_str()).as_str());
            out.append("},\"origin\":");
            append_optional(&mut out, origin);
            out.append("}");
            out
        },
        CacheMessage::CacheRebuild { origin } => {
            let mut out = String::from_str("{\"type\":\"cache_rebuild\",\"origin\":");
            append_optional(&mut out, origin);
            out.append("}");
            out
        },
    }
}

} // verus!
