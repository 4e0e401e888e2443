//! Cedar: schemas, policies, entities and requests, and the calls into `cedar_policy` that decide
//! on them.

use crate::string_map::entries_map;
use cedar_policy::{
    Authorizer, AuthorizationError, Decision, EntityId, EntityTypeName, EntityUid, EvaluationError,
    RestrictedExpression,
};
use std::collections::HashSet;
use std::str::FromStr;
use vstd::prelude::*;

verus! {

/// Why a schema cannot be read, carried as it came.
#[verifier::external_type_specification]
#[verifier::external_body]
pub struct ExCedarSchemaError(cedar_policy::CedarSchemaError);

/// Why policies cannot be read, carried as it came.
#[verifier::external_type_specification]
#[verifier::external_body]
pub struct ExParseErrors(cedar_policy::ParseErrors);

/// Why entities do not fit a schema, carried as it came.
#[verifier::external_type_specification]
#[verifier::external_body]
pub struct ExEntitiesError(cedar_policy::entities_errors::EntitiesError);

/// Why an entity cannot be built, carried as it came.
#[verifier::external_type_specification]
#[verifier::external_body]
pub struct ExEntityAttrEvaluationError(cedar_policy::EntityAttrEvaluationError);

/// Why a request does not fit a schema, carried as it came.
#[verifier::external_type_specification]
#[verifier::external_body]
pub struct ExRequestValidationError(cedar_policy::RequestValidationError);

/// A schema in the form that Cedar works on.
#[verifier::external_type_specification]
#[verifier::external_body]
pub struct ExSchema(cedar_policy::Schema);

/// Policies in the form that Cedar works on.
#[verifier::external_type_specification]
#[verifier::external_body]
pub struct ExPolicySet(cedar_policy::PolicySet);

/// An entity in the form that Cedar works on.
#[verifier::external_type_specification]
#[verifier::external_body]
pub struct ExEntity(cedar_policy::Entity);

/// Several entities in the form that Cedar works on.
#[verifier::external_type_specification]
#[verifier::external_body]
pub struct ExEntities(cedar_policy::Entities);

/// A request in the form that Cedar works on.
#[verifier::external_type_specification]
#[verifier::external_body]
pub struct ExRequest(cedar_policy::Request);

/// Whether a text is a schema.
pub uninterp spec fn is_schema(source: Seq<char>) -> bool;

/// A schema: its text, beside what Cedar made of it. Only [`PolicySchema::parse`] makes one.
pub struct PolicySchema {
    source: String,
    schema: cedar_policy::Schema,
}

impl View for PolicySchema {
    type V = Seq<char>;

    closed spec fn view(&self) -> Seq<char> {
        self.source@
    }
}

/// Calls `cedar_policy::Schema::from_cedarschema_str`, which reads a schema and fails on what is
/// none; [`is_schema`] names when. Its warnings are dropped.
#[verifier::external_body]
fn read_schema(source: String) -> (schema: Result<PolicySchema, cedar_policy::CedarSchemaError>)
    ensures
        schema is Ok <==> is_schema(source@),
        schema matches Ok(s) ==> s@ == source@,
{
    let schema = cedar_policy::Schema::from_cedarschema_str(&source)?.0;
    Ok(PolicySchema { source, schema })
}

impl PolicySchema {
    /// Reads a schema.
    pub fn parse(source: String) -> (schema: Result<PolicySchema, cedar_policy::CedarSchemaError>)
        ensures
            schema is Ok <==> is_schema(source@),
            schema matches Ok(s) ==> s@ == source@,
    {
        read_schema(source)
    }
}

/// Whether a text is a set of policies.
pub uninterp spec fn is_policy_set(source: Seq<char>) -> bool;

/// Policies: their text, beside what Cedar made of it. Only [`Policies::parse`] makes them.
pub struct Policies {
    source: String,
    set: cedar_policy::PolicySet,
}

impl View for Policies {
    type V = Seq<char>;

    closed spec fn view(&self) -> Seq<char> {
        self.source@
    }
}

/// Calls `cedar_policy::PolicySet::from_str`, which reads policies and fails on what are none;
/// [`is_policy_set`] names when.
#[verifier::external_body]
fn read_policies(source: String) -> (policies: Result<Policies, cedar_policy::ParseErrors>)
    ensures
        policies is Ok <==> is_policy_set(source@),
        policies matches Ok(p) ==> p@ == source@,
{
    let set = cedar_policy::PolicySet::from_str(&source)?;
    Ok(Policies { source, set })
}

impl Policies {
    /// Reads policies.
    pub fn parse(source: String) -> (policies: Result<Policies, cedar_policy::ParseErrors>)
        ensures
            policies is Ok <==> is_policy_set(source@),
            policies matches Ok(p) ==> p@ == source@,
    {
        read_policies(source)
    }
}

/// The entity type of a workflow run.
pub const WORKFLOW_RUN_TYPE: &'static str = "Oidcx::WorkflowRun";

/// The entity type of a repository.
pub const REPOSITORY_TYPE: &'static str = "Oidcx::Repository";

/// The entity type of a silo.
pub const SILO_TYPE: &'static str = "Oidcx::Silo";

/// The entity type of an action.
pub const ACTION_TYPE: &'static str = "Oidcx::Action";

/// `kind` is one of the entity types in use.
pub open spec fn is_entity_type(kind: Seq<char>) -> bool {
    ||| kind == WORKFLOW_RUN_TYPE@
    ||| kind == REPOSITORY_TYPE@
    ||| kind == SILO_TYPE@
    ||| kind == ACTION_TYPE@
}

/// What names an entity.
pub struct UidModel {
    pub kind: Seq<char>,
    pub id: Seq<char>,
}

/// What an entity holds. All attributes in use are strings.
#[verifier::ext_equal]
pub struct EntityModel {
    pub uid: UidModel,
    pub attributes: Map<Seq<char>, Seq<char>>,
}

/// The attributes of a list; of two under one name the later counts.
pub open spec fn attribute_map(attributes: Seq<(String, String)>) -> Map<Seq<char>, Seq<char>> {
    entries_map(attributes).map_values(|value: String| value@)
}

/// An entity: what it holds, beside what Cedar made of it. Only [`build_entity`] makes one.
pub struct PolicyEntity {
    kind: String,
    id: String,
    attributes: Vec<(String, String)>,
    entity: cedar_policy::Entity,
}

impl View for PolicyEntity {
    type V = EntityModel;

    closed spec fn view(&self) -> EntityModel {
        EntityModel {
            uid: UidModel { kind: self.kind@, id: self.id@ },
            attributes: attribute_map(self.attributes@),
        }
    }
}

/// Calls `cedar_policy::Entity::new` with string attributes and no parents. Such attributes always
/// evaluate, but each evaluation asks for 100 KiB of stack, and the call fails where there is
/// less. Whether it succeeds is therefore left unsaid.
#[verifier::external_body]
pub(crate) fn build_entity(
    kind: String,
    id: String,
    attributes: Vec<(String, String)>,
) -> (entity: Result<PolicyEntity, cedar_policy::EntityAttrEvaluationError>)
    requires
        is_entity_type(kind@),
    ensures
        entity matches Ok(e) ==> e@ == (EntityModel {
            uid: UidModel { kind: kind@, id: id@ },
            attributes: attribute_map(attributes@),
        }),
{
    let name = EntityTypeName::from_str(&kind).expect("invalid entity type name");
    let uid = EntityUid::from_type_name_and_id(name, EntityId::new(&id));
    let values = attributes.iter().map(|(name, value)| {
        (name.clone(), RestrictedExpression::new_string(value.clone()))
    });
    let entity = cedar_policy::Entity::new(uid, values.collect(), HashSet::new())?;
    Ok(PolicyEntity { kind, id, attributes, entity })
}

impl PolicyEntity {
    /// The entity's type.
    pub fn kind(&self) -> (kind: &str)
        ensures
            kind@ == self@.uid.kind,
    {
        self.kind.as_str()
    }

    /// The entity's id within its type.
    pub fn id(&self) -> (id: &str)
        ensures
            id@ == self@.uid.id,
    {
        self.id.as_str()
    }

    /// The value of the attribute `name`.
    pub fn attr(&self, name: &str) -> (value: Option<&str>)
        ensures
            match value {
                Some(v) => self@.attributes.contains_key(name@) && self@.attributes[name@] == v@,
                None => !self@.attributes.contains_key(name@),
            },
    {
        let mut found: Option<&str> = None;
        let mut i: usize = 0;
        while i < self.attributes.len()
            invariant
                i <= self.attributes@.len(),
                match found {
                    Some(v) => {
                        &&& attribute_map(self.attributes@.take(i as int)).contains_key(name@)
                        &&& attribute_map(self.attributes@.take(i as int))[name@] == v@
                    },
                    None => !attribute_map(self.attributes@.take(i as int)).contains_key(name@),
                },
            decreases self.attributes@.len() - i,
        {
            assert(self.attributes@.take(i + 1).drop_last() =~= self.attributes@.take(i as int));
            if *self.attributes[i].0.as_str() == *name {
                found = Some(self.attributes[i].1.as_str());
            }
            i = i + 1;
        }
        assert(self.attributes@.take(i as int) =~= self.attributes@);
        found
    }
}

/// What each of several entities holds.
pub open spec fn entity_models(entities: Seq<&PolicyEntity>) -> Seq<EntityModel> {
    entities.map_values(|entity: &PolicyEntity| entity@)
}

/// Whether entities, together with the actions of a schema, fit that schema.
pub uninterp spec fn entities_fit(schema: Seq<char>, entities: Seq<EntityModel>) -> bool;

/// Entities that fit a schema: what they were made from, beside what Cedar made of them. Only
/// [`gather_entities`] makes them.
pub struct EntityStore<'a> {
    schema: &'a PolicySchema,
    members: Vec<&'a PolicyEntity>,
    entities: cedar_policy::Entities,
}

/// The schema that entities fit, and what they hold.
pub struct EntityStoreModel {
    pub schema: Seq<char>,
    pub members: Seq<EntityModel>,
}

impl<'a> View for EntityStore<'a> {
    type V = EntityStoreModel;

    closed spec fn view(&self) -> EntityStoreModel {
        EntityStoreModel { schema: self.schema@, members: entity_models(self.members@) }
    }
}

/// Calls `cedar_policy::Entities::from_entities` with a schema, which adds the schema's actions
/// and fails on entities that do not fit it, or that differ and share an id; [`entities_fit`]
/// names when.
#[verifier::external_body]
pub(crate) fn gather_entities<'a>(
    schema: &'a PolicySchema,
    members: Vec<&'a PolicyEntity>,
) -> (store: Result<EntityStore<'a>, cedar_policy::entities_errors::EntitiesError>)
    ensures
        store is Ok <==> entities_fit(schema@, entity_models(members@)),
        store matches Ok(s) ==> s@ == (EntityStoreModel {
            schema: schema@,
            members: entity_models(members@),
        }),
{
    let entities = members.iter().map(|member| member.entity.clone());
    let entities = cedar_policy::Entities::from_entities(entities, Some(&schema.schema))?;
    Ok(EntityStore { schema, members, entities })
}

/// What a request asks: whether the principal may perform the action on the resource.
pub struct RequestModel {
    pub principal: UidModel,
    pub action: UidModel,
    pub resource: UidModel,
}

/// The request whether the principal may perform the action of that type and id on the resource.
pub open spec fn asked(
    principal: UidModel,
    action_kind: Seq<char>,
    action: Seq<char>,
    resource: UidModel,
) -> RequestModel {
    RequestModel { principal, action: UidModel { kind: action_kind, id: action }, resource }
}

/// Whether a request fits a schema.
pub uninterp spec fn request_fits(schema: Seq<char>, request: RequestModel) -> bool;

/// A request with an empty context: what it asks, beside what Cedar made of it. Only
/// [`build_request`] makes one.
pub struct PolicyRequest<'a> {
    principal: &'a PolicyEntity,
    action_kind: &'a str,
    action: &'a str,
    resource: &'a PolicyEntity,
    request: cedar_policy::Request,
}

impl<'a> View for PolicyRequest<'a> {
    type V = RequestModel;

    closed spec fn view(&self) -> RequestModel {
        RequestModel {
            principal: self.principal@.uid,
            action: UidModel { kind: self.action_kind@, id: self.action@ },
            resource: self.resource@.uid,
        }
    }
}

/// Calls `cedar_policy::Request::new` with an empty context and a schema, which fails on a request
/// that does not fit it; [`request_fits`] names when.
#[verifier::external_body]
pub(crate) fn build_request<'a>(
    schema: &PolicySchema,
    principal: &'a PolicyEntity,
    action_kind: &'a str,
    action: &'a str,
    resource: &'a PolicyEntity,
) -> (request: Result<PolicyRequest<'a>, cedar_policy::RequestValidationError>)
    requires
        is_entity_type(action_kind@),
    ensures
        request is Ok <==> request_fits(
            schema@,
            asked(principal@.uid, action_kind@, action@, resource@.uid),
        ),
        request matches Ok(r) ==> r@ == asked(
            principal@.uid,
            action_kind@,
            action@,
            resource@.uid,
        ),
{
    let name = EntityTypeName::from_str(action_kind).expect("invalid entity type name");
    let request = cedar_policy::Request::new(
        principal.entity.uid(),
        EntityUid::from_type_name_and_id(name, EntityId::new(action)),
        resource.entity.uid(),
        cedar_policy::Context::empty(),
        Some(&schema.schema),
    )?;
    Ok(PolicyRequest { principal, action_kind, action, resource, request })
}

/// A policy that could not be evaluated.
#[derive(Debug)]
pub struct PolicyFault {
    /// The id of the policy.
    pub policy: String,
    /// The evaluation ran out of stack.
    pub exhausted: bool,
    /// What went wrong, in words.
    pub message: String,
}

/// The ids of the policies whose evaluation ran out of stack.
pub open spec fn skipped_policies(errors: Seq<PolicyFault>) -> Set<Seq<char>> {
    Set::new(
        |id: Seq<char>|
            exists|i: int|
                0 <= i < errors.len() && errors[i].exhausted && #[trigger] errors[i].policy@ == id,
    )
}

/// Whether policies, without those of the skipped ids, allow a request, given entities.
pub uninterp spec fn policies_allow_without(
    policies: Seq<char>,
    request: RequestModel,
    store: EntityStoreModel,
    skipped: Set<Seq<char>>,
) -> bool;

/// How a request was decided.
#[derive(Debug)]
pub struct Verdict {
    pub allowed: bool,
    /// The policies that could not be evaluated.
    pub errors: Vec<PolicyFault>,
}

/// Calls `cedar_policy::Authorizer::is_authorized`, which evaluates each policy by itself and
/// takes one whose evaluation fails for absent. Whether an evaluation fails follows from the
/// policy, the request and the entities, but for one failure: each step asks for 100 KiB of stack,
/// and the evaluation ends where there is less. The decision is therefore a function of the
/// policies, the request, the entities and the ids of the policies that ran out of stack;
/// [`policies_allow_without`] names it. Which policies run out of stack depends on the machine and
/// is left unsaid, and so is what the messages say.
#[verifier::external_body]
pub(crate) fn decide(
    policies: &Policies,
    request: &PolicyRequest<'_>,
    store: &EntityStore<'_>,
) -> (verdict: Verdict)
    ensures
        verdict.allowed == policies_allow_without(
            policies@,
            request@,
            store@,
            skipped_policies(verdict.errors@),
        ),
{
    let authorizer = Authorizer::new();
    let response = authorizer.is_authorized(&request.request, &policies.set, &store.entities);
    let errors = response.diagnostics().errors().map(|error| match error {
        AuthorizationError::PolicyEvaluationError(fault) => PolicyFault {
            policy: AsRef::<str>::as_ref(fault.policy_id()).to_owned(),
            exhausted: matches!(fault.inner(), EvaluationError::RecursionLimit(_)),
            message: error.to_string(),
        },
    });
    let errors = errors.collect();
    Verdict { allowed: matches!(response.decision(), Decision::Allow), errors }
}

} // verus!
