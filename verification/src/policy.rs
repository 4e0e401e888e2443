//! Who may have which token: the principal of a request, what it asks for, and what the policies
//! say of it.

use crate::cedar::{
    build_entity, build_request, decide, gather_entities, EntityStore, Policies, PolicyEntity,
    PolicyFault, PolicyRequest, PolicySchema, Verdict, ACTION_TYPE, REPOSITORY_TYPE, SILO_TYPE,
    WORKFLOW_RUN_TYPE,
};
use crate::cedar::{
    asked, attribute_map, entities_fit, entity_models, policies_allow_without, request_fits,
    skipped_policies, EntityModel, EntityStoreModel, RequestModel, UidModel,
};
use crate::endpoints::TokenRequest;
use crate::jwt::ClaimModel;
use crate::oidc::{claim_text, Claims};
use crate::string_map::{entries_map, lemma_last_entry};
use crate::text::texts;
use crate::token::github::{GitHubTokenError, GitHubTokenRequest};
use crate::token::oxide::OxideTokenRequest;
use crate::util::Url;
use vstd::prelude::*;

verus! {

/// A refusal by the policies.
#[derive(Debug)]
pub struct Denial {
    /// The action that was refused.
    pub action: String,
    /// The policies that could not be evaluated.
    pub errors: Vec<PolicyFault>,
}

/// A permission by the policies.
#[derive(Debug)]
pub struct Grant {
    /// The ids of the policies that had no say, since their evaluation ran out of stack.
    pub skipped: Vec<String>,
}

/// The ids of a list.
pub open spec fn id_set(ids: Seq<String>) -> Set<Seq<char>> {
    texts(ids).to_set()
}

/// Why a request is not authorized.
#[derive(Debug)]
pub enum PolicyError {
    ReadFile(String, String),
    InitSchema(cedar_policy::CedarSchemaError),
    InitPolicy(cedar_policy::ParseErrors),
    Entities(cedar_policy::entities_errors::EntitiesError),
    EntityEvaluation(cedar_policy::EntityAttrEvaluationError),
    Request(cedar_policy::RequestValidationError),
    NotMatching(Denial),
    EmptyRequest,
    NoPrincipal,
    GetVisibility(String, GitHubTokenError),
}

impl PolicyError {
    /// What went wrong, in words.
    pub open spec fn spec_message(self) -> Seq<char> {
        match self {
            PolicyError::ReadFile(path, _) => "Failed to read policy file "@ + path@,
            PolicyError::InitSchema(_) => "Failed to parse Cedar schema"@,
            PolicyError::InitPolicy(_) => "Failed to parse Cedar policy"@,
            PolicyError::Entities(_) => "Failed to construct Cedar entities"@,
            PolicyError::EntityEvaluation(_) => "Failed to evaluate Cedar entities"@,
            PolicyError::Request(_) => "Failed to construct Cedar authorization request"@,
            PolicyError::NotMatching(_) => "Does not match the authorization policy"@,
            PolicyError::EmptyRequest =>
                "Token request must specify at least one repository and one permission"@,
            PolicyError::NoPrincipal =>
                "Claims do not contain an id to construct a principal from"@,
            PolicyError::GetVisibility(repository, _) =>
                "failed to retrieve the repository visibility for "@ + repository@,
        }
    }

    /// What went wrong, in words.
    pub fn message(&self) -> (text: String)
        ensures
            text@ == self.spec_message(),
    {
        match self {
            PolicyError::ReadFile(path, _) => {
                let mut message = "Failed to read policy file ".to_owned();
                message.append(path.as_str());
                message
            },
            PolicyError::InitSchema(_) => "Failed to parse Cedar schema".to_owned(),
            PolicyError::InitPolicy(_) => "Failed to parse Cedar policy".to_owned(),
            PolicyError::Entities(_) => "Failed to construct Cedar entities".to_owned(),
            PolicyError::EntityEvaluation(_) => "Failed to evaluate Cedar entities".to_owned(),
            PolicyError::Request(_) =>
                "Failed to construct Cedar authorization request".to_owned(),
            PolicyError::NotMatching(_) => "Does not match the authorization policy".to_owned(),
            PolicyError::EmptyRequest =>
                "Token request must specify at least one repository and one permission".to_owned(),
            PolicyError::NoPrincipal =>
                "Claims do not contain an id to construct a principal from".to_owned(),
            PolicyError::GetVisibility(repository, _) => {
                let mut message = "failed to retrieve the repository visibility for ".to_owned();
                message.append(repository.as_str());
                message
            },
        }
    }
}

/// Adds an attribute to a list.
fn add_attribute(attributes: &mut Vec<(String, String)>, name: &str, value: &str)
    ensures
        attribute_map(final(attributes)@) == attribute_map(old(attributes)@).insert(name@, value@),
{
    let ghost before = attributes@;
    attributes.push((name.to_owned(), value.to_owned()));
    assert(attributes@.drop_last() =~= before);
    assert(attribute_map(attributes@) =~= attribute_map(before).insert(name@, value@));
}

/// The text of a claim, or no text where the claim is missing or a number.
pub open spec fn text_or_empty(claims: Map<Seq<char>, ClaimModel>, name: Seq<char>) -> Seq<char> {
    match claim_text(claims, name) {
        Some(text) => text,
        None => ""@,
    }
}

/// Adds the text of a claim to a list of attributes, or no text where the claim is missing or a
/// number.
fn add_claim(attributes: &mut Vec<(String, String)>, claims: &Claims, name: &str)
    ensures
        attribute_map(final(attributes)@) == attribute_map(old(attributes)@).insert(
            name@,
            text_or_empty(claims@, name@),
        ),
{
    match claims.get_str(name) {
        Some(text) => add_attribute(attributes, name, text),
        None => add_attribute(attributes, name, ""),
    }
}

/// The attributes of the workflow run that a token stands for. The environment is one only where
/// the token names it.
pub open spec fn workflow_run_model_attributes(claims: Map<Seq<char>, ClaimModel>) -> Map<
    Seq<char>,
    Seq<char>,
> {
    let required = Map::empty().insert("repository"@, text_or_empty(claims, "repository"@)).insert(
        "repository_owner"@,
        text_or_empty(claims, "repository_owner"@),
    ).insert("repository_visibility"@, text_or_empty(claims, "repository_visibility"@)).insert(
        "event_name"@,
        text_or_empty(claims, "event_name"@),
    ).insert("iss"@, text_or_empty(claims, "iss"@));
    match claim_text(claims, "environment"@) {
        Some(environment) => required.insert("environment"@, environment),
        None => required,
    }
}

/// The attributes of the workflow run that a token stands for.
pub fn workflow_run_attributes(claims: &Claims) -> (attributes: Vec<(String, String)>)
    ensures
        attribute_map(attributes@) == workflow_run_model_attributes(claims@),
{
    let mut attributes: Vec<(String, String)> = Vec::new();
    assert(attribute_map(attributes@) =~= Map::empty());
    add_claim(&mut attributes, claims, "repository");
    add_claim(&mut attributes, claims, "repository_owner");
    add_claim(&mut attributes, claims, "repository_visibility");
    add_claim(&mut attributes, claims, "event_name");
    add_claim(&mut attributes, claims, "iss");
    match claims.get_str("environment") {
        Some(environment) => add_attribute(&mut attributes, "environment", environment),
        None => {},
    }
    attributes
}

/// The workflow run that a token stands for, known by the id of the token.
pub open spec fn workflow_run_model(claims: Map<Seq<char>, ClaimModel>) -> Option<EntityModel> {
    match claim_text(claims, "jti"@) {
        Some(id) => Some(
            EntityModel {
                uid: UidModel { kind: WORKFLOW_RUN_TYPE@, id },
                attributes: workflow_run_model_attributes(claims),
            },
        ),
        None => None,
    }
}

/// The principal of a GitHub Actions token: the workflow run that it was made for. A token without
/// an id has none.
pub fn workflow_run_entity(claims: &Claims) -> (entity: Result<PolicyEntity, PolicyError>)
    ensures
        match workflow_run_model(claims@) {
            None => entity matches Err(PolicyError::NoPrincipal),
            Some(model) => match entity {
                Ok(e) => e@ == model,
                Err(error) => error is EntityEvaluation,
            },
        },
{
    match claims.get_str("jti") {
        Some(id) => {
            let attributes = workflow_run_attributes(claims);
            match build_entity(WORKFLOW_RUN_TYPE.to_owned(), id.to_owned(), attributes) {
                Ok(entity) => Ok(entity),
                Err(error) => Err(PolicyError::EntityEvaluation(error)),
            }
        },
        None => Err(PolicyError::NoPrincipal),
    }
}

/// A repository as a resource.
pub open spec fn repository_model(name: Seq<char>, visibility: Seq<char>) -> EntityModel {
    EntityModel {
        uid: UidModel { kind: REPOSITORY_TYPE@, id: name },
        attributes: Map::empty().insert("name"@, name).insert("visibility"@, visibility),
    }
}

/// A silo as a resource.
pub open spec fn silo_model(url: Seq<char>) -> EntityModel {
    EntityModel {
        uid: UidModel { kind: SILO_TYPE@, id: url },
        attributes: Map::empty().insert("url"@, url),
    }
}

/// Entities that fit a schema, all of them together.
pub fn check_entities<'a>(
    schema: &'a PolicySchema,
    members: Vec<&'a PolicyEntity>,
) -> (store: Result<EntityStore<'a>, PolicyError>)
    ensures
        match store {
            Ok(s) => entities_fit(schema@, entity_models(members@)) && s@ == (EntityStoreModel {
                schema: schema@,
                members: entity_models(members@),
            }),
            Err(error) => !entities_fit(schema@, entity_models(members@)) && error is Entities,
        },
{
    match gather_entities(schema, members) {
        Ok(store) => Ok(store),
        Err(error) => Err(PolicyError::Entities(error)),
    }
}

/// The ids of the policies whose evaluation ran out of stack.
fn skipped_ids(errors: &Vec<PolicyFault>) -> (skipped: Vec<String>)
    ensures
        id_set(skipped@) == skipped_policies(errors@),
{
    let mut skipped: Vec<String> = Vec::new();
    let mut i: usize = 0;
    while i < errors.len()
        invariant
            i <= errors@.len(),
            forall|j: int|
                #![trigger errors@[j]]
                0 <= j < i && errors@[j].exhausted ==> id_set(skipped@).contains(
                    errors@[j].policy@,
                ),
            forall|id: Seq<char>| #[trigger]
                id_set(skipped@).contains(id) ==> skipped_policies(errors@).contains(id),
        decreases errors@.len() - i,
    {
        if errors[i].exhausted {
            let ghost before = skipped@;
            skipped.push(errors[i].policy.as_str().to_owned());
            proof {
                ids_pushed(before, skipped@.last());
                assert(skipped@ =~= before.push(skipped@.last()));
            }
        }
        i = i + 1;
    }
    assert(id_set(skipped@) =~= skipped_policies(errors@));
    skipped
}

/// An id that is added to a list is added to its ids.
proof fn ids_pushed(ids: Seq<String>, id: String)
    ensures
        id_set(ids.push(id)) == id_set(ids).insert(id@),
{
    let more = ids.push(id);
    assert forall|x: Seq<char>| #[trigger] id_set(more).contains(x) <==> id_set(ids).insert(
        id@,
    ).contains(x) by {
        if id_set(ids).contains(x) {
            let k = choose|k: int| 0 <= k < texts(ids).len() && texts(ids)[k] == x;
            assert(texts(more)[k] == x);
        }
        if x == id@ {
            assert(texts(more)[ids.len() as int] == x);
        }
        if id_set(more).contains(x) {
            let k = choose|k: int| 0 <= k < texts(more).len() && texts(more)[k] == x;
            if k < ids.len() {
                assert(texts(ids)[k] == x);
            }
        }
    }
    assert(id_set(more) =~= id_set(ids).insert(id@));
}

/// Adds ids to a list.
fn add_ids(ids: &mut Vec<String>, more: &Vec<String>)
    ensures
        id_set(final(ids)@) == id_set(old(ids)@).union(id_set(more@)),
{
    let ghost before = id_set(ids@);
    let mut i: usize = 0;
    assert(id_set(more@.take(0)) =~= Set::empty());
    assert(before =~= before.union(id_set(more@.take(0))));
    while i < more.len()
        invariant
            i <= more@.len(),
            id_set(ids@) == before.union(id_set(more@.take(i as int))),
        decreases more@.len() - i,
    {
        let ghost earlier = ids@;
        ids.push(more[i].as_str().to_owned());
        proof {
            ids_pushed(earlier, ids@.last());
            assert(ids@ =~= earlier.push(ids@.last()));
            ids_pushed(more@.take(i as int), more@[i as int]);
            assert(more@.take(i + 1) =~= more@.take(i as int).push(more@[i as int]));
            assert(id_set(ids@) =~= before.union(id_set(more@.take(i + 1))));
        }
        i = i + 1;
    }
    assert(more@.take(i as int) =~= more@);
}

/// The outcome for an action on which a verdict was reached.
pub fn conclude(verdict: Verdict, action: &str) -> (outcome: Result<Grant, PolicyError>)
    ensures
        match outcome {
            Ok(grant) => {
                &&& verdict.allowed
                &&& id_set(grant.skipped@) == skipped_policies(verdict.errors@)
            },
            Err(error) => error matches PolicyError::NotMatching(denial) && {
                &&& !verdict.allowed
                &&& denial.action@ == action@
                &&& denial.errors == verdict.errors
            },
        },
{
    if verdict.allowed {
        Ok(Grant { skipped: skipped_ids(&verdict.errors) })
    } else {
        Err(
            PolicyError::NotMatching(
                Denial { action: action.to_owned(), errors: verdict.errors },
            ),
        )
    }
}

/// The authorization policy: a schema, and policies written for it.
pub struct Policy {
    schema: PolicySchema,
    policies: Policies,
}

/// The texts of a schema and of policies.
pub struct PolicyModel {
    pub schema: Seq<char>,
    pub policies: Seq<char>,
}

impl View for Policy {
    type V = PolicyModel;

    closed spec fn view(&self) -> PolicyModel {
        PolicyModel { schema: self.schema@, policies: self.policies@ }
    }
}

impl PolicyModel {
    /// The principal and the resource, together with the actions, fit the schema.
    pub open spec fn entities_fit(self, principal: EntityModel, resource: EntityModel) -> bool {
        entities_fit(self.schema, seq![principal, resource])
    }

    /// The schema has the action for principals and resources of these types.
    pub open spec fn request_fits(
        self,
        principal: EntityModel,
        action: Seq<char>,
        resource: EntityModel,
    ) -> bool {
        request_fits(self.schema, asked(principal.uid, ACTION_TYPE@, action, resource.uid))
    }

    /// The policies, without those of the skipped ids, allow the principal to perform the action
    /// on the resource.
    pub open spec fn allows_without(
        self,
        principal: EntityModel,
        action: Seq<char>,
        resource: EntityModel,
        skipped: Set<Seq<char>>,
    ) -> bool {
        policies_allow_without(
            self.policies,
            asked(principal.uid, ACTION_TYPE@, action, resource.uid),
            EntityStoreModel { schema: self.schema, members: seq![principal, resource] },
            skipped,
        )
    }

    /// The policies, all of them, allow the principal to perform the action on the resource.
    pub open spec fn allows(
        self,
        principal: EntityModel,
        action: Seq<char>,
        resource: EntityModel,
    ) -> bool {
        self.allows_without(principal, action, resource, Set::empty())
    }

    /// The request fits the schema, and the policies allow it, where none but the skipped ones, and
    /// perhaps not even all of those, went without a say.
    pub open spec fn grants(
        self,
        principal: EntityModel,
        action: Seq<char>,
        resource: EntityModel,
        skipped: Set<Seq<char>>,
    ) -> bool {
        &&& self.entities_fit(principal, resource)
        &&& self.request_fits(principal, action, resource)
        &&& exists|silent: Set<Seq<char>>|
            silent.subset_of(skipped) && #[trigger] self.allows_without(
                principal,
                action,
                resource,
                silent,
            )
    }

    /// What is known of the outcome of a request.
    pub open spec fn outcome(
        self,
        principal: EntityModel,
        action: Seq<char>,
        resource: EntityModel,
        outcome: Result<Grant, PolicyError>,
    ) -> bool {
        if !self.entities_fit(principal, resource) {
            outcome matches Err(PolicyError::Entities(_))
        } else if !self.request_fits(principal, action, resource) {
            outcome matches Err(PolicyError::Request(_))
        } else {
            match outcome {
                Ok(grant) => self.allows_without(
                    principal,
                    action,
                    resource,
                    id_set(grant.skipped@),
                ),
                Err(error) => error matches PolicyError::NotMatching(denial) && {
                    &&& denial.action@ == action
                    &&& !self.allows_without(
                        principal,
                        action,
                        resource,
                        skipped_policies(denial.errors@),
                    )
                },
            }
        }
    }

    /// All permissions are granted on each repository that a visibility is known of.
    pub open spec fn grants_all(
        self,
        principal: EntityModel,
        repositories: Seq<Seq<char>>,
        visibilities: Seq<Seq<char>>,
        permissions: Seq<Seq<char>>,
        skipped: Set<Seq<char>>,
    ) -> bool {
        forall|i: int, j: int|
            #![trigger visibilities[i], permissions[j]]
            0 <= i < visibilities.len() && 0 <= j < permissions.len() ==> self.grants(
                principal,
                permissions[j],
                repository_model(repositories[i], visibilities[i]),
                skipped,
            )
    }

    /// The error is the outcome for the first permission that is not granted on the resource.
    pub open spec fn refuses(
        self,
        principal: EntityModel,
        permissions: Seq<Seq<char>>,
        resource: EntityModel,
        error: PolicyError,
    ) -> bool {
        exists|j: int|
            {
                &&& 0 <= j < permissions.len()
                &&& self.outcome(
                    principal,
                    #[trigger] permissions[j],
                    resource,
                    Err::<Grant, PolicyError>(error),
                )
                &&& forall|k: int|
                    0 <= k < j ==> self.grants(
                        principal,
                        #[trigger] permissions[k],
                        resource,
                        Set::full(),
                    )
            }
    }
}

impl Policy {
    /// The outcome is what follows from the verdict that Cedar reached on the request.
    pub closed spec fn is_concluded(
        &self,
        principal: &PolicyEntity,
        action: &str,
        resource: &PolicyEntity,
        outcome: Result<Grant, PolicyError>,
    ) -> bool {
        exists|request: PolicyRequest<'_>, store: EntityStore<'_>, verdict: Verdict|
            {
                &&& request@ == asked(principal@.uid, ACTION_TYPE@, action@, resource@.uid)
                &&& store@ == (EntityStoreModel {
                    schema: self@.schema,
                    members: seq![principal@, resource@],
                })
                &&& #[trigger] call_ensures(decide, (&self.policies, &request, &store), verdict)
                &&& call_ensures(conclude, (verdict, action), outcome)
            }
    }

    /// The policy of a schema and policies.
    pub fn new(schema: PolicySchema, policies: Policies) -> (policy: Policy)
        ensures
            policy@ == (PolicyModel { schema: schema@, policies: policies@ }),
    {
        Policy { schema, policies }
    }

    /// A repository as a resource.
    pub fn repository_entity(name: &str, visibility: &str) -> (entity: Result<
        PolicyEntity,
        PolicyError,
    >)
        ensures
            match entity {
                Ok(e) => e@ == repository_model(name@, visibility@),
                Err(error) => error is EntityEvaluation,
            },
    {
        let mut attributes: Vec<(String, String)> = Vec::new();
        assert(attribute_map(attributes@) =~= Map::empty());
        add_attribute(&mut attributes, "name", name);
        add_attribute(&mut attributes, "visibility", visibility);
        match build_entity(REPOSITORY_TYPE.to_owned(), name.to_owned(), attributes) {
            Ok(entity) => Ok(entity),
            Err(error) => Err(PolicyError::EntityEvaluation(error)),
        }
    }

    /// A silo as a resource.
    pub fn silo_entity(url: &Url) -> (entity: Result<PolicyEntity, PolicyError>)
        ensures
            match entity {
                Ok(e) => e@ == silo_model(url@),
                Err(error) => error is EntityEvaluation,
            },
    {
        let mut attributes: Vec<(String, String)> = Vec::new();
        assert(attribute_map(attributes@) =~= Map::empty());
        add_attribute(&mut attributes, "url", url.as_str());
        match build_entity(SILO_TYPE.to_owned(), url.as_str().to_owned(), attributes) {
            Ok(entity) => Ok(entity),
            Err(error) => Err(PolicyError::EntityEvaluation(error)),
        }
    }

    /// Whether the principal may perform the action on the resource. The schema is held against
    /// the request before the policies are, so that no policy, however permissive, grants an
    /// action that the resource does not have.
    pub fn authorize(
        &self,
        principal: &PolicyEntity,
        action: &str,
        resource: &PolicyEntity,
    ) -> (outcome: Result<Grant, PolicyError>)
        ensures
            self@.outcome(principal@, action@, resource@, outcome),
            self@.entities_fit(principal@, resource@) && self@.request_fits(
                principal@,
                action@,
                resource@,
            ) ==> self.is_concluded(principal, action, resource, outcome),
    {
        let mut members: Vec<&PolicyEntity> = Vec::new();
        members.push(principal);
        members.push(resource);
        assert(entity_models(members@) =~= seq![principal@, resource@]);
        let store = match check_entities(&self.schema, members) {
            Ok(store) => store,
            Err(error) => {
                return Err(error);
            },
        };
        let request = match build_request(&self.schema, principal, ACTION_TYPE, action, resource) {
            Ok(request) => request,
            Err(error) => {
                return Err(PolicyError::Request(error));
            },
        };
        let verdict = decide(&self.policies, &request, &store);
        let ghost reached = verdict;
        let outcome = conclude(verdict, action);
        assert(call_ensures(decide, (&self.policies, &request, &store), reached));
        assert(call_ensures(conclude, (reached, action), outcome));
        outcome
    }

    /// Whether the principal may perform each of several actions on a resource.
    fn authorize_all(
        &self,
        principal: &PolicyEntity,
        permissions: &Vec<String>,
        resource: &PolicyEntity,
    ) -> (outcome: Result<Grant, PolicyError>)
        ensures
            match outcome {
                Ok(grant) => forall|j: int|
                    0 <= j < permissions@.len() ==> self@.grants(
                        principal@,
                        #[trigger] texts(permissions@)[j],
                        resource@,
                        id_set(grant.skipped@),
                    ),
                Err(error) => self@.refuses(principal@, texts(permissions@), resource@, error),
            },
    {
        let ghost all = texts(permissions@);
        let mut skipped: Vec<String> = Vec::new();
        let mut i: usize = 0;
        while i < permissions.len()
            invariant
                all == texts(permissions@),
                i <= permissions@.len(),
                forall|j: int|
                    0 <= j < i ==> self@.grants(
                        principal@,
                        #[trigger] all[j],
                        resource@,
                        id_set(skipped@),
                    ),
            decreases permissions@.len() - i,
        {
            assert(all[i as int] == permissions@[i as int]@);
            match self.authorize(principal, permissions[i].as_str(), resource) {
                Ok(grant) => {
                    let ghost earlier = id_set(skipped@);
                    add_ids(&mut skipped, &grant.skipped);
                    assert(earlier.subset_of(id_set(skipped@)));
                    assert(id_set(grant.skipped@).subset_of(id_set(skipped@)));
                },
                Err(error) => {
                    assert(self@.outcome(
                        principal@,
                        all[i as int],
                        resource@,
                        Err::<Grant, PolicyError>(error),
                    ));
                    return Err(error);
                },
            }
            i = i + 1;
        }
        Ok(Grant { skipped })
    }

    /// Whether the principal may have the token. An Oxide token is a deployment to its silo; a
    /// GitHub token is each of its permissions on each of its repositories, whose visibilities are
    /// asked for one after the other. A GitHub token for nothing is refused: there would be
    /// nothing to authorize, while GitHub takes it for a token for everything.
    pub fn ensure_allowed<'a>(
        &'a self,
        principal: &'a PolicyEntity,
        request: &'a TokenRequest,
    ) -> (progress: Progress<'a>)
        ensures
            match *request {
                TokenRequest::Oxide(oxide) => progress matches Progress::Done(outcome) && {
                    ||| outcome matches Err(PolicyError::EntityEvaluation(_))
                    ||| self@.outcome(principal@, "deploy"@, silo_model(oxide.silo@), outcome)
                },
                TokenRequest::GitHub(github) => if github.repositories@.len() == 0
                    || github.permissions@.len() == 0 {
                    progress matches Progress::Done(Err(PolicyError::EmptyRequest))
                } else {
                    progress matches Progress::Ask(check) && {
                        &&& check@.policy == self@
                        &&& check@.principal == principal@
                        &&& check@.repositories == texts(github.repositories@)
                        &&& check@.permissions == texts(github.permissions@)
                        &&& check@.visibilities == Seq::<Seq<char>>::empty()
                        &&& check@.skipped == Set::<Seq<char>>::empty()
                    }
                },
            },
    {
        match request {
            TokenRequest::Oxide(oxide) => match Policy::silo_entity(&oxide.silo) {
                Ok(silo) => Progress::Done(self.authorize(principal, "deploy", &silo)),
                Err(error) => Progress::Done(Err(error)),
            },
            TokenRequest::GitHub(github) => {
                if github.repositories.len() == 0 || github.permissions.len() == 0 {
                    return Progress::Done(Err(PolicyError::EmptyRequest));
                }
                Progress::Ask(
                    RepositoryCheck {
                        policy: self,
                        principal,
                        request: github,
                        index: 0,
                        skipped: Vec::new(),
                        visibilities: Ghost(Seq::empty()),
                    },
                )
            },
        }
    }
}

/// How far a decision has come.
pub enum Progress<'a> {
    /// It needs the visibility of a repository.
    Ask(RepositoryCheck<'a>),
    /// It is made.
    Done(Result<Grant, PolicyError>),
}

/// A GitHub token of which the first repositories are granted.
pub struct RepositoryCheck<'a> {
    policy: &'a Policy,
    principal: &'a PolicyEntity,
    request: &'a GitHubTokenRequest,
    index: usize,
    skipped: Vec<String>,
    visibilities: Ghost<Seq<Seq<char>>>,
}

/// What is decided, and the visibilities that are known.
pub struct CheckModel {
    pub policy: PolicyModel,
    pub principal: EntityModel,
    pub repositories: Seq<Seq<char>>,
    pub permissions: Seq<Seq<char>>,
    pub visibilities: Seq<Seq<char>>,
    /// The policies that had no say on some pair before.
    pub skipped: Set<Seq<char>>,
}

impl CheckModel {
    /// The repositories before the next are granted.
    pub open spec fn is_valid(self) -> bool {
        &&& self.visibilities.len() < self.repositories.len()
        &&& self.policy.grants_all(
            self.principal,
            self.repositories,
            self.visibilities,
            self.permissions,
            self.skipped,
        )
    }

    /// The repository whose visibility is needed.
    pub open spec fn repository(self) -> Seq<char> {
        self.repositories[self.visibilities.len() as int]
    }

    /// What is known of how a decision goes on once the visibility of the next repository is
    /// known.
    pub open spec fn goes_on<'a>(self, visibility: Seq<char>, progress: Progress<'a>) -> bool {
        let visibilities = self.visibilities.push(visibility);
        match progress {
            Progress::Ask(next) => {
                &&& visibilities.len() < self.repositories.len()
                &&& next@ == CheckModel { visibilities, skipped: next@.skipped, ..self }
                &&& next@.is_valid()
            },
            Progress::Done(Ok(grant)) => {
                &&& visibilities.len() == self.repositories.len()
                &&& self.policy.grants_all(
                    self.principal,
                    self.repositories,
                    visibilities,
                    self.permissions,
                    id_set(grant.skipped@),
                )
            },
            Progress::Done(Err(error)) => {
                ||| error is EntityEvaluation
                ||| self.policy.refuses(
                    self.principal,
                    self.permissions,
                    repository_model(self.repository(), visibility),
                    error,
                )
            },
        }
    }
}

impl CheckModel {
    /// What is known of a decision that is made once the visibility of the next repository is
    /// known.
    pub open spec fn ends(
        self,
        visibility: Seq<char>,
        outcome: Result<Grant, PolicyError>,
    ) -> bool {
        self.goes_on(visibility, Progress::Done(outcome))
    }
}

impl<'a> View for RepositoryCheck<'a> {
    type V = CheckModel;

    closed spec fn view(&self) -> CheckModel {
        CheckModel {
            policy: self.policy@,
            principal: self.principal@,
            repositories: texts(self.request.repositories@),
            permissions: texts(self.request.permissions@),
            visibilities: self.visibilities@,
            skipped: id_set(self.skipped@),
        }
    }
}

impl<'a> RepositoryCheck<'a> {
    #[verifier::type_invariant]
    spec fn is_valid(self) -> bool {
        &&& self.index == self.visibilities@.len()
        &&& self@.is_valid()
    }

    /// The repository whose visibility is needed.
    pub fn repository(&self) -> (repository: &'a str)
        ensures
            repository@ == self@.repository(),
    {
        proof {
            use_type_invariant(self);
        }
        self.request.repositories[self.index].as_str()
    }

    /// Goes on with the visibility of the repository, or ends where it cannot be had. Nothing is
    /// granted before all permissions are granted on all repositories.
    pub fn answer(self, visibility: Result<String, GitHubTokenError>) -> (progress: Progress<'a>)
        ensures
            self@.is_valid(),
            match visibility {
                Err(fault) => progress matches Progress::Done(
                    Err(PolicyError::GetVisibility(repository, f)),
                ) && repository@ == self@.repository() && f == fault,
                Ok(visibility) => self@.goes_on(visibility@, progress),
            },
    {
        proof {
            use_type_invariant(&self);
        }
        let ghost model = self@;
        let repository = self.request.repositories[self.index].as_str();
        assert(repository@ == model.repository());
        let visibility = match visibility {
            Ok(visibility) => visibility,
            Err(fault) => {
                return Progress::Done(
                    Err(PolicyError::GetVisibility(repository.to_owned(), fault)),
                );
            },
        };
        let resource = match Policy::repository_entity(repository, visibility.as_str()) {
            Ok(resource) => resource,
            Err(error) => {
                return Progress::Done(Err(error));
            },
        };
        let grant = match self.policy.authorize_all(
            self.principal,
            &self.request.permissions,
            &resource,
        ) {
            Ok(grant) => grant,
            Err(error) => {
                return Progress::Done(Err(error));
            },
        };
        let mut skipped = self.skipped;
        add_ids(&mut skipped, &grant.skipped);
        assert(model.skipped.subset_of(id_set(skipped@)));
        assert(id_set(grant.skipped@).subset_of(id_set(skipped@)));
        let ghost visibilities = model.visibilities.push(visibility@);
        proof {
            assert forall|i: int, j: int|
                #![trigger visibilities[i], model.permissions[j]]
                0 <= i < visibilities.len() && 0 <= j
                    < model.permissions.len() implies model.policy.grants(
                model.principal,
                model.permissions[j],
                repository_model(model.repositories[i], visibilities[i]),
                id_set(skipped@),
            ) by {
                if i < model.visibilities.len() {
                    assert(visibilities[i] == model.visibilities[i]);
                }
            }
        }
        let count: usize = self.request.repositories.len();
        if self.index + 1 < count {
            Progress::Ask(
                RepositoryCheck {
                    policy: self.policy,
                    principal: self.principal,
                    request: self.request,
                    index: self.index + 1,
                    skipped,
                    visibilities: Ghost(visibilities),
                },
            )
        } else {
            Progress::Done(Ok(Grant { skipped }))
        }
    }
}

/// A GitHub token is granted only if the policies allow each of its permissions on each of its
/// repositories: one pair that they do not allow is enough for a refusal. The policies are all of
/// them, but for those that the grant names as skipped.
pub proof fn granted_tokens_are_allowed_in_full(
    check: CheckModel,
    visibility: Seq<char>,
    grant: Grant,
    i: int,
    j: int,
)
    requires
        check.ends(visibility, Ok::<Grant, PolicyError>(grant)),
        0 <= i < check.repositories.len(),
        0 <= j < check.permissions.len(),
    ensures
        ({
            let repository = repository_model(
                check.repositories[i],
                check.visibilities.push(visibility)[i],
            );
            &&& check.policy.grants(
                check.principal,
                check.permissions[j],
                repository,
                id_set(grant.skipped@),
            )
            &&& grant.skipped@.len() == 0 ==> check.policy.allows(
                check.principal,
                check.permissions[j],
                repository,
            )
        }),
{
    let visibilities = check.visibilities.push(visibility);
    let repository = repository_model(check.repositories[i], visibilities[i]);
    assert(check.policy.grants(
        check.principal,
        check.permissions[j],
        repository,
        id_set(grant.skipped@),
    ));
    if grant.skipped@.len() == 0 {
        nothing_skipped(
            check.policy,
            check.principal,
            check.permissions[j],
            repository,
            id_set(grant.skipped@),
        );
    }
}

/// What is granted with no policy skipped is what the policies allow.
pub proof fn nothing_skipped(
    policy: PolicyModel,
    principal: EntityModel,
    action: Seq<char>,
    resource: EntityModel,
    skipped: Set<Seq<char>>,
)
    requires
        policy.grants(principal, action, resource, skipped),
        forall|id: Seq<char>| !skipped.contains(id),
    ensures
        policy.allows(principal, action, resource),
{
    let silent = choose|silent: Set<Seq<char>>|
        silent.subset_of(skipped) && #[trigger] policy.allows_without(
            principal,
            action,
            resource,
            silent,
        );
    assert(silent =~= Set::empty());
}

/// What does not fit the schema is refused, whatever the policies say: no policy grants an action
/// that the schema does not have for the resource.
pub proof fn schema_comes_before_the_policies(
    policy: PolicyModel,
    principal: EntityModel,
    action: Seq<char>,
    resource: EntityModel,
    outcome: Result<Grant, PolicyError>,
)
    requires
        policy.outcome(principal, action, resource, outcome),
        !policy.request_fits(principal, action, resource),
    ensures
        outcome matches Err(error) && (error is Request || error is Entities),
{
}

/// The ids of a list are those that stand in it.
pub proof fn listed_ids_are_in_the_set(ids: Seq<String>, id: Seq<char>)
    ensures
        id_set(ids).contains(id) <==> exists|i: int| 0 <= i < ids.len() && #[trigger] ids[i]@ == id,
{
    if id_set(ids).contains(id) {
        let i = choose|i: int| 0 <= i < texts(ids).len() && texts(ids)[i] == id;
        assert(ids[i]@ == id);
    }
    if exists|i: int| 0 <= i < ids.len() && #[trigger] ids[i]@ == id {
        let i = choose|i: int| 0 <= i < ids.len() && #[trigger] ids[i]@ == id;
        assert(texts(ids)[i] == id);
    }
}

/// An action is granted exactly where a verdict allows it, and what had no say in it is named: the
/// policies whose evaluation ran out of stack, and no others.
pub proof fn verdicts_are_followed(
    verdict: Verdict,
    action: &str,
    outcome: Result<Grant, PolicyError>,
    id: Seq<char>,
)
    requires
        call_ensures(conclude, (verdict, action), outcome),
    ensures
        outcome is Ok <==> verdict.allowed,
        outcome matches Ok(grant) ==> ((exists|i: int|
            0 <= i < grant.skipped@.len() && #[trigger] grant.skipped@[i]@ == id) <==> (exists|
            i: int,
        |
            0 <= i < verdict.errors@.len() && (#[trigger] verdict.errors@[i]).exhausted
                && verdict.errors@[i].policy@ == id)),
        outcome matches Err(error) ==> {
            &&& error matches PolicyError::NotMatching(denial)
            &&& denial.action@ == action@
            &&& denial.errors == verdict.errors
        },
{
    if let Ok(grant) = outcome {
        listed_ids_are_in_the_set(grant.skipped@, id);
        assert(id_set(grant.skipped@).contains(id) == skipped_policies(verdict.errors@).contains(
            id,
        ));
    }
}

/// A policy is made of the schema and the policies that were read, as they were read.
pub proof fn policies_are_decided_by_as_written(
    schema_source: String,
    schema: PolicySchema,
    policies_source: String,
    policies: Policies,
    policy: Policy,
)
    requires
        call_ensures(
            PolicySchema::parse,
            (schema_source,),
            Ok::<PolicySchema, cedar_policy::CedarSchemaError>(schema),
        ),
        call_ensures(
            Policies::parse,
            (policies_source,),
            Ok::<Policies, cedar_policy::ParseErrors>(policies),
        ),
        call_ensures(Policy::new, (schema, policies), policy),
    ensures
        policy@.schema == schema_source@,
        policy@.policies == policies_source@,
{
}

/// What is granted for an action Cedar allowed for a request with that very action, and what is
/// refused it did not allow for it: the principal, the action and the resource are the given ones,
/// and the entities that the policies see are the principal and the resource. What does not fit the
/// schema is refused for that, and nothing is refused for any other reason.
pub proof fn decisions_are_on_the_action_itself(
    policy: &Policy,
    principal: &PolicyEntity,
    action: &str,
    resource: &PolicyEntity,
    outcome: Result<Grant, PolicyError>,
)
    requires
        call_ensures(Policy::authorize, (policy, principal, action, resource), outcome),
    ensures
        ({
            let request = RequestModel {
                principal: principal@.uid,
                action: UidModel { kind: "Oidcx::Action"@, id: action@ },
                resource: resource@.uid,
            };
            let members = seq![principal@, resource@];
            let store = EntityStoreModel { schema: policy@.schema, members };
            let fits = entities_fit(policy@.schema, members) && request_fits(
                policy@.schema,
                request,
            );
            match outcome {
                Ok(grant) => fits && policies_allow_without(
                    policy@.policies,
                    request,
                    store,
                    id_set(grant.skipped@),
                ),
                Err(PolicyError::Entities(_)) => !entities_fit(policy@.schema, members),
                Err(PolicyError::Request(_)) => entities_fit(policy@.schema, members)
                    && !request_fits(policy@.schema, request),
                Err(PolicyError::NotMatching(denial)) => {
                    &&& fits
                    &&& denial.action@ == action@
                    &&& !policies_allow_without(
                        policy@.policies,
                        request,
                        store,
                        skipped_policies(denial.errors@),
                    )
                },
                Err(_) => false,
            }
        }),
{
}

/// What Cedar is asked of a repository: whether the principal may perform the action on it, given
/// its name and its visibility.
pub open spec fn is_allowed_on_repository(
    policy: PolicyModel,
    principal: EntityModel,
    action: Seq<char>,
    name: Seq<char>,
    visibility: Seq<char>,
    skipped: Set<Seq<char>>,
) -> bool {
    let uid = UidModel { kind: "Oidcx::Repository"@, id: name };
    let attributes = Map::empty().insert("name"@, name).insert("visibility"@, visibility);
    policies_allow_without(
        policy.policies,
        RequestModel {
            principal: principal.uid,
            action: UidModel { kind: "Oidcx::Action"@, id: action },
            resource: uid,
        },
        EntityStoreModel {
            schema: policy.schema,
            members: seq![principal, EntityModel { uid, attributes }],
        },
        skipped,
    )
}

/// The schema has the action for the principal and the repository, given its name and its
/// visibility.
pub open spec fn fits_on_repository(
    policy: PolicyModel,
    principal: EntityModel,
    action: Seq<char>,
    name: Seq<char>,
    visibility: Seq<char>,
) -> bool {
    let uid = UidModel { kind: "Oidcx::Repository"@, id: name };
    let attributes = Map::empty().insert("name"@, name).insert("visibility"@, visibility);
    &&& entities_fit(policy.schema, seq![principal, EntityModel { uid, attributes }])
    &&& request_fits(
        policy.schema,
        RequestModel {
            principal: principal.uid,
            action: UidModel { kind: "Oidcx::Action"@, id: action },
            resource: uid,
        },
    )
}

/// Cedar allowed the action on the repository, whatever had no say in it.
pub open spec fn was_allowed_on_repository(
    policy: PolicyModel,
    principal: EntityModel,
    action: Seq<char>,
    name: Seq<char>,
    visibility: Seq<char>,
) -> bool {
    exists|skipped: Set<Seq<char>>| #[trigger]
        is_allowed_on_repository(policy, principal, action, name, visibility, skipped)
}

/// A decision on a GitHub token ends in a grant only when the visibility of the last repository is
/// known, and only where Cedar allowed each permission of the request on each of its repositories.
pub proof fn granted_pairs_were_each_allowed<'a>(
    check: RepositoryCheck<'a>,
    visibility: String,
    grant: Grant,
    i: int,
    j: int,
)
    requires
        call_ensures(
            RepositoryCheck::<'a>::answer,
            (check, Ok::<String, GitHubTokenError>(visibility)),
            Progress::Done(Ok(grant)),
        ),
        0 <= i < check@.repositories.len(),
        0 <= j < check@.permissions.len(),
    ensures
        check@.visibilities.len() + 1 == check@.repositories.len(),
        fits_on_repository(
            check@.policy,
            check@.principal,
            check@.permissions[j],
            check@.repositories[i],
            check@.visibilities.push(visibility@)[i],
        ),
        exists|skipped: Set<Seq<char>>|
            {
                &&& #[trigger] is_allowed_on_repository(
                    check@.policy,
                    check@.principal,
                    check@.permissions[j],
                    check@.repositories[i],
                    check@.visibilities.push(visibility@)[i],
                    skipped,
                )
                &&& forall|id: Seq<char>| #[trigger]
                    skipped.contains(id) ==> exists|k: int|
                        0 <= k < grant.skipped@.len() && #[trigger] grant.skipped@[k]@ == id
            },
{
    let model = check@;
    let visibilities = model.visibilities.push(visibility@);
    assert(model.goes_on(visibility@, Progress::Done(Ok(grant))));
    assert(model.policy.grants(
        model.principal,
        model.permissions[j],
        repository_model(model.repositories[i], visibilities[i]),
        id_set(grant.skipped@),
    ));
    let silent = choose|silent: Set<Seq<char>>|
        silent.subset_of(id_set(grant.skipped@)) && #[trigger] model.policy.allows_without(
            model.principal,
            model.permissions[j],
            repository_model(model.repositories[i], visibilities[i]),
            silent,
        );
    assert(is_allowed_on_repository(
        model.policy,
        model.principal,
        model.permissions[j],
        model.repositories[i],
        visibilities[i],
        silent,
    ));
    assert forall|id: Seq<char>| #[trigger] silent.contains(id) implies exists|k: int|
        0 <= k < grant.skipped@.len() && #[trigger] grant.skipped@[k]@ == id by {
        listed_ids_are_in_the_set(grant.skipped@, id);
    }
}

/// A decision on a GitHub token goes on to the very next repository, with the visibilities that are
/// known and the same request, and it does so as long as there is one.
pub proof fn decisions_go_on_to_the_next_repository<'a>(
    check: RepositoryCheck<'a>,
    visibility: String,
    progress: Progress<'a>,
    repository: &'a str,
)
    requires
        call_ensures(
            RepositoryCheck::<'a>::answer,
            (check, Ok::<String, GitHubTokenError>(visibility)),
            progress,
        ),
        progress matches Progress::Ask(next) ==> call_ensures(
            RepositoryCheck::<'a>::repository,
            (&next,),
            repository,
        ),
    ensures
        progress matches Progress::Ask(next) ==> {
            &&& check@.visibilities.len() + 1 < check@.repositories.len()
            &&& repository@ == check@.repositories[check@.visibilities.len() as int + 1]
            &&& next@.visibilities == check@.visibilities.push(visibility@)
            &&& next@.policy == check@.policy
            &&& next@.principal == check@.principal
            &&& next@.repositories == check@.repositories
            &&& next@.permissions == check@.permissions
        },
        progress matches Progress::Done(Ok(_)) ==> check@.visibilities.len() + 1
            == check@.repositories.len(),
{
}

/// A decision on a GitHub token ends in a refusal only where a permission of the request is refused
/// on the repository: Cedar did not allow that very permission, or it does not fit the schema. It
/// also ends where the visibility cannot be had, or an entity cannot be built.
pub proof fn refused_pairs_were_not_allowed<'a>(
    check: RepositoryCheck<'a>,
    visibility: Result<String, GitHubTokenError>,
    error: PolicyError,
)
    requires
        call_ensures(
            RepositoryCheck::<'a>::answer,
            (check, visibility),
            Progress::Done(Err(error)),
        ),
    ensures
        visibility matches Err(fault) ==> {
            &&& error matches PolicyError::GetVisibility(repository, own)
            &&& repository@ == check@.repositories[check@.visibilities.len() as int]
            &&& own == fault
        },
        visibility matches Ok(known) ==> {
            let name = check@.repositories[check@.visibilities.len() as int];
            let uid = UidModel { kind: "Oidcx::Repository"@, id: name };
            let attributes = Map::empty().insert("name"@, name).insert("visibility"@, known@);
            let members = seq![check@.principal, EntityModel { uid, attributes }];
            match error {
                PolicyError::EntityEvaluation(_) => true,
                PolicyError::Entities(_) => !entities_fit(check@.policy.schema, members),
                PolicyError::Request(_) => exists|j: int|
                    {
                        &&& 0 <= j < check@.permissions.len()
                        &&& !request_fits(
                            check@.policy.schema,
                            RequestModel {
                                principal: check@.principal.uid,
                                action: UidModel {
                                    kind: "Oidcx::Action"@,
                                    id: #[trigger] check@.permissions[j],
                                },
                                resource: uid,
                            },
                        )
                    },
                PolicyError::NotMatching(denial) => exists|j: int|
                    {
                        &&& 0 <= j < check@.permissions.len()
                        &&& forall|k: int|
                            0 <= k < j ==> was_allowed_on_repository(
                                check@.policy,
                                check@.principal,
                                #[trigger] check@.permissions[k],
                                name,
                                known@,
                            )
                        &&& denial.action@ == #[trigger] check@.permissions[j]
                        &&& !is_allowed_on_repository(
                            check@.policy,
                            check@.principal,
                            check@.permissions[j],
                            name,
                            known@,
                            skipped_policies(denial.errors@),
                        )
                    },
                _ => false,
            }
        },
{
    let model = check@;
    if let Ok(known) = visibility {
        assert(model.goes_on(known@, Progress::Done(Err(error))));
        let resource = repository_model(model.repository(), known@);
        if !(error is EntityEvaluation) {
            assert(model.policy.refuses(model.principal, model.permissions, resource, error));
            let j = choose|j: int|
                {
                    &&& 0 <= j < model.permissions.len()
                    &&& model.policy.outcome(
                        model.principal,
                        #[trigger] model.permissions[j],
                        resource,
                        Err::<Grant, PolicyError>(error),
                    )
                    &&& forall|k: int|
                        0 <= k < j ==> model.policy.grants(
                            model.principal,
                            #[trigger] model.permissions[k],
                            resource,
                            Set::full(),
                        )
                };
            assert(check@.permissions[j] == model.permissions[j]);
            assert forall|k: int| 0 <= k < j implies was_allowed_on_repository(
                model.policy,
                model.principal,
                #[trigger] model.permissions[k],
                model.repository(),
                known@,
            ) by {
                assert(model.policy.grants(
                    model.principal,
                    model.permissions[k],
                    resource,
                    Set::full(),
                ));
                let silent = choose|silent: Set<Seq<char>>|
                    silent.subset_of(Set::full()) && #[trigger] model.policy.allows_without(
                        model.principal,
                        model.permissions[k],
                        resource,
                        silent,
                    );
                assert(is_allowed_on_repository(
                    model.policy,
                    model.principal,
                    model.permissions[k],
                    model.repository(),
                    known@,
                    silent,
                ));
            }
        }
    }
}

/// A GitHub token for no repository or no permission is refused. Any other is decided on from its
/// first repository on, with all of its repositories and permissions as they were asked for.
pub proof fn github_tokens_are_decided_on_in_full<'a>(
    policy: &'a Policy,
    principal: &'a PolicyEntity,
    request: &'a TokenRequest,
    github: GitHubTokenRequest,
    progress: Progress<'a>,
    repository: &'a str,
)
    requires
        *request == TokenRequest::GitHub(github),
        call_ensures(Policy::ensure_allowed, (policy, principal, request), progress),
        progress matches Progress::Ask(check) ==> call_ensures(
            RepositoryCheck::<'a>::repository,
            (&check,),
            repository,
        ),
    ensures
        github.repositories@.len() == 0 || github.permissions@.len() == 0 ==> progress matches
            Progress::Done(Err(PolicyError::EmptyRequest)),
        github.repositories@.len() > 0 && github.permissions@.len() > 0 ==> {
            &&& progress matches Progress::Ask(check)
            &&& repository@ == github.repositories@[0]@
            &&& check@.policy == policy@
            &&& check@.principal == principal@
            &&& check@.visibilities.len() == 0
            &&& check@.repositories.len() == github.repositories@.len()
            &&& forall|i: int|
                0 <= i < github.repositories@.len() ==> check@.repositories[i]
                    == #[trigger] github.repositories@[i]@
            &&& check@.permissions.len() == github.permissions@.len()
            &&& forall|j: int|
                0 <= j < github.permissions@.len() ==> check@.permissions[j]
                    == #[trigger] github.permissions@[j]@
        },
{
}

/// An Oxide token is decided on at once: it is granted where Cedar allows a deployment to the silo
/// of the request, and refused where it does not.
pub proof fn oxide_tokens_are_decided_on_as_deployments<'a>(
    policy: &'a Policy,
    principal: &'a PolicyEntity,
    request: &'a TokenRequest,
    oxide: OxideTokenRequest,
    progress: Progress<'a>,
)
    requires
        *request == TokenRequest::Oxide(oxide),
        call_ensures(Policy::ensure_allowed, (policy, principal, request), progress),
    ensures
        ({
            let uid = UidModel { kind: "Oidcx::Silo"@, id: oxide.silo@ };
            let silo = EntityModel { uid, attributes: Map::empty().insert("url"@, oxide.silo@) };
            let asked = RequestModel {
                principal: principal@.uid,
                action: UidModel { kind: "Oidcx::Action"@, id: "deploy"@ },
                resource: uid,
            };
            let members = seq![principal@, silo];
            let store = EntityStoreModel { schema: policy@.schema, members };
            match progress {
                Progress::Ask(_) => false,
                Progress::Done(Ok(grant)) => {
                    &&& entities_fit(policy@.schema, members)
                    &&& request_fits(policy@.schema, asked)
                    &&& policies_allow_without(
                        policy@.policies,
                        asked,
                        store,
                        id_set(grant.skipped@),
                    )
                },
                Progress::Done(Err(PolicyError::EntityEvaluation(_))) => true,
                Progress::Done(Err(PolicyError::Entities(_))) => !entities_fit(
                    policy@.schema,
                    members,
                ),
                Progress::Done(Err(PolicyError::Request(_))) => !request_fits(
                    policy@.schema,
                    asked,
                ),
                Progress::Done(Err(PolicyError::NotMatching(denial))) => {
                    &&& denial.action@ == "deploy"@
                    &&& !policies_allow_without(
                        policy@.policies,
                        asked,
                        store,
                        skipped_policies(denial.errors@),
                    )
                },
                Progress::Done(Err(_)) => false,
            }
        }),
{
}

/// The attributes of the workflow run that a token stands for are the texts of the claims of the
/// same names, whatever else the token claims: a required attribute is empty where there is no
/// text, and the environment is an attribute exactly where it is a text.
pub proof fn attributes_are_the_claims_of_their_names(
    claims: &Claims,
    entity: PolicyEntity,
    name: &str,
    text: Option<&str>,
    value: Option<&str>,
)
    requires
        call_ensures(workflow_run_entity, (claims,), Ok::<PolicyEntity, PolicyError>(entity)),
        call_ensures(Claims::get_str, (claims, name), text),
        call_ensures(PolicyEntity::attr, (&entity, name), value),
    ensures
        ({
            ||| name@ == "repository"@
            ||| name@ == "repository_owner"@
            ||| name@ == "repository_visibility"@
            ||| name@ == "event_name"@
            ||| name@ == "iss"@
        }) ==> {
            &&& value is Some
            &&& text is Some ==> value->Some_0@ == text->Some_0@
            &&& text is None ==> value->Some_0@.len() == 0
        },
        name@ == "environment"@ ==> {
            &&& value is Some <==> text is Some
            &&& text is Some ==> value->Some_0@ == text->Some_0@
        },
        value is Some ==> {
            ||| name@ == "repository"@
            ||| name@ == "repository_owner"@
            ||| name@ == "repository_visibility"@
            ||| name@ == "event_name"@
            ||| name@ == "iss"@
            ||| name@ == "environment"@
        },
{
    lemma_attribute_names();
    reveal_strlit("");
}

/// The names of the attributes differ.
pub proof fn lemma_attribute_names()
    ensures
        "repository"@ != "repository_owner"@,
        "repository"@ != "repository_visibility"@,
        "repository"@ != "event_name"@,
        "repository"@ != "iss"@,
        "repository"@ != "environment"@,
        "repository_owner"@ != "repository_visibility"@,
        "repository_owner"@ != "event_name"@,
        "repository_owner"@ != "iss"@,
        "repository_owner"@ != "environment"@,
        "repository_visibility"@ != "event_name"@,
        "repository_visibility"@ != "iss"@,
        "repository_visibility"@ != "environment"@,
        "event_name"@ != "iss"@,
        "event_name"@ != "environment"@,
        "iss"@ != "environment"@,
{
    reveal_strlit("repository");
    reveal_strlit("repository_owner");
    reveal_strlit("repository_visibility");
    reveal_strlit("event_name");
    reveal_strlit("iss");
    reveal_strlit("environment");
    assert("repository"@[0] == 'r' && "event_name"@[0] == 'e');
    assert("repository"@.len() == 10 && "repository_owner"@.len() == 16);
    assert("repository_visibility"@.len() == 21 && "event_name"@.len() == 10);
    assert("iss"@.len() == 3 && "environment"@.len() == 11);
}

/// The same holds of the attributes before an entity is made of them.
pub proof fn listed_attributes_are_the_claims_of_their_names(
    claims: &Claims,
    attributes: Vec<(String, String)>,
    name: &str,
    text: Option<&str>,
)
    requires
        call_ensures(workflow_run_attributes, (claims,), attributes),
        call_ensures(Claims::get_str, (claims, name), text),
        ({
            ||| name@ == "repository"@
            ||| name@ == "repository_owner"@
            ||| name@ == "repository_visibility"@
            ||| name@ == "event_name"@
            ||| name@ == "iss"@
            ||| name@ == "environment"@ && text is Some
        }),
    ensures
        exists|i: int|
            {
                &&& 0 <= i < attributes@.len()
                &&& (#[trigger] attributes@[i]).0@ == name@
                &&& text is Some ==> attributes@[i].1@ == text->Some_0@
                &&& text is None ==> attributes@[i].1@.len() == 0
                &&& forall|j: int| i < j < attributes@.len() ==> (#[trigger] attributes@[j]).0@
                    != name@
            },
{
    lemma_attribute_names();
    reveal_strlit("");
    assert(attribute_map(attributes@).contains_key(name@));
    assert(entries_map(attributes@).contains_key(name@));
    lemma_last_entry(attributes@, name@);
    let value = attribute_map(attributes@)[name@];
    assert(entries_map(attributes@)[name@]@ == value);
    assert(text is Some ==> value == text->Some_0@);
    assert(text is None ==> value.len() == 0);
}

/// The principal of a token is the workflow run of the token's own id, and a token without an id,
/// and no other, has none.
pub proof fn principals_go_by_the_id_of_their_token(
    claims: &Claims,
    jti: &str,
    id: Option<&str>,
    entity: Result<PolicyEntity, PolicyError>,
    own_id: &str,
    kind: &str,
)
    requires
        jti@ == "jti"@,
        call_ensures(Claims::get_str, (claims, jti), id),
        call_ensures(workflow_run_entity, (claims,), entity),
        entity matches Ok(e) ==> call_ensures(PolicyEntity::id, (&e,), own_id),
        entity matches Ok(e) ==> call_ensures(PolicyEntity::kind, (&e,), kind),
    ensures
        (entity matches Err(PolicyError::NoPrincipal)) <==> id is None,
        entity is Ok ==> id is Some && own_id@ == id->Some_0@ && kind@ == "Oidcx::WorkflowRun"@,
        entity matches Err(error) ==> error is NoPrincipal || error is EntityEvaluation,
{
}

/// A repository is a resource by its name, with its name and its visibility as attributes.
pub proof fn repositories_are_resources_by_name(
    name: &str,
    visibility: &str,
    entity: Result<PolicyEntity, PolicyError>,
    kind: &str,
    id: &str,
    attribute: &str,
    value: Option<&str>,
)
    requires
        call_ensures(Policy::repository_entity, (name, visibility), entity),
        entity matches Ok(e) ==> {
            &&& call_ensures(PolicyEntity::kind, (&e,), kind)
            &&& call_ensures(PolicyEntity::id, (&e,), id)
            &&& call_ensures(PolicyEntity::attr, (&e, attribute), value)
        },
    ensures
        entity is Ok ==> {
            &&& kind@ == "Oidcx::Repository"@
            &&& id@ == name@
            &&& attribute@ == "name"@ ==> value is Some && value->Some_0@ == name@
            &&& attribute@ == "visibility"@ ==> value is Some && value->Some_0@ == visibility@
            &&& value is Some ==> attribute@ == "name"@ || attribute@ == "visibility"@
        },
        entity matches Err(error) ==> error is EntityEvaluation,
{
    reveal_strlit("name");
    reveal_strlit("visibility");
    assert("name"@.len() == 4 && "visibility"@.len() == 10);
}

/// A silo is a resource by its URL, which is also its attribute.
pub proof fn silos_are_resources_by_url(
    url: &Url,
    text: &str,
    entity: Result<PolicyEntity, PolicyError>,
    kind: &str,
    id: &str,
    attribute: &str,
    value: Option<&str>,
)
    requires
        call_ensures(Url::as_str, (url,), text),
        call_ensures(Policy::silo_entity, (url,), entity),
        entity matches Ok(e) ==> {
            &&& call_ensures(PolicyEntity::kind, (&e,), kind)
            &&& call_ensures(PolicyEntity::id, (&e,), id)
            &&& call_ensures(PolicyEntity::attr, (&e, attribute), value)
        },
    ensures
        entity is Ok ==> {
            &&& kind@ == "Oidcx::Silo"@
            &&& id@ == text@
            &&& attribute@ == "url"@ ==> value is Some && value->Some_0@ == text@
            &&& value is Some ==> attribute@ == "url"@
        },
        entity matches Err(error) ==> error is EntityEvaluation,
{
}

/// Entities are checked against the schema all together.
pub proof fn entities_are_checked_together<'a>(
    schema: &'a PolicySchema,
    members: Vec<&'a PolicyEntity>,
    store: Result<EntityStore<'a>, PolicyError>,
)
    requires
        call_ensures(check_entities, (schema, members), store),
    ensures
        ({
            let all = Seq::new(members@.len(), |i: int| members@[i]@);
            &&& store is Ok <==> entities_fit(schema@, all)
            &&& store matches Ok(s) ==> s@ == (EntityStoreModel { schema: schema@, members: all })
            &&& store matches Err(error) ==> error is Entities
        }),
{
    let all = Seq::new(members@.len(), |i: int| members@[i]@);
    assert(entity_models(members@) =~= all);
}

/// A message names the file or the repository that the error is about, and otherwise its kind.
pub proof fn messages_name_the_file_or_the_repository(error: &PolicyError, text: String)
    requires
        call_ensures(PolicyError::message, (error,), text),
    ensures
        match *error {
            PolicyError::ReadFile(path, _) => text@ == "Failed to read policy file "@ + path@,
            PolicyError::GetVisibility(repository, _) => text@
                == "failed to retrieve the repository visibility for "@ + repository@,
            PolicyError::NotMatching(_) => text@ == "Does not match the authorization policy"@,
            PolicyError::InitSchema(_) => text@ == "Failed to parse Cedar schema"@,
            PolicyError::InitPolicy(_) => text@ == "Failed to parse Cedar policy"@,
            PolicyError::Entities(_) => text@ == "Failed to construct Cedar entities"@,
            PolicyError::EntityEvaluation(_) => text@ == "Failed to evaluate Cedar entities"@,
            PolicyError::Request(_) => text@
                == "Failed to construct Cedar authorization request"@,
            PolicyError::EmptyRequest => text@
                == "Token request must specify at least one repository and one permission"@,
            PolicyError::NoPrincipal => text@
                == "Claims do not contain an id to construct a principal from"@,
        },
{
}

/// A refusal by the policies tells of the very policies that Cedar could not evaluate when it was
/// asked for the action.
pub(crate) proof fn denials_tell_what_cedar_told(
    policy: &Policy,
    principal: &PolicyEntity,
    action: &str,
    resource: &PolicyEntity,
    denial: Denial,
)
    requires
        call_ensures(
            Policy::authorize,
            (policy, principal, action, resource),
            Err::<Grant, PolicyError>(PolicyError::NotMatching(denial)),
        ),
    ensures
        exists|
            policies: Policies,
            request: PolicyRequest<'_>,
            store: EntityStore<'_>,
            verdict: Verdict,
        |
            {
                &&& policies@ == policy@.policies
                &&& request@ == (RequestModel {
                    principal: principal@.uid,
                    action: UidModel { kind: "Oidcx::Action"@, id: action@ },
                    resource: resource@.uid,
                })
                &&& store@ == (EntityStoreModel {
                    schema: policy@.schema,
                    members: seq![principal@, resource@],
                })
                &&& #[trigger] call_ensures(decide, (&policies, &request, &store), verdict)
                &&& !verdict.allowed
                &&& denial.errors == verdict.errors
            },
{
    let outcome = Err::<Grant, PolicyError>(PolicyError::NotMatching(denial));
    assert(policy.is_concluded(principal, action, resource, outcome));
    let (request, store, verdict) = choose|
        request: PolicyRequest<'_>,
        store: EntityStore<'_>,
        verdict: Verdict,
    |
        {
            &&& request@ == asked(principal@.uid, ACTION_TYPE@, action@, resource@.uid)
            &&& store@ == (EntityStoreModel {
                schema: policy@.schema,
                members: seq![principal@, resource@],
            })
            &&& #[trigger] call_ensures(decide, (&policy.policies, &request, &store), verdict)
            &&& call_ensures(conclude, (verdict, action), outcome)
        };
    assert(call_ensures(decide, (&policy.policies, &request, &store), verdict));
}

/// Anything can be asked of a policy.
pub proof fn any_question_is_decided_on<'a>(
    policy: &'a Policy,
    principal: &'a PolicyEntity,
    action: &str,
    resource: &PolicyEntity,
    request: &'a TokenRequest,
    check: RepositoryCheck<'a>,
    visibility: Result<String, GitHubTokenError>,
)
    ensures
        call_requires(Policy::authorize, (policy, principal, action, resource)),
        call_requires(Policy::ensure_allowed, (policy, principal, request)),
        call_requires(RepositoryCheck::<'a>::answer, (check, visibility)),
{
}

} // verus!
