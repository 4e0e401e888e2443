//! GitHub tokens, issued through the installation of a GitHub App.

use crate::endpoints::Token;
use crate::http::{status_text, Reply, StatusCode};
use crate::jwt::{self, Algorithm, ClaimModel, ClaimValue, SigningKey};
use crate::jwt::{
    carried_claims, claim_list, is_rsa_pem, signing_outcomes, token_header, token_payload,
    RawClaimModel, TokenHeaderModel,
};
use crate::oidc::claimed_issuer;
use crate::settings::Settings;
use crate::string_map::StringMap;
use crate::text::{contains_char, join3, split_once, to_decimal};
use crate::text::{
    decimal, has_char, is_decimal_of, lemma_decimal, lemma_split_first, split_first,
    split_first_is_faithful, texts,
};
use vstd::prelude::*;

verus! {

/// What a GitHub token is asked for: repositories as `namespace/name`, permissions as
/// `name:level`.
#[derive(Debug)]
pub struct GitHubTokenRequest {
    pub repositories: Vec<String>,
    pub permissions: Vec<String>,
}

/// The namespace and the name of a repository.
pub open spec fn repository_parts(repository: Seq<char>) -> Option<(Seq<char>, Seq<char>)> {
    match split_first(repository, '/') {
        Some((namespace, name)) => if has_char(name, '/') {
            None
        } else {
            Some((namespace, name))
        },
        None => None,
    }
}

/// The name and the level of a permission. The level may hold further colons.
pub open spec fn permission_parts(permission: Seq<char>) -> Option<(Seq<char>, Seq<char>)> {
    match split_first(permission, ':') {
        Some((name, level)) => if has_char(name, '/') {
            None
        } else {
            Some((name, level))
        },
        None => None,
    }
}

/// Why a request is refused.
pub enum RequestFault {
    NotAGitHubRepository(Seq<char>),
    DifferentOrgs,
    NoRepositories,
    NotAPermission(Seq<char>),
    DuplicatePermission(Seq<char>),
}

/// What is wrong with the repository at `i`, where those before it are in order.
pub open spec fn repository_fault(repositories: Seq<Seq<char>>, i: int) -> Option<RequestFault> {
    match repository_parts(repositories[i]) {
        None => Some(RequestFault::NotAGitHubRepository(repositories[i])),
        Some((namespace, _)) => if i > 0 && repository_parts(repositories[0]).unwrap().0
            != namespace {
            Some(RequestFault::DifferentOrgs)
        } else {
            None
        },
    }
}

/// The permission at `i` has the name that `name` is.
pub open spec fn has_permission_name(permissions: Seq<Seq<char>>, i: int, name: Seq<char>) -> bool {
    permission_parts(permissions[i]) matches Some(parts) && parts.0 == name
}

/// What is wrong with the permission at `i`, where those before it are in order.
pub open spec fn permission_fault(permissions: Seq<Seq<char>>, i: int) -> Option<RequestFault> {
    match permission_parts(permissions[i]) {
        None => Some(RequestFault::NotAPermission(permissions[i])),
        Some((name, _)) => if exists|j: int|
            0 <= j < i && #[trigger] has_permission_name(permissions, j, name) {
            Some(RequestFault::DuplicatePermission(name))
        } else {
            None
        },
    }
}

/// The first fault of a list.
pub open spec fn first_fault(faults: Seq<Option<RequestFault>>) -> Option<RequestFault>
    decreases faults.len(),
{
    if faults.len() == 0 {
        None
    } else if faults[0] is Some {
        faults[0]
    } else {
        first_fault(faults.drop_first())
    }
}

/// The first of `faults` that is one stands at `i`, or, where `i` is the length, there is none.
proof fn lemma_first_fault(faults: Seq<Option<RequestFault>>, i: int)
    requires
        0 <= i <= faults.len(),
        forall|j: int| 0 <= j < i ==> #[trigger] faults[j] is None,
        i < faults.len() ==> faults[i] is Some,
    ensures
        first_fault(faults) == if i < faults.len() {
            faults[i]
        } else {
            None
        },
    decreases i,
{
    if i > 0 {
        assert(faults[0] is None);
        assert forall|j: int| 0 <= j < i - 1 implies #[trigger] faults.drop_first()[j] is None by {
            assert(faults[j + 1] is None);
        }
        lemma_first_fault(faults.drop_first(), i - 1);
    }
}

/// What is wrong with each repository.
pub open spec fn repository_faults(repositories: Seq<Seq<char>>) -> Seq<Option<RequestFault>> {
    Seq::new(repositories.len(), |i: int| repository_fault(repositories, i))
}

/// What is wrong with each permission.
pub open spec fn permission_faults(permissions: Seq<Seq<char>>) -> Seq<Option<RequestFault>> {
    Seq::new(permissions.len(), |i: int| permission_fault(permissions, i))
}

/// What is wrong with a request: the first fault among its repositories, then that there are none,
/// then the first fault among its permissions.
pub open spec fn request_fault(
    repositories: Seq<Seq<char>>,
    permissions: Seq<Seq<char>>,
) -> Option<RequestFault> {
    match first_fault(repository_faults(repositories)) {
        Some(fault) => Some(fault),
        None => if repositories.len() == 0 {
            Some(RequestFault::NoRepositories)
        } else {
            first_fault(permission_faults(permissions))
        },
    }
}

/// The level of each permission, by its name; of two under one name the later counts.
pub open spec fn permission_levels(permissions: Seq<Seq<char>>) -> Map<Seq<char>, Seq<char>>
    decreases permissions.len(),
{
    if permissions.len() == 0 {
        Map::empty()
    } else {
        let parts = permission_parts(permissions.last()).unwrap();
        permission_levels(permissions.drop_last()).insert(parts.0, parts.1)
    }
}

/// A [`GitHubTokenRequest`] that has been checked and taken apart, once. All that follows reads
/// these fields and not the strings of the request, so that what is asked of GitHub cannot drift
/// from what was authorized.
#[derive(Debug)]
pub struct ParsedGitHubRequest {
    namespace: String,
    repository_names: Vec<String>,
    permissions: StringMap<String>,
}

/// The parts of a request.
#[verifier::ext_equal]
pub struct ParsedRequestModel {
    pub namespace: Seq<char>,
    pub repository_names: Seq<Seq<char>>,
    pub permissions: Map<Seq<char>, Seq<char>>,
}

impl View for ParsedGitHubRequest {
    type V = ParsedRequestModel;

    closed spec fn view(&self) -> ParsedRequestModel {
        ParsedRequestModel {
            namespace: self.namespace@,
            repository_names: texts(self.repository_names@),
            permissions: self.permissions@.map_values(|level: String| level@),
        }
    }
}

/// The parts of a request in which nothing is wrong.
pub open spec fn request_parts(
    repositories: Seq<Seq<char>>,
    permissions: Seq<Seq<char>>,
) -> ParsedRequestModel {
    ParsedRequestModel {
        namespace: repository_parts(repositories[0]).unwrap().0,
        repository_names: repositories.map_values(
            |repository: Seq<char>| repository_parts(repository).unwrap().1,
        ),
        permissions: permission_levels(permissions),
    }
}

/// Why a GitHub token is not issued.
#[derive(Debug)]
pub enum GitHubTokenError {
    NoCredentials,
    ResolveParam(String),
    LoadPrivateKey(jsonwebtoken::errors::Error),
    EncodeJwt(jsonwebtoken::errors::Error),
    NotAGitHubRepository(String),
    DifferentOrgs,
    NoRepositories,
    Http(String),
    GitHubError(String, StatusCode, String),
    DuplicatePermission(String),
    NotAPermission(String),
    AppNotInstalled(String),
}

impl GitHubTokenError {
    /// The fault of a request that the error tells of.
    pub open spec fn fault(self) -> Option<RequestFault> {
        match self {
            GitHubTokenError::NotAGitHubRepository(repository) => Some(
                RequestFault::NotAGitHubRepository(repository@),
            ),
            GitHubTokenError::DifferentOrgs => Some(RequestFault::DifferentOrgs),
            GitHubTokenError::NoRepositories => Some(RequestFault::NoRepositories),
            GitHubTokenError::NotAPermission(permission) => Some(
                RequestFault::NotAPermission(permission@),
            ),
            GitHubTokenError::DuplicatePermission(name) => Some(
                RequestFault::DuplicatePermission(name@),
            ),
            _ => None,
        }
    }

    /// The error tells of nothing but the request, or of what GitHub said of it.
    pub open spec fn is_safe(self) -> bool {
        match self {
            GitHubTokenError::ResolveParam(_) => false,
            GitHubTokenError::LoadPrivateKey(_) => false,
            GitHubTokenError::EncodeJwt(_) => false,
            GitHubTokenError::Http(_) => false,
            _ => true,
        }
    }

    /// Whether the error may be told to whoever asked for the token.
    pub fn safe_to_expose(&self) -> (safe: bool)
        ensures
            safe == self.is_safe(),
    {
        match self {
            GitHubTokenError::ResolveParam(_) => false,
            GitHubTokenError::LoadPrivateKey(_) => false,
            GitHubTokenError::EncodeJwt(_) => false,
            GitHubTokenError::Http(_) => false,
            GitHubTokenError::NoCredentials => true,
            GitHubTokenError::NotAGitHubRepository(_) => true,
            GitHubTokenError::DifferentOrgs => true,
            GitHubTokenError::NoRepositories => true,
            GitHubTokenError::DuplicatePermission(_) => true,
            GitHubTokenError::GitHubError(_, _, _) => true,
            GitHubTokenError::AppNotInstalled(_) => true,
            GitHubTokenError::NotAPermission(_) => true,
        }
    }

    /// What went wrong, in words. Of the errors that are not safe to expose the words tell
    /// nothing more than their kind.
    pub open spec fn spec_message(self) -> Seq<char> {
        match self {
            GitHubTokenError::NoCredentials =>
                "GitHub credentials are not configured for this instance of oidcx"@,
            GitHubTokenError::ResolveParam(_) => "Failed to resolve the GitHub App private key"@,
            GitHubTokenError::LoadPrivateKey(_) => "Failed to load the GitHub App private key"@,
            GitHubTokenError::EncodeJwt(_) => "Failed to encode the JWT"@,
            GitHubTokenError::NotAGitHubRepository(repository) => "Repository name "@ + repository@
                + " is not in the `org/name` format"@,
            GitHubTokenError::DifferentOrgs =>
                "The repositories requested for this token belong to different organizations"@,
            GitHubTokenError::NoRepositories =>
                "The requested token asked for access to no repositories"@,
            GitHubTokenError::Http(_) => "HTTP error"@,
            GitHubTokenError::GitHubError(url, status, text) => "Request to "@ + url@
                + " failed with status "@ + status_text(status@) + ": "@ + text@,
            GitHubTokenError::DuplicatePermission(name) => "The permission "@ + name@
                + " is requested multiple times"@,
            GitHubTokenError::NotAPermission(permission) => "The permission string "@ + permission@
                + " is not a valid permission"@,
            GitHubTokenError::AppNotInstalled(namespace) =>
                "oidcx's GitHub App is not installed on "@ + namespace@,
        }
    }

    /// What went wrong, in words.
    pub fn message(&self) -> (text: String)
        ensures
            text@ == self.spec_message(),
    {
        match self {
            GitHubTokenError::NoCredentials =>
                "GitHub credentials are not configured for this instance of oidcx".to_owned(),
            GitHubTokenError::ResolveParam(_) =>
                "Failed to resolve the GitHub App private key".to_owned(),
            GitHubTokenError::LoadPrivateKey(_) =>
                "Failed to load the GitHub App private key".to_owned(),
            GitHubTokenError::EncodeJwt(_) => "Failed to encode the JWT".to_owned(),
            GitHubTokenError::NotAGitHubRepository(repository) => join3(
                "Repository name ",
                repository.as_str(),
                " is not in the `org/name` format",
            ),
            GitHubTokenError::DifferentOrgs =>
                "The repositories requested for this token belong to different organizations".to_owned(),
            GitHubTokenError::NoRepositories =>
                "The requested token asked for access to no repositories".to_owned(),
            GitHubTokenError::Http(_) => "HTTP error".to_owned(),
            GitHubTokenError::GitHubError(url, status, text) => {
                let start = join3("Request to ", url.as_str(), " failed with status ");
                let status = join3(start.as_str(), status.text().as_str(), ": ");
                let mut message = status;
                message.append(text.as_str());
                message
            },
            GitHubTokenError::DuplicatePermission(name) => join3(
                "The permission ",
                name.as_str(),
                " is requested multiple times",
            ),
            GitHubTokenError::NotAPermission(permission) => join3(
                "The permission string ",
                permission.as_str(),
                " is not a valid permission",
            ),
            GitHubTokenError::AppNotInstalled(namespace) => {
                let mut message = "oidcx's GitHub App is not installed on ".to_owned();
                message.append(namespace.as_str());
                message
            },
        }
    }
}

/// The common namespace of some repositories, and their names.
fn parse_repositories(repositories: &Vec<String>) -> (parsed: Result<
    (String, Vec<String>),
    GitHubTokenError,
>)
    ensures
        match parsed {
            Ok((namespace, names)) => {
                &&& first_fault(repository_faults(texts(repositories@))) is None
                &&& repositories@.len() > 0
                &&& repository_parts(repositories@[0]@).unwrap().0 == namespace@
                &&& names@.len() == repositories@.len()
                &&& forall|i: int|
                    0 <= i < names@.len() ==> #[trigger] names@[i]@ == repository_parts(
                        repositories@[i]@,
                    ).unwrap().1
            },
            Err(error) => match first_fault(repository_faults(texts(repositories@))) {
                Some(fault) => error.fault() == Some(fault),
                None => repositories@.len() == 0 && error is NoRepositories,
            },
        },
{
    let ghost all = texts(repositories@);
    let ghost faults = repository_faults(all);
    let mut namespace: Option<&str> = None;
    let mut names: Vec<String> = Vec::new();
    let mut i: usize = 0;
    while i < repositories.len()
        invariant
            all == texts(repositories@),
            faults == repository_faults(all),
            i <= repositories@.len(),
            names@.len() == i,
            forall|j: int| 0 <= j < i ==> #[trigger] faults[j] is None,
            forall|j: int|
                0 <= j < i ==> #[trigger] names@[j]@ == repository_parts(
                    repositories@[j]@,
                ).unwrap().1,
            match namespace {
                Some(n) => i > 0 && repository_parts(all[0]) is Some && n@ == repository_parts(
                    all[0],
                ).unwrap().0,
                None => i == 0,
            },
        decreases repositories@.len() - i,
    {
        let repository = repositories[i].as_str();
        assert(all[i as int] == repository@);
        assert(faults[i as int] == repository_fault(all, i as int));
        match split_once(repository, '/') {
            Some((own, name)) => {
                if contains_char(name, '/') {
                    proof {
                        lemma_first_fault(faults, i as int);
                    }
                    return Err(GitHubTokenError::NotAGitHubRepository(repository.to_owned()));
                }
                match namespace {
                    Some(existing) => {
                        if *existing != *own {
                            proof {
                                lemma_first_fault(faults, i as int);
                            }
                            return Err(GitHubTokenError::DifferentOrgs);
                        }
                    },
                    None => {},
                }
                namespace = Some(own);
                names.push(name.to_owned());
            },
            None => {
                proof {
                    lemma_first_fault(faults, i as int);
                }
                return Err(GitHubTokenError::NotAGitHubRepository(repository.to_owned()));
            },
        }
        i = i + 1;
    }
    proof {
        lemma_first_fault(faults, faults.len() as int);
    }
    match namespace {
        Some(own) => Ok((own.to_owned(), names)),
        None => Err(GitHubTokenError::NoRepositories),
    }
}

/// The names of the permissions in order are those under which there is a level.
proof fn lemma_permission_levels(permissions: Seq<Seq<char>>, name: Seq<char>)
    requires
        forall|i: int|
            0 <= i < permissions.len() ==> permission_parts(#[trigger] permissions[i]) is Some,
    ensures
        permission_levels(permissions).contains_key(name) <==> exists|i: int|
            0 <= i < permissions.len() && #[trigger] has_permission_name(permissions, i, name),
    decreases permissions.len(),
{
    if permissions.len() > 0 {
        let init = permissions.drop_last();
        let last = permissions.len() - 1;
        assert forall|i: int| 0 <= i < init.len() implies permission_parts(
            #[trigger] init[i],
        ) is Some by {
            assert(permission_parts(permissions[i]) is Some);
        }
        lemma_permission_levels(init, name);
        if exists|i: int| 0 <= i < init.len() && #[trigger] has_permission_name(init, i, name) {
            let i = choose|i: int|
                0 <= i < init.len() && #[trigger] has_permission_name(init, i, name);
            assert(has_permission_name(permissions, i, name));
        }
        if exists|i: int|
            0 <= i < permissions.len() && #[trigger] has_permission_name(permissions, i, name) {
            let i = choose|i: int|
                0 <= i < permissions.len() && #[trigger] has_permission_name(permissions, i, name);
            if i < last {
                assert(has_permission_name(init, i, name));
            }
        }
        assert(permission_parts(permissions[last]) is Some);
        if permission_parts(permissions.last()).unwrap().0 == name {
            assert(has_permission_name(permissions, last, name));
        }
    }
}

/// The level of each permission, by its name.
fn parse_permissions(permissions: &Vec<String>) -> (parsed: Result<
    StringMap<String>,
    GitHubTokenError,
>)
    ensures
        match parsed {
            Ok(levels) => {
                &&& first_fault(permission_faults(texts(permissions@))) is None
                &&& levels@.map_values(|level: String| level@) == permission_levels(
                    texts(permissions@),
                )
            },
            Err(error) => first_fault(permission_faults(texts(permissions@))) is Some
                && error.fault() == first_fault(permission_faults(texts(permissions@))),
        },
{
    let ghost all = texts(permissions@);
    let ghost faults = permission_faults(all);
    let mut levels: StringMap<String> = StringMap::new();
    let mut i: usize = 0;
    while i < permissions.len()
        invariant
            all == texts(permissions@),
            faults == permission_faults(all),
            i <= permissions@.len(),
            forall|j: int| 0 <= j < i ==> #[trigger] faults[j] is None,
            levels@.map_values(|level: String| level@) =~= permission_levels(all.take(i as int)),
        decreases permissions@.len() - i,
    {
        let permission = permissions[i].as_str();
        let ghost seen = all.take(i as int);
        proof {
            assert(all[i as int] == permission@);
            assert(faults[i as int] == permission_fault(all, i as int));
            assert(all.take(i + 1).drop_last() =~= seen);
            assert forall|j: int| 0 <= j < seen.len() implies permission_parts(
                #[trigger] seen[j],
            ) is Some by {
                assert(faults[j] is None);
            }
        }
        match split_once(permission, ':') {
            Some((name, level)) => {
                if contains_char(name, '/') {
                    proof {
                        lemma_first_fault(faults, i as int);
                    }
                    return Err(GitHubTokenError::NotAPermission(permission.to_owned()));
                }
                proof {
                    lemma_permission_levels(seen, name@);
                    assert(levels@.contains_key(name@) == permission_levels(seen).contains_key(
                        name@,
                    ));
                    assert forall|j: int| 0 <= j < i implies #[trigger] has_permission_name(
                        all,
                        j,
                        name@,
                    ) == has_permission_name(seen, j, name@) by {
                        assert(all[j] == seen[j]);
                    }
                }
                if levels.contains_key(name) {
                    proof {
                        let j = choose|j: int|
                            0 <= j < seen.len() && #[trigger] has_permission_name(seen, j, name@);
                        assert(has_permission_name(all, j, name@));
                        lemma_first_fault(faults, i as int);
                    }
                    return Err(GitHubTokenError::DuplicatePermission(name.to_owned()));
                }
                assert(faults[i as int] is None);
                let ghost before = levels@;
                let level = level.to_owned();
                let ghost added = level@;
                levels.insert(name.to_owned(), level);
                assert(levels@.map_values(|level: String| level@) =~= before.map_values(
                    |level: String| level@,
                ).insert(name@, added));
            },
            None => {
                proof {
                    lemma_first_fault(faults, i as int);
                }
                return Err(GitHubTokenError::NotAPermission(permission.to_owned()));
            },
        }
        i = i + 1;
    }
    proof {
        lemma_first_fault(faults, faults.len() as int);
        assert(all.take(i as int) =~= all);
    }
    Ok(levels)
}

impl ParsedGitHubRequest {
    /// Checks a request and takes it apart. The token is good for one installation of the app, so
    /// all repositories must share a namespace.
    pub fn parse(request: &GitHubTokenRequest) -> (parsed: Result<Self, GitHubTokenError>)
        ensures
            match request_fault(texts(request.repositories@), texts(request.permissions@)) {
                Some(fault) => parsed matches Err(error) && error.fault() == Some(fault),
                None => parsed matches Ok(p) && p@ == request_parts(
                    texts(request.repositories@),
                    texts(request.permissions@),
                ),
            },
    {
        let (namespace, repository_names) = match parse_repositories(&request.repositories) {
            Ok(parts) => parts,
            Err(error) => {
                return Err(error);
            },
        };
        let permissions = match parse_permissions(&request.permissions) {
            Ok(permissions) => permissions,
            Err(error) => {
                return Err(error);
            },
        };
        assert(texts(repository_names@) =~= request_parts(
            texts(request.repositories@),
            texts(request.permissions@),
        ).repository_names);
        Ok(ParsedGitHubRequest { namespace, repository_names, permissions })
    }

    /// The namespace that all repositories belong to.
    pub fn namespace(&self) -> (namespace: &str)
        ensures
            namespace@ == self@.namespace,
    {
        self.namespace.as_str()
    }

    /// The names of the repositories, without their namespace.
    pub fn repository_names(&self) -> (names: &Vec<String>)
        ensures
            texts(names@) == self@.repository_names,
    {
        &self.repository_names
    }

    /// The level of each permission, by its name.
    pub fn permissions(&self) -> (permissions: &StringMap<String>)
        ensures
            permissions@.map_values(|level: String| level@) == self@.permissions,
    {
        &self.permissions
    }
}

/// The first fault of a list in which there is none is at no place.
proof fn lemma_no_fault(faults: Seq<Option<RequestFault>>, i: int)
    requires
        first_fault(faults) is None,
        0 <= i < faults.len(),
    ensures
        faults[i] is None,
    decreases faults.len(),
{
    if i > 0 {
        lemma_no_fault(faults.drop_first(), i - 1);
    }
}

/// A repository of a request in which nothing is wrong is the namespace and its name with a slash
/// between them, and neither of the two holds a slash: the repositories that a token is asked for
/// are the ones in the request.
pub proof fn parsed_repositories_are_the_requested(
    repositories: Seq<Seq<char>>,
    permissions: Seq<Seq<char>>,
    i: int,
)
    requires
        request_fault(repositories, permissions) is None,
        0 <= i < repositories.len(),
    ensures
        ({
            let parts = request_parts(repositories, permissions);
            &&& parts.repository_names.len() == repositories.len()
            &&& repositories[i] == parts.namespace + seq!['/'] + parts.repository_names[i]
            &&& !has_char(parts.namespace, '/')
            &&& !has_char(parts.repository_names[i], '/')
        }),
{
    lemma_no_fault(repository_faults(repositories), i);
    lemma_no_fault(repository_faults(repositories), 0);
    split_first_is_faithful(repositories[i], '/');
}

/// A permission of a request in which nothing is wrong is a name and a level with a colon between
/// them, and that is its level among the parsed permissions.
pub proof fn parsed_permissions_hold_the_requested(
    repositories: Seq<Seq<char>>,
    permissions: Seq<Seq<char>>,
    i: int,
)
    requires
        request_fault(repositories, permissions) is None,
        0 <= i < permissions.len(),
    ensures
        ({
            let parsed = request_parts(repositories, permissions).permissions;
            &&& permission_parts(permissions[i]) matches Some(parts)
            &&& permissions[i] == parts.0 + seq![':'] + parts.1
            &&& !has_char(parts.0, '/')
            &&& !has_char(parts.0, ':')
            &&& parsed.contains_key(parts.0)
            &&& parsed[parts.0] == parts.1
        }),
{
    lemma_no_fault(permission_faults(permissions), i);
    split_first_is_faithful(permissions[i], ':');
    assert forall|j: int| 0 <= j < permissions.len() implies #[trigger] permission_fault(
        permissions,
        j,
    ) is None by {
        lemma_no_fault(permission_faults(permissions), j);
    }
    lemma_level_of(permissions, i);
}

/// The level of a permission in order is the one under its name.
proof fn lemma_level_of(permissions: Seq<Seq<char>>, i: int)
    requires
        0 <= i < permissions.len(),
        forall|j: int|
            0 <= j < permissions.len() ==> #[trigger] permission_fault(permissions, j) is None,
    ensures
        ({
            let parts = permission_parts(permissions[i]).unwrap();
            &&& permission_levels(permissions).contains_key(parts.0)
            &&& permission_levels(permissions)[parts.0] == parts.1
        }),
    decreases permissions.len(),
{
    let init = permissions.drop_last();
    let last = permissions.len() - 1;
    assert(permission_fault(permissions, last) is None);
    assert(permission_fault(permissions, i) is None);
    if i < last {
        assert forall|j: int| 0 <= j < init.len() implies #[trigger] permission_fault(
            init,
            j,
        ) is None by {
            assert(permission_fault(permissions, j) is None);
            assert(init[j] == permissions[j]);
            let name = permission_parts(permissions[j]).unwrap().0;
            assert forall|k: int| 0 <= k < j implies !#[trigger] has_permission_name(
                init,
                k,
                name,
            ) by {
                assert(init[k] == permissions[k]);
                assert(!has_permission_name(permissions, k, name));
            }
        }
        lemma_level_of(init, i);
        let name = permission_parts(permissions[last]).unwrap().0;
        assert(!has_permission_name(permissions, i, name));
    }
}

/// Every parsed permission stands in the request: a token is asked for nothing beyond it.
pub proof fn parsed_permissions_are_requested(
    repositories: Seq<Seq<char>>,
    permissions: Seq<Seq<char>>,
    name: Seq<char>,
)
    requires
        request_fault(repositories, permissions) is None,
        request_parts(repositories, permissions).permissions.contains_key(name),
    ensures
        permissions.contains(
            name + seq![':'] + request_parts(repositories, permissions).permissions[name],
        ),
{
    assert forall|j: int| 0 <= j < permissions.len() implies permission_parts(
        #[trigger] permissions[j],
    ) is Some by {
        lemma_no_fault(permission_faults(permissions), j);
    }
    lemma_permission_levels(permissions, name);
    let i = choose|i: int|
        0 <= i < permissions.len() && #[trigger] has_permission_name(permissions, i, name);
    parsed_permissions_hold_the_requested(repositories, permissions, i);
}

/// How this service names itself to GitHub.
pub const USER_AGENT: &'static str = "https://github.com/oxidecomputer/oidcx";

/// What came of a request to GitHub: an error where no response came, where its body could not be
/// read, or where its status is no success. GitHub mostly explains a failure in JSON, but not
/// always; the whole body stands for a message that is not there.
pub fn github_request<T>(reply: Reply<T>) -> (outcome: Result<T, GitHubTokenError>)
    ensures
        match reply {
            Reply::Unanswered(fault) => outcome == Err::<T, GitHubTokenError>(
                GitHubTokenError::Http(fault),
            ),
            Reply::Success(Ok(value)) => outcome == Ok::<T, GitHubTokenError>(value),
            Reply::Success(Err(fault)) => outcome == Err::<T, GitHubTokenError>(
                GitHubTokenError::Http(fault),
            ),
            Reply::Failure { url, status, body: Ok(body) } => outcome == Err::<T, GitHubTokenError>(
                GitHubTokenError::GitHubError(
                    url,
                    status,
                    match body.message {
                        Some(message) => message,
                        None => body.text,
                    },
                ),
            ),
            Reply::Failure { url, status, body: Err(fault) } => outcome == Err::<
                T,
                GitHubTokenError,
            >(GitHubTokenError::Http(fault)),
        },
{
    match reply {
        Reply::Unanswered(fault) => Err(GitHubTokenError::Http(fault)),
        Reply::Success(parsed) => match parsed {
            Ok(value) => Ok(value),
            Err(fault) => Err(GitHubTokenError::Http(fault)),
        },
        Reply::Failure { url, status, body } => match body {
            Ok(body) => {
                let text = match body.message {
                    Some(message) => message,
                    None => body.text,
                };
                Err(GitHubTokenError::GitHubError(url, status, text))
            },
            Err(fault) => Err(GitHubTokenError::Http(fault)),
        },
    }
}

/// The GitHub App that tokens are issued through.
struct GitHubApp {
    client_id: String,
    private_key: SigningKey,
}

/// The id and the private key, in PEM, of a GitHub App.
pub struct GitHubAppModel {
    pub client_id: Seq<char>,
    pub private_key: Seq<char>,
}

/// Issues GitHub tokens, if a GitHub App is configured.
pub struct GitHubTokens {
    app: Option<GitHubApp>,
}

impl View for GitHubTokens {
    type V = Option<GitHubAppModel>;

    closed spec fn view(&self) -> Option<GitHubAppModel> {
        match self.app {
            Some(app) => Some(
                GitHubAppModel { client_id: app.client_id@, private_key: app.private_key@ },
            ),
            None => None,
        }
    }
}

/// How much earlier than now the app's own token claims to be issued, for clocks that are behind.
pub const CLOCK_SKEW_SECONDS: u64 = 10;

/// How long the app's own token is valid.
pub const APP_TOKEN_SECONDS: u64 = 300;

/// The claims of the token by which the app shows GitHub who it is.
pub open spec fn app_claims(client_id: Seq<char>, now: u64) -> Seq<(Seq<char>, ClaimModel)> {
    seq![
        ("iss"@, ClaimModel::String(client_id)),
        ("iat"@, ClaimModel::Number((now - CLOCK_SKEW_SECONDS) as i64)),
        ("exp"@, ClaimModel::Number((now + APP_TOKEN_SECONDS) as i64)),
    ]
}

/// What may come of signing the token by which the app shows GitHub who it is.
pub open spec fn app_token_outcomes(app: GitHubAppModel, now: u64) -> Set<Option<Seq<char>>> {
    signing_outcomes(Algorithm::RS256.spec_name(), app_claims(app.client_id, now), app.private_key)
}

/// The token is one by which the app shows GitHub who it is: it says so, and the app signed it.
pub open spec fn is_app_token(app: GitHubAppModel, now: u64, token: Seq<char>) -> bool {
    &&& app_token_outcomes(app, now).contains(Some(token))
    &&& token_header(token) == Some(
        TokenHeaderModel { algorithm: Algorithm::RS256.spec_name(), kid: None },
    )
    &&& token_payload(token) == Some(carried_claims(app_claims(app.client_id, now)))
}

/// The token by which the app shows GitHub who it is says that it comes from the app and how long
/// it is valid, and nothing else.
pub proof fn app_tokens_speak_for_the_app(app: GitHubAppModel, now: u64, token: Seq<char>)
    requires
        is_usable_time(now),
        is_app_token(app, now, token),
    ensures
        token_payload(token) == Some(
            Map::empty().insert("iss"@, RawClaimModel::Text(app.client_id)).insert(
                "iat"@,
                RawClaimModel::Number(Some((now - CLOCK_SKEW_SECONDS) as i64)),
            ).insert("exp"@, RawClaimModel::Number(Some((now + APP_TOKEN_SECONDS) as i64))),
        ),
        claimed_issuer(token_payload(token)) == Some(app.client_id),
{
    let claims = app_claims(app.client_id, now);
    assert(claims.drop_last() =~= claims.take(2));
    assert(claims.take(2).drop_last() =~= claims.take(1));
    assert(claims.take(1).drop_last() =~= claims.take(0));
    reveal_with_fuel(carried_claims, 4);
    reveal_strlit("iss");
    reveal_strlit("iat");
    reveal_strlit("exp");
    assert("iss"@[1] == 's' && "iat"@[1] == 'a' && "exp"@[1] == 'x');
}

/// The time, in seconds since 1970, is one at which the app's token can be made.
pub open spec fn is_usable_time(now: u64) -> bool {
    CLOCK_SKEW_SECONDS <= now <= i64::MAX - APP_TOKEN_SECONDS
}

impl GitHubApp {
    /// The token by which the app shows GitHub who it is.
    fn token(&self, now: u64) -> (token: Result<String, jsonwebtoken::errors::Error>)
        requires
            is_usable_time(now),
        ensures
            ({
                let app = GitHubAppModel {
                    client_id: self.client_id@,
                    private_key: self.private_key@,
                };
                match token {
                    Ok(t) => is_app_token(app, now, t@),
                    Err(_) => app_token_outcomes(app, now).contains(None),
                }
            }),
    {
        let mut claims: Vec<(String, ClaimValue)> = Vec::new();
        claims.push(("iss".to_owned(), ClaimValue::String(self.client_id.as_str().to_owned())));
        claims.push(("iat".to_owned(), ClaimValue::Number((now - CLOCK_SKEW_SECONDS) as i64)));
        claims.push(("exp".to_owned(), ClaimValue::Number((now + APP_TOKEN_SECONDS) as i64)));
        assert(claim_list(claims@) =~= app_claims(self.client_id@, now));
        jwt::encode(Algorithm::RS256.name(), claims, &self.private_key)
    }
}

/// The settings hold no GitHub App, or one whose private key can be used.
pub open spec fn app_is_usable(settings: Settings) -> bool {
    settings.github matches Some(github) ==> (github.private_key matches Ok(pem) && is_rsa_pem(
        pem@,
    ))
}

impl GitHubTokens {
    /// The tokens are what the settings make them, or the error tells why they make none.
    pub open spec fn is_made_of(
        settings: Settings,
        tokens: Result<GitHubTokens, GitHubTokenError>,
    ) -> bool {
        match settings.github {
            None => tokens matches Ok(t) && t@ is None,
            Some(github) => match github.private_key {
                Err(fault) => tokens matches Err(GitHubTokenError::ResolveParam(f)) && f@ == fault@,
                Ok(pem) => if is_rsa_pem(pem@) {
                    tokens matches Ok(t) && t@ == Some(
                        GitHubAppModel { client_id: github.client_id@, private_key: pem@ },
                    )
                } else {
                    tokens matches Err(GitHubTokenError::LoadPrivateKey(_))
                },
            },
        }
    }

    /// Takes the GitHub App out of the settings.
    pub fn new(settings: &Settings) -> (tokens: Result<Self, GitHubTokenError>)
        ensures
            GitHubTokens::is_made_of(*settings, tokens),
    {
        match &settings.github {
            Some(github) => match &github.private_key {
                Ok(pem) => match SigningKey::from_rsa_pem(pem.as_str().to_owned()) {
                    Ok(private_key) => Ok(
                        GitHubTokens {
                            app: Some(
                                GitHubApp {
                                    client_id: github.client_id.as_str().to_owned(),
                                    private_key,
                                },
                            ),
                        },
                    ),
                    Err(error) => Err(GitHubTokenError::LoadPrivateKey(error)),
                },
                Err(fault) => Err(GitHubTokenError::ResolveParam(fault.as_str().to_owned())),
            },
            None => Ok(GitHubTokens { app: None }),
        }
    }

    /// What is known of the outcome of asking for a token.
    pub open spec fn asks(
        self,
        repositories: Seq<Seq<char>>,
        permissions: Seq<Seq<char>>,
        now: u64,
        lookup: Result<InstallationLookup, GitHubTokenError>,
    ) -> bool {
        match self@ {
            None => lookup matches Err(GitHubTokenError::NoCredentials),
            Some(app) => match request_fault(repositories, permissions) {
                Some(fault) => lookup matches Err(error) && error.fault() == Some(fault),
                None => match lookup {
                    Ok(l) => {
                        &&& is_app_token(app, now, l@.app_token)
                        &&& l@ == (LookupModel {
                            request: request_parts(repositories, permissions),
                            app_token: l@.app_token,
                            account: Account::Organization,
                            found: None,
                        })
                    },
                    Err(error) => {
                        &&& error is EncodeJwt
                        &&& app_token_outcomes(app, now).contains(None)
                    },
                },
            },
        }
    }

    /// Asks for a token. First the installation of the app is looked up.
    pub fn get(&self, request: &GitHubTokenRequest, now: u64) -> (lookup: Result<
        InstallationLookup,
        GitHubTokenError,
    >)
        requires
            is_usable_time(now),
        ensures
            self.asks(texts(request.repositories@), texts(request.permissions@), now, lookup),
    {
        let app = match &self.app {
            Some(app) => app,
            None => {
                return Err(GitHubTokenError::NoCredentials);
            },
        };
        let parsed = match ParsedGitHubRequest::parse(request) {
            Ok(parsed) => parsed,
            Err(error) => {
                return Err(error);
            },
        };
        InstallationLookup::start(parsed, app.token(now))
    }

    /// Asks for the token that the visibility of a repository is read with.
    pub fn repository_visibility(&self, repository: &str, now: u64) -> (lookup: Result<
        InstallationLookup,
        GitHubTokenError,
    >)
        requires
            is_usable_time(now),
        ensures
            self.asks(seq![repository@], seq!["metadata:read"@], now, lookup),
            exists|request: GitHubTokenRequest|
                {
                    &&& texts(request.repositories@) == seq![repository@]
                    &&& texts(request.permissions@) == seq!["metadata:read"@]
                    &&& #[trigger] call_ensures(GitHubTokens::get, (self, &request, now), lookup)
                },
    {
        let mut repositories: Vec<String> = Vec::new();
        repositories.push(repository.to_owned());
        let mut permissions: Vec<String> = Vec::new();
        permissions.push("metadata:read".to_owned());
        assert(texts(repositories@) =~= seq![repository@]);
        assert(texts(permissions@) =~= seq!["metadata:read"@]);
        let request = GitHubTokenRequest { repositories, permissions };
        let lookup = self.get(&request, now);
        assert(call_ensures(GitHubTokens::get, (self, &request, now), lookup));
        lookup
    }
}

/// The kinds of account that the app can be installed on.
#[derive(Clone, Copy, Debug, PartialEq, Eq, Structural)]
pub enum Account {
    Organization,
    User,
}

impl Account {
    /// What the kind is called in the paths of the API.
    pub open spec fn spec_path(self) -> Seq<char> {
        match self {
            Account::Organization => "orgs"@,
            Account::User => "users"@,
        }
    }

    /// What the kind is called in the paths of the API.
    pub fn path(&self) -> (path: &'static str)
        ensures
            path@ == self.spec_path(),
    {
        match self {
            Account::Organization => "orgs",
            Account::User => "users",
        }
    }
}

/// The search for the app's installation on a namespace, first among the organizations and then
/// among the users: the app may be installed on a personal account.
#[derive(Debug)]
pub struct InstallationLookup {
    request: ParsedGitHubRequest,
    app_token: String,
    account: Account,
    found: Option<u64>,
}

/// The state of an [`InstallationLookup`].
pub struct LookupModel {
    pub request: ParsedRequestModel,
    pub app_token: Seq<char>,
    pub account: Account,
    pub found: Option<u64>,
}

impl View for InstallationLookup {
    type V = LookupModel;

    closed spec fn view(&self) -> LookupModel {
        LookupModel {
            request: self.request@,
            app_token: self.app_token@,
            account: self.account,
            found: self.found,
        }
    }
}

/// What GitHub said of the installation on an account.
pub enum LookupReply {
    Found(u64),
    NotFound,
    Failed,
}

/// What GitHub said of the installation: that it does not exist is no failure.
pub open spec fn lookup_reply(response: Result<u64, GitHubTokenError>) -> LookupReply {
    match response {
        Ok(id) => LookupReply::Found(id),
        Err(GitHubTokenError::GitHubError(_, status, _)) => if status@ == 404 {
            LookupReply::NotFound
        } else {
            LookupReply::Failed
        },
        Err(_) => LookupReply::Failed,
    }
}

/// What follows a reply.
pub enum LookupOutcome {
    /// The installation is looked up on the other kind of account.
    Next(LookupModel),
    /// The token is asked of this installation.
    Installed(u64),
    /// The app is not installed on the namespace.
    NotInstalled,
    /// The reply was a failure.
    Failed,
}

/// What follows a reply. The later of two installations counts.
pub open spec fn lookup_outcome(lookup: LookupModel, reply: LookupReply) -> LookupOutcome {
    let found = match reply {
        LookupReply::Found(id) => Some(id),
        _ => lookup.found,
    };
    match reply {
        LookupReply::Failed => LookupOutcome::Failed,
        _ => match lookup.account {
            Account::Organization => LookupOutcome::Next(
                LookupModel { account: Account::User, found, ..lookup },
            ),
            Account::User => match found {
                Some(id) => LookupOutcome::Installed(id),
                None => LookupOutcome::NotInstalled,
            },
        },
    }
}

/// What is sent to GitHub next.
#[derive(Debug)]
pub enum GitHubStep {
    Lookup(InstallationLookup),
    AccessToken(AccessTokenRequest),
}

impl InstallationLookup {
    /// Starts the search, with the app's own token if it could be signed.
    pub fn start(
        request: ParsedGitHubRequest,
        signed: Result<String, jsonwebtoken::errors::Error>,
    ) -> (lookup: Result<InstallationLookup, GitHubTokenError>)
        ensures
            match signed {
                Ok(token) => lookup matches Ok(l) && l@ == (LookupModel {
                    request: request@,
                    app_token: token@,
                    account: Account::Organization,
                    found: None,
                }),
                Err(error) => lookup == Err::<InstallationLookup, GitHubTokenError>(
                    GitHubTokenError::EncodeJwt(error),
                ),
            },
    {
        match signed {
            Ok(app_token) => Ok(
                InstallationLookup {
                    request,
                    app_token,
                    account: Account::Organization,
                    found: None,
                },
            ),
            Err(error) => Err(GitHubTokenError::EncodeJwt(error)),
        }
    }

    /// The URL to get.
    pub open spec fn spec_url(self) -> Seq<char> {
        "https://api.github.com/"@ + self@.account.spec_path() + "/"@ + self@.request.namespace
            + "/installation"@
    }

    /// The URL to get.
    pub fn url(&self) -> (url: String)
        ensures
            url@ == self.spec_url(),
    {
        let start = join3("https://api.github.com/", self.account.path(), "/");
        join3(start.as_str(), self.request.namespace(), "/installation")
    }

    /// The token to present.
    pub fn bearer(&self) -> (token: &str)
        ensures
            token@ == self@.app_token,
    {
        self.app_token.as_str()
    }

    /// Goes on after a response.
    pub fn answer(self, response: Result<u64, GitHubTokenError>) -> (step: Result<
        GitHubStep,
        GitHubTokenError,
    >)
        ensures
            match lookup_outcome(self@, lookup_reply(response)) {
                LookupOutcome::Next(lookup) => step matches Ok(GitHubStep::Lookup(l)) && l@
                    == lookup,
                LookupOutcome::Installed(id) => step matches Ok(GitHubStep::AccessToken(r)) && r@
                    == (AccessTokenModel {
                    request: self@.request,
                    app_token: self@.app_token,
                    installation: id,
                }),
                LookupOutcome::NotInstalled => step matches Err(
                    GitHubTokenError::AppNotInstalled(namespace),
                ) && namespace@ == self@.request.namespace,
                LookupOutcome::Failed => step matches Err(error) && response
                    == Err::<u64, GitHubTokenError>(error),
            },
    {
        let found = match response {
            Ok(id) => Some(id),
            Err(GitHubTokenError::GitHubError(url, status, text)) => {
                if status.is_not_found() {
                    self.found
                } else {
                    return Err(GitHubTokenError::GitHubError(url, status, text));
                }
            },
            Err(error) => {
                return Err(error);
            },
        };
        match self.account {
            Account::Organization => Ok(
                GitHubStep::Lookup(
                    InstallationLookup {
                        request: self.request,
                        app_token: self.app_token,
                        account: Account::User,
                        found,
                    },
                ),
            ),
            Account::User => match found {
                Some(installation) => Ok(
                    GitHubStep::AccessToken(
                        AccessTokenRequest {
                            request: self.request,
                            app_token: self.app_token,
                            installation,
                        },
                    ),
                ),
                None => Err(
                    GitHubTokenError::AppNotInstalled(self.request.namespace().to_owned()),
                ),
            },
        }
    }
}

/// Both kinds of account are always asked. An installation on a user account counts before one on
/// an organization, and where neither exists the app is not installed.
pub proof fn both_accounts_are_asked(
    lookup: LookupModel,
    organization: LookupReply,
    user: LookupReply,
)
    requires
        lookup.account == Account::Organization,
        lookup.found is None,
        !(organization is Failed),
    ensures
        lookup_outcome(lookup, organization) matches LookupOutcome::Next(next) && {
            &&& next.account == Account::User
            &&& next.request == lookup.request
            &&& next.app_token == lookup.app_token
            &&& lookup_outcome(next, user) == match user {
                LookupReply::Found(id) => LookupOutcome::Installed(id),
                LookupReply::NotFound => match organization {
                    LookupReply::Found(id) => LookupOutcome::Installed(id),
                    _ => LookupOutcome::NotInstalled,
                },
                LookupReply::Failed => LookupOutcome::Failed,
            }
        },
{
}

/// The request for an access token, to be posted to an installation of the app.
#[derive(Debug)]
pub struct AccessTokenRequest {
    request: ParsedGitHubRequest,
    app_token: String,
    installation: u64,
}

/// What an [`AccessTokenRequest`] holds.
pub struct AccessTokenModel {
    pub request: ParsedRequestModel,
    pub app_token: Seq<char>,
    pub installation: u64,
}

impl View for AccessTokenRequest {
    type V = AccessTokenModel;

    closed spec fn view(&self) -> AccessTokenModel {
        AccessTokenModel {
            request: self.request@,
            app_token: self.app_token@,
            installation: self.installation,
        }
    }
}

impl AccessTokenRequest {
    /// The URL to post to.
    pub open spec fn spec_url(self) -> Seq<char> {
        "https://api.github.com/app/installations/"@ + decimal(self@.installation as nat)
            + "/access_tokens"@
    }

    /// The URL to post to.
    pub fn url(&self) -> (url: String)
        ensures
            url@ == self.spec_url(),
    {
        join3(
            "https://api.github.com/app/installations/",
            to_decimal(self.installation).as_str(),
            "/access_tokens",
        )
    }

    /// The token to present.
    pub fn bearer(&self) -> (token: &str)
        ensures
            token@ == self@.app_token,
    {
        self.app_token.as_str()
    }

    /// The repositories and permissions to post.
    pub fn scope(&self) -> (scope: &ParsedGitHubRequest)
        ensures
            scope@ == self@.request,
    {
        &self.request
    }

    /// Ends after a response: the token that GitHub made is the one issued.
    pub fn answer(self, response: Result<String, GitHubTokenError>) -> (token: Result<
        Token,
        GitHubTokenError,
    >)
        ensures
            match response {
                Ok(text) => token == Ok::<Token, GitHubTokenError>(Token { access_token: text }),
                Err(error) => token == Err::<Token, GitHubTokenError>(error),
            },
    {
        match response {
            Ok(access_token) => Ok(Token { access_token }),
            Err(error) => Err(error),
        }
    }
}

/// Where a repository is described.
pub open spec fn repository_url(repository: Seq<char>) -> Seq<char> {
    "https://api.github.com/repos/"@ + repository
}

/// The request for the description of a repository.
#[derive(Debug)]
pub struct RepositoryRequest {
    pub url: String,
    pub bearer: String,
}

impl RepositoryRequest {
    /// Asks for the description of a repository with a token that may read it.
    pub fn new(repository: &str, token: Token) -> (request: RepositoryRequest)
        ensures
            request.url@ == repository_url(repository@),
            request.bearer == token.access_token,
    {
        let mut url = "https://api.github.com/repos/".to_owned();
        url.append(repository);
        RepositoryRequest { url, bearer: token.access_token }
    }
}

/// The repository is a namespace and a name with the only slash between them.
pub open spec fn is_in_namespace(
    repository: Seq<char>,
    namespace: Seq<char>,
    name: Seq<char>,
) -> bool {
    &&& repository == namespace + seq!['/'] + name
    &&& !namespace.contains('/')
    &&& !name.contains('/')
}

/// The permission is a name and a level with the first colon between them, and no slash stands in
/// the name.
pub open spec fn is_of_level(permission: Seq<char>, name: Seq<char>, level: Seq<char>) -> bool {
    &&& permission == name + seq![':'] + level
    &&& !name.contains(':')
    &&& !name.contains('/')
}

/// What a repository is taken apart into is what it is put together from.
proof fn lemma_repository_parts(repository: Seq<char>, namespace: Seq<char>, name: Seq<char>)
    ensures
        repository_parts(repository) == Some((namespace, name)) <==> is_in_namespace(
            repository,
            namespace,
            name,
        ),
{
    split_first_is_faithful(repository, '/');
    if is_in_namespace(repository, namespace, name) {
        lemma_split_first(namespace, '/', name);
    }
}

/// What a permission is taken apart into is what it is put together from.
proof fn lemma_permission_parts(permission: Seq<char>, name: Seq<char>, level: Seq<char>)
    ensures
        permission_parts(permission) == Some((name, level)) <==> is_of_level(
            permission,
            name,
            level,
        ),
{
    split_first_is_faithful(permission, ':');
    if is_of_level(permission, name, level) {
        lemma_split_first(name, ':', level);
    }
}

/// A request is accepted where its repositories share a namespace and its permissions have names
/// of their own, whatever the names and levels are, and it is taken apart into just these.
pub proof fn well_formed_requests_are_accepted(
    request: &GitHubTokenRequest,
    parsed: Result<ParsedGitHubRequest, GitHubTokenError>,
    namespace: Seq<char>,
    repository_names: Seq<Seq<char>>,
    permission_names: Seq<Seq<char>>,
    levels: Seq<Seq<char>>,
)
    requires
        call_ensures(ParsedGitHubRequest::parse, (request,), parsed),
        request.repositories@.len() > 0,
        repository_names.len() == request.repositories@.len(),
        forall|i: int|
            0 <= i < repository_names.len() ==> is_in_namespace(
                #[trigger] request.repositories@[i]@,
                namespace,
                repository_names[i],
            ),
        permission_names.len() == request.permissions@.len(),
        levels.len() == request.permissions@.len(),
        forall|i: int|
            0 <= i < permission_names.len() ==> is_of_level(
                #[trigger] request.permissions@[i]@,
                permission_names[i],
                levels[i],
            ),
        forall|i: int, j: int|
            0 <= i < j < permission_names.len() ==> #[trigger] permission_names[i]
                != #[trigger] permission_names[j],
    ensures
        parsed matches Ok(p) && {
            &&& p@.namespace == namespace
            &&& p@.repository_names == repository_names
            &&& forall|i: int|
                #![trigger permission_names[i]]
                0 <= i < permission_names.len() ==> {
                    &&& p@.permissions.contains_key(permission_names[i])
                    &&& p@.permissions[permission_names[i]] == levels[i]
                }
            &&& forall|name: Seq<char>| #[trigger]
                p@.permissions.contains_key(name) ==> permission_names.contains(name)
        },
{
    let repositories = texts(request.repositories@);
    let permissions = texts(request.permissions@);
    assert forall|i: int| 0 <= i < repositories.len() implies repository_parts(
        #[trigger] repositories[i],
    ) == Some((namespace, repository_names[i])) by {
        assert(repositories[i] == request.repositories@[i]@);
        lemma_repository_parts(repositories[i], namespace, repository_names[i]);
    }
    let faults = repository_faults(repositories);
    assert forall|i: int| 0 <= i < faults.len() implies #[trigger] faults[i] is None by {
        assert(repository_parts(repositories[i]) is Some);
        assert(repository_parts(repositories[0]) == Some((namespace, repository_names[0])));
    }
    lemma_first_fault(faults, faults.len() as int);
    assert forall|i: int| 0 <= i < permissions.len() implies permission_parts(
        #[trigger] permissions[i],
    ) == Some((permission_names[i], levels[i])) by {
        assert(permissions[i] == request.permissions@[i]@);
        lemma_permission_parts(permissions[i], permission_names[i], levels[i]);
    }
    let faults = permission_faults(permissions);
    assert forall|i: int| 0 <= i < faults.len() implies #[trigger] faults[i] is None by {
        assert(permission_parts(permissions[i]) == Some((permission_names[i], levels[i])));
        assert forall|j: int| 0 <= j < i implies !#[trigger] has_permission_name(
            permissions,
            j,
            permission_names[i],
        ) by {
            assert(permission_parts(permissions[j]) == Some((permission_names[j], levels[j])));
        }
    }
    lemma_first_fault(faults, faults.len() as int);
    assert(request_fault(repositories, permissions) is None);
    let parts = request_parts(repositories, permissions);
    assert(repository_parts(repositories[0]) == Some((namespace, repository_names[0])));
    assert(parts.repository_names =~= repository_names);
    assert forall|i: int|
        #![trigger permission_names[i]]
        0 <= i < permission_names.len() implies {
        &&& parts.permissions.contains_key(permission_names[i])
        &&& parts.permissions[permission_names[i]] == levels[i]
    } by {
        parsed_permissions_hold_the_requested(repositories, permissions, i);
        assert(permission_parts(permissions[i]) == Some((permission_names[i], levels[i])));
    }
    assert forall|name: Seq<char>| #[trigger]
        parts.permissions.contains_key(name) implies permission_names.contains(name) by {
        lemma_permission_levels(permissions, name);
        let i = choose|i: int|
            0 <= i < permissions.len() && #[trigger] has_permission_name(permissions, i, name);
        assert(permission_parts(permissions[i]) == Some((permission_names[i], levels[i])));
        assert(permission_names[i] == name);
    }
}

/// A request that is accepted is one of repositories that share a namespace, and what it is taken
/// apart into puts together just what it asked for.
pub proof fn accepted_requests_are_well_formed(
    request: &GitHubTokenRequest,
    parsed: ParsedGitHubRequest,
    namespace: &str,
    names: &Vec<String>,
    levels: &StringMap<String>,
)
    requires
        call_ensures(
            ParsedGitHubRequest::parse,
            (request,),
            Ok::<ParsedGitHubRequest, GitHubTokenError>(parsed),
        ),
        call_ensures(ParsedGitHubRequest::namespace, (&parsed,), namespace),
        call_ensures(ParsedGitHubRequest::repository_names, (&parsed,), names),
        call_ensures(ParsedGitHubRequest::permissions, (&parsed,), levels),
    ensures
        request.repositories@.len() > 0,
        names@.len() == request.repositories@.len(),
        forall|i: int|
            0 <= i < names@.len() ==> is_in_namespace(
                #[trigger] request.repositories@[i]@,
                namespace@,
                names@[i]@,
            ),
        forall|i: int|
            0 <= i < request.permissions@.len() ==> exists|name: Seq<char>|
                {
                    &&& #[trigger] levels@.contains_key(name)
                    &&& is_of_level(#[trigger] request.permissions@[i]@, name, levels@[name]@)
                },
        forall|name: Seq<char>| #[trigger]
            levels@.contains_key(name) ==> exists|i: int|
                {
                    &&& 0 <= i < request.permissions@.len()
                    &&& is_of_level(#[trigger] request.permissions@[i]@, name, levels@[name]@)
                },
        forall|i: int, j: int, name: Seq<char>, a: Seq<char>, b: Seq<char>|
            0 <= i < j < request.permissions@.len() ==> !(#[trigger] is_of_level(
                request.permissions@[i]@,
                name,
                a,
            ) && #[trigger] is_of_level(request.permissions@[j]@, name, b)),
{
    let repositories = texts(request.repositories@);
    let permissions = texts(request.permissions@);
    let parts = request_parts(repositories, permissions);
    assert(levels@.map_values(|level: String| level@) == parts.permissions);
    if repositories.len() == 0 {
        lemma_first_fault(repository_faults(repositories), 0);
    }
    assert(texts(names@).len() == names@.len());
    assert forall|i: int| 0 <= i < names@.len() implies is_in_namespace(
        #[trigger] request.repositories@[i]@,
        namespace@,
        names@[i]@,
    ) by {
        lemma_no_fault(repository_faults(repositories), i);
        lemma_no_fault(repository_faults(repositories), 0);
        assert(texts(names@)[i] == names@[i]@);
        assert(repositories[i] == request.repositories@[i]@);
        lemma_repository_parts(repositories[i], namespace@, names@[i]@);
    }
    assert forall|i: int| 0 <= i < request.permissions@.len() implies exists|name: Seq<char>|
        {
            &&& #[trigger] levels@.contains_key(name)
            &&& is_of_level(#[trigger] request.permissions@[i]@, name, levels@[name]@)
        } by {
        parsed_permissions_hold_the_requested(repositories, permissions, i);
        let own = permission_parts(permissions[i]).unwrap();
        assert(permissions[i] == request.permissions@[i]@);
        lemma_permission_parts(permissions[i], own.0, own.1);
        assert(levels@.contains_key(own.0) && levels@[own.0]@ == parts.permissions[own.0]);
    }
    assert forall|name: Seq<char>| #[trigger] levels@.contains_key(name) implies exists|i: int|
        {
            &&& 0 <= i < request.permissions@.len()
            &&& is_of_level(#[trigger] request.permissions@[i]@, name, levels@[name]@)
        } by {
        assert(parts.permissions.contains_key(name));
        assert forall|j: int| 0 <= j < permissions.len() implies permission_parts(
            #[trigger] permissions[j],
        ) is Some by {
            lemma_no_fault(permission_faults(permissions), j);
        }
        lemma_permission_levels(permissions, name);
        let i = choose|i: int|
            0 <= i < permissions.len() && #[trigger] has_permission_name(permissions, i, name);
        parsed_permissions_hold_the_requested(repositories, permissions, i);
        assert(permissions[i] == request.permissions@[i]@);
        lemma_permission_parts(permissions[i], name, levels@[name]@);
        assert(levels@[name]@ == parts.permissions[name]);
        assert(is_of_level(request.permissions@[i]@, name, levels@[name]@));
    }
    assert forall|i: int, j: int, name: Seq<char>, a: Seq<char>, b: Seq<char>|
        0 <= i < j < request.permissions@.len() implies !(#[trigger] is_of_level(
        request.permissions@[i]@,
        name,
        a,
    ) && #[trigger] is_of_level(request.permissions@[j]@, name, b)) by {
        lemma_no_fault(permission_faults(permissions), j);
        assert(permissions[i] == request.permissions@[i]@);
        assert(permissions[j] == request.permissions@[j]@);
        lemma_permission_parts(permissions[i], name, a);
        lemma_permission_parts(permissions[j], name, b);
        if is_of_level(permissions[i], name, a) && is_of_level(permissions[j], name, b) {
            assert(has_permission_name(permissions, i, name));
        }
    }
}

/// The repository has a name in the namespace.
pub open spec fn belongs_to(repository: Seq<char>, namespace: Seq<char>) -> bool {
    exists|name: Seq<char>| #[trigger] is_in_namespace(repository, namespace, name)
}

/// The first `count` repositories have names in the namespace.
pub open spec fn all_belong_to(
    repositories: Seq<String>,
    count: int,
    namespace: Seq<char>,
) -> bool {
    forall|j: int| 0 <= j < count ==> belongs_to((#[trigger] repositories[j])@, namespace)
}

/// The first `count` repositories have names in one namespace.
pub open spec fn share_a_namespace(repositories: Seq<String>, count: int) -> bool {
    exists|namespace: Seq<char>| #[trigger] all_belong_to(repositories, count, namespace)
}

/// A request is refused for a reason that it gives: a repository that is no namespace and name, two
/// repositories of different namespaces, no repository at all, a permission that is no name and
/// level, or two permissions of one name. The repositories are looked at before the permissions.
pub proof fn refused_requests_are_at_fault(
    request: &GitHubTokenRequest,
    error: GitHubTokenError,
)
    requires
        call_ensures(
            ParsedGitHubRequest::parse,
            (request,),
            Err::<ParsedGitHubRequest, GitHubTokenError>(error),
        ),
    ensures
        ({
            let repositories = request.repositories@;
            let permissions = request.permissions@;
            match error {
                GitHubTokenError::NotAGitHubRepository(repository) => exists|i: int|
                    {
                        &&& 0 <= i < repositories.len()
                        &&& (#[trigger] repositories[i])@ == repository@
                        &&& forall|namespace: Seq<char>, name: Seq<char>|
                            !is_in_namespace(repository@, namespace, name)
                        &&& share_a_namespace(repositories, i)
                    },
                GitHubTokenError::DifferentOrgs => exists|
                    i: int,
                    a: Seq<char>,
                    b: Seq<char>,
                    x: Seq<char>,
                    y: Seq<char>,
                |
                    {
                        &&& 0 < i < repositories.len()
                        &&& #[trigger] is_in_namespace(repositories[0]@, a, x)
                        &&& #[trigger] is_in_namespace(repositories[i]@, b, y)
                        &&& a != b
                        &&& share_a_namespace(repositories, i)
                    },
                GitHubTokenError::NoRepositories => repositories.len() == 0,
                GitHubTokenError::NotAPermission(permission) => {
                    &&& repositories.len() > 0
                    &&& share_a_namespace(repositories, repositories.len() as int)
                    &&& exists|i: int|
                        {
                            &&& 0 <= i < permissions.len()
                            &&& (#[trigger] permissions[i])@ == permission@
                            &&& forall|name: Seq<char>, level: Seq<char>|
                                !is_of_level(permission@, name, level)
                        }
                },
                GitHubTokenError::DuplicatePermission(name) => {
                    &&& repositories.len() > 0
                    &&& share_a_namespace(repositories, repositories.len() as int)
                    &&& exists|i: int, j: int, a: Seq<char>, b: Seq<char>|
                        {
                            &&& 0 <= i < j < permissions.len()
                            &&& #[trigger] is_of_level(permissions[i]@, name@, a)
                            &&& #[trigger] is_of_level(permissions[j]@, name@, b)
                        }
                },
                _ => false,
            }
        }),
{
    let repositories = texts(request.repositories@);
    let permissions = texts(request.permissions@);
    let faults = repository_faults(repositories);
    if first_fault(faults) is Some {
        lemma_where_the_fault_is(faults);
        let i = choose|i: int| #[trigger] is_first_fault(faults, i);
        assert(faults[i] == repository_fault(repositories, i));
        assert(repositories[i] == request.repositories@[i]@);
        lemma_shared_namespace(request.repositories@, i);
        let repository = repositories[i];
        match repository_parts(repository) {
            None => {
                assert forall|namespace: Seq<char>, name: Seq<char>| !is_in_namespace(
                    repository,
                    namespace,
                    name,
                ) by {
                    lemma_repository_parts(repository, namespace, name);
                }
                assert(request.repositories@[i]@ == repository);
            },
            Some((namespace, name)) => {
                assert(faults[0] is None);
                assert(repositories[0] == request.repositories@[0]@);
                let first = repository_parts(repositories[0]).unwrap();
                lemma_repository_parts(repositories[0], first.0, first.1);
                lemma_repository_parts(repository, namespace, name);
                assert(is_in_namespace(request.repositories@[0]@, first.0, first.1));
                assert(is_in_namespace(request.repositories@[i]@, namespace, name));
            },
        }
    } else if repositories.len() > 0 {
        assert forall|i: int| 0 <= i < faults.len() implies #[trigger] faults[i] is None by {
            lemma_no_fault(faults, i);
        }
        lemma_shared_namespace(request.repositories@, repositories.len() as int);
        let faults = permission_faults(permissions);
        lemma_where_the_fault_is(faults);
        let i = choose|i: int| #[trigger] is_first_fault(faults, i);
        assert(faults[i] == permission_fault(permissions, i));
        assert(permissions[i] == request.permissions@[i]@);
        let permission = permissions[i];
        match permission_parts(permission) {
            None => {
                assert forall|name: Seq<char>, level: Seq<char>| !is_of_level(
                    permission,
                    name,
                    level,
                ) by {
                    lemma_permission_parts(permission, name, level);
                }
                assert(request.permissions@[i]@ == permission);
            },
            Some((name, level)) => {
                let j = choose|j: int|
                    0 <= j < i && #[trigger] has_permission_name(permissions, j, name);
                assert(permissions[j] == request.permissions@[j]@);
                let earlier = permission_parts(permissions[j]).unwrap().1;
                lemma_permission_parts(permissions[j], name, earlier);
                lemma_permission_parts(permission, name, level);
                assert(is_of_level(request.permissions@[j]@, name, earlier));
                assert(is_of_level(request.permissions@[i]@, name, level));
            },
        }
    }
}

/// The first fault stands at `i`.
spec fn is_first_fault(faults: Seq<Option<RequestFault>>, i: int) -> bool {
    &&& 0 <= i < faults.len()
    &&& faults[i] is Some
    &&& first_fault(faults) == faults[i]
    &&& forall|j: int| 0 <= j < i ==> #[trigger] faults[j] is None
}

/// A first fault stands somewhere.
proof fn lemma_where_the_fault_is(faults: Seq<Option<RequestFault>>)
    requires
        first_fault(faults) is Some,
    ensures
        exists|i: int| #[trigger] is_first_fault(faults, i),
    decreases faults.len(),
{
    if faults[0] is Some {
        assert(is_first_fault(faults, 0));
    } else {
        let rest = faults.drop_first();
        lemma_where_the_fault_is(rest);
        let i = choose|i: int| #[trigger] is_first_fault(rest, i);
        assert(is_first_fault(faults, i + 1)) by {
            assert forall|j: int| 0 <= j < i + 1 implies #[trigger] faults[j] is None by {
                if j > 0 {
                    assert(rest[j - 1] is None);
                }
            }
        }
    }
}

/// Repositories without a fault share a namespace.
proof fn lemma_shared_namespace(repositories: Seq<String>, i: int)
    requires
        0 <= i <= repositories.len(),
        forall|j: int|
            0 <= j < i ==> #[trigger] repository_faults(texts(repositories))[j] is None,
    ensures
        share_a_namespace(repositories, i),
{
    let all = texts(repositories);
    let namespace = if i > 0 {
        repository_parts(all[0]).unwrap().0
    } else {
        ""@
    };
    assert forall|j: int| 0 <= j < i implies belongs_to(
        (#[trigger] repositories[j])@,
        namespace,
    ) by {
        assert(repository_faults(all)[j] is None);
        assert(repository_faults(all)[0] is None);
        assert(all[j] == repositories[j]@);
        let name = repository_parts(all[j]).unwrap().1;
        lemma_repository_parts(all[j], namespace, name);
        assert(is_in_namespace(repositories[j]@, namespace, name));
    }
    assert(all_belong_to(repositories, i, namespace));
}

/// The app is the one in the settings. Without one there is nothing to be wrong with; one whose key
/// cannot be had or is no RSA key is refused, and every other is taken.
pub proof fn apps_are_taken_from_the_settings(
    settings: &Settings,
    tokens: Result<GitHubTokens, GitHubTokenError>,
)
    requires
        call_ensures(GitHubTokens::new, (settings,), tokens),
    ensures
        settings.github is None ==> tokens is Ok,
        settings.github matches Some(github) ==> match github.private_key {
            Ok(pem) => {
                &&& tokens is Ok <==> is_rsa_pem(pem@)
                &&& tokens matches Err(error) ==> error is LoadPrivateKey
            },
            Err(fault) => tokens matches Err(GitHubTokenError::ResolveParam(f)) && f@ == fault@,
        },
{
}

/// Without an app in the settings there are no tokens, whatever is asked for.
pub proof fn tokens_need_an_app(
    settings: &Settings,
    tokens: GitHubTokens,
    request: &GitHubTokenRequest,
    now: u64,
    lookup: Result<InstallationLookup, GitHubTokenError>,
)
    requires
        settings.github is None,
        call_ensures(
            GitHubTokens::new,
            (settings,),
            Ok::<GitHubTokens, GitHubTokenError>(tokens),
        ),
        call_ensures(GitHubTokens::get, (&tokens, request, now), lookup),
    ensures
        lookup matches Err(GitHubTokenError::NoCredentials),
{
}

/// What the app says of itself at a time: who it is, that it said so ten seconds before, and that
/// it may be believed for five minutes.
pub open spec fn app_statement(client_id: Seq<char>, now: u64) -> Seq<(Seq<char>, ClaimModel)> {
    seq![
        ("iss"@, ClaimModel::String(client_id)),
        ("iat"@, ClaimModel::Number((now - 10) as i64)),
        ("exp"@, ClaimModel::Number((now + 300) as i64)),
    ]
}

/// With an app in the settings a request is refused for its own fault, or else the search for the
/// installation starts among the organizations, for what the request asks, with a token that the
/// app signed with its key and that says nothing but who the app is and for how long.
pub proof fn tokens_are_asked_for_in_the_name_of_the_app(
    settings: &Settings,
    tokens: GitHubTokens,
    request: &GitHubTokenRequest,
    parsed: Result<ParsedGitHubRequest, GitHubTokenError>,
    now: u64,
    lookup: Result<InstallationLookup, GitHubTokenError>,
    bearer: &str,
    url: String,
)
    requires
        settings.github is Some,
        settings.github->Some_0.private_key is Ok,
        call_ensures(
            GitHubTokens::new,
            (settings,),
            Ok::<GitHubTokens, GitHubTokenError>(tokens),
        ),
        call_ensures(ParsedGitHubRequest::parse, (request,), parsed),
        10 <= now <= i64::MAX - 300,
        call_ensures(GitHubTokens::get, (&tokens, request, now), lookup),
        lookup matches Ok(l) ==> call_ensures(InstallationLookup::bearer, (&l,), bearer),
        lookup matches Ok(l) ==> call_ensures(InstallationLookup::url, (&l,), url),
    ensures
        ({
            let github = settings.github->Some_0;
            let outcomes = signing_outcomes(
                "RS256"@,
                app_statement(github.client_id@, now),
                github.private_key->Ok_0@,
            );
            match parsed {
                Err(fault) => lookup matches Err(error) && match fault {
                    GitHubTokenError::NotAGitHubRepository(r) =>
                        error matches GitHubTokenError::NotAGitHubRepository(own) && own@ == r@,
                    GitHubTokenError::DifferentOrgs => error is DifferentOrgs,
                    GitHubTokenError::NoRepositories => error is NoRepositories,
                    GitHubTokenError::NotAPermission(p) =>
                        error matches GitHubTokenError::NotAPermission(own) && own@ == p@,
                    GitHubTokenError::DuplicatePermission(p) =>
                        error matches GitHubTokenError::DuplicatePermission(own) && own@ == p@,
                    _ => false,
                },
                Ok(p) => match lookup {
                    Ok(l) => {
                        &&& l@.request == p@
                        &&& url@ == "https://api.github.com/orgs/"@ + p@.namespace
                            + "/installation"@
                        &&& outcomes.contains(Some(bearer@))
                        &&& token_header(bearer@) == Some(
                            TokenHeaderModel { algorithm: "RS256"@, kid: None },
                        )
                        &&& token_payload(bearer@) == Some(
                            Map::empty().insert(
                                "iss"@,
                                RawClaimModel::Text(github.client_id@),
                            ).insert("iat"@, RawClaimModel::Number(Some((now - 10) as i64))).insert(
                                "exp"@,
                                RawClaimModel::Number(Some((now + 300) as i64)),
                            ),
                        )
                    },
                    Err(error) => error is EncodeJwt && outcomes.contains(None),
                },
            }
        }),
{
    let github = settings.github->Some_0;
    let app = tokens@.unwrap();
    assert(app_statement(github.client_id@, now) =~= app_claims(app.client_id, now));
    if let Ok(l) = lookup {
        app_tokens_speak_for_the_app(app, now, l@.app_token);
        reveal_strlit("https://api.github.com/");
        reveal_strlit("https://api.github.com/orgs/");
        reveal_strlit("orgs");
        reveal_strlit("/");
        assert("https://api.github.com/"@ + "orgs"@ + "/"@ =~= "https://api.github.com/orgs/"@);
        assert(url@ =~= "https://api.github.com/orgs/"@ + l@.request.namespace + "/installation"@);
    }
}

/// The URL is the one that issues tokens of the installation.
pub open spec fn issues_tokens_of(url: Seq<char>, installation: u64) -> bool {
    exists|digits: Seq<char>|
        {
            &&& #[trigger] is_decimal_of(digits, installation as int)
            &&& url == "https://api.github.com/app/installations/"@ + digits + "/access_tokens"@
        }
}

/// The response says that what was asked for does not exist.
pub open spec fn says_not_found<T>(response: Result<T, GitHubTokenError>) -> bool {
    response matches Err(GitHubTokenError::GitHubError(_, status, _)) && status@ == 404
}

/// The installation is looked up among the organizations, and then, whatever was found there, among
/// the users; a response other than that there is none ends the search. The token is asked of the
/// installation that was found last, for what the request asks, and where none was found the app is
/// not installed on the namespace.
pub proof fn installations_are_looked_up_everywhere(
    request: ParsedGitHubRequest,
    token: String,
    first: InstallationLookup,
    first_url: String,
    first_bearer: &str,
    organization: Result<u64, GitHubTokenError>,
    second: Result<GitHubStep, GitHubTokenError>,
    second_url: String,
    second_bearer: &str,
    user: Result<u64, GitHubTokenError>,
    last: Result<GitHubStep, GitHubTokenError>,
    last_url: String,
    bearer: &str,
    scope: &ParsedGitHubRequest,
)
    requires
        call_ensures(
            InstallationLookup::start,
            (request, Ok::<String, jsonwebtoken::errors::Error>(token)),
            Ok::<InstallationLookup, GitHubTokenError>(first),
        ),
        call_ensures(InstallationLookup::url, (&first,), first_url),
        call_ensures(InstallationLookup::bearer, (&first,), first_bearer),
        call_ensures(InstallationLookup::answer, (first, organization), second),
        second matches Ok(GitHubStep::Lookup(l)) ==> {
            &&& call_ensures(InstallationLookup::url, (&l,), second_url)
            &&& call_ensures(InstallationLookup::bearer, (&l,), second_bearer)
            &&& call_ensures(InstallationLookup::answer, (l, user), last)
        },
        last matches Ok(GitHubStep::AccessToken(r)) ==> {
            &&& call_ensures(AccessTokenRequest::url, (&r,), last_url)
            &&& call_ensures(AccessTokenRequest::bearer, (&r,), bearer)
            &&& call_ensures(AccessTokenRequest::scope, (&r,), scope)
        },
    ensures
        first_url@ == "https://api.github.com/orgs/"@ + request@.namespace + "/installation"@,
        first_bearer@ == token@,
        organization is Err && !says_not_found(organization) ==> second is Err && second->Err_0
            == organization->Err_0,
        organization is Ok || says_not_found(organization) ==> {
            &&& second matches Ok(GitHubStep::Lookup(_))
            &&& second_bearer@ == token@
            &&& second_url@ == "https://api.github.com/users/"@ + request@.namespace
                + "/installation"@
            &&& user is Err && !says_not_found(user) ==> last is Err && last->Err_0
                == user->Err_0
            &&& says_not_found(user) && says_not_found(organization) ==> {
                last matches Err(GitHubTokenError::AppNotInstalled(namespace)) && namespace@
                    == request@.namespace
            }
            &&& user is Ok || (says_not_found(user) && organization is Ok) ==> {
                &&& last matches Ok(GitHubStep::AccessToken(_))
                &&& scope@ == request@
                &&& bearer@ == token@
                &&& user is Ok ==> issues_tokens_of(last_url@, user->Ok_0)
                &&& user is Err ==> issues_tokens_of(last_url@, organization->Ok_0)
            }
        },
{
    reveal_strlit("https://api.github.com/");
    reveal_strlit("https://api.github.com/orgs/");
    reveal_strlit("https://api.github.com/users/");
    reveal_strlit("orgs");
    reveal_strlit("users");
    reveal_strlit("/");
    assert("https://api.github.com/"@ + "orgs"@ + "/"@ =~= "https://api.github.com/orgs/"@);
    assert("https://api.github.com/"@ + "users"@ + "/"@ =~= "https://api.github.com/users/"@);
    if let Ok(GitHubStep::AccessToken(r)) = last {
        lemma_decimal(r@.installation as nat);
        assert(is_decimal_of(decimal(r@.installation as nat), r@.installation as int));
    }
}

/// A search starts only with a signed token.
pub proof fn searches_need_a_signed_token(
    request: ParsedGitHubRequest,
    signed: Result<String, jsonwebtoken::errors::Error>,
    lookup: Result<InstallationLookup, GitHubTokenError>,
)
    requires
        call_ensures(InstallationLookup::start, (request, signed), lookup),
    ensures
        lookup is Ok <==> signed is Ok,
        signed matches Err(reason) ==> lookup == Err::<InstallationLookup, GitHubTokenError>(
            GitHubTokenError::EncodeJwt(reason),
        ),
{
}

/// The token that is issued is the one that GitHub made, and a failure of GitHub is told as it
/// came.
pub proof fn issued_tokens_are_the_ones_that_were_made(
    request: AccessTokenRequest,
    response: Result<String, GitHubTokenError>,
    token: Result<Token, GitHubTokenError>,
)
    requires
        call_ensures(AccessTokenRequest::answer, (request, response), token),
    ensures
        token is Ok <==> response is Ok,
        token is Ok ==> token->Ok_0.access_token == response->Ok_0,
        token is Err ==> token->Err_0 == response->Err_0,
{
}

/// A response counts by its status: what a success holds is handed on, and a failure is told with
/// the URL, the status, and the message in the body, or the body where it holds none.
pub proof fn responses_count_by_their_status<T>(
    reply: Reply<T>,
    outcome: Result<T, GitHubTokenError>,
)
    requires
        call_ensures(github_request::<T>, (reply,), outcome),
    ensures
        outcome is Ok <==> reply matches Reply::Success(Ok(_)),
        reply matches Reply::Success(Ok(value)) ==> outcome->Ok_0 == value,
        reply matches Reply::Failure { url, status, body: Ok(body) } ==> {
            &&& outcome matches Err(GitHubTokenError::GitHubError(own_url, own_status, text))
            &&& own_url == url
            &&& own_status == status
            &&& body.message is Some ==> text == body.message->Some_0
            &&& body.message is None ==> text == body.text
        },
        outcome matches Err(GitHubTokenError::Http(fault)) ==> {
            ||| reply == Reply::<T>::Unanswered(fault)
            ||| reply == Reply::<T>::Success(Err(fault))
            ||| (reply matches Reply::Failure { body: Err(own), .. } && own == fault)
        },
        outcome matches Err(error) ==> error is Http || error is GitHubError,
{
}

/// The visibility of a repository is read with a token for that repository alone, which may read
/// its metadata and nothing else.
pub proof fn visibilities_are_read_with_little(
    tokens: GitHubTokens,
    repository: &str,
    namespace: Seq<char>,
    name: Seq<char>,
    now: u64,
    lookup: Result<InstallationLookup, GitHubTokenError>,
)
    requires
        call_ensures(GitHubTokens::repository_visibility, (&tokens, repository, now), lookup),
        is_in_namespace(repository@, namespace, name),
    ensures
        lookup matches Ok(l) ==> {
            &&& l@.request.namespace == namespace
            &&& l@.request.repository_names == seq![name]
            &&& l@.request.permissions == Map::empty().insert("metadata"@, "read"@)
            &&& l@.account == Account::Organization
            &&& l@.found is None
        },
        lookup matches Err(error) ==> error is NoCredentials || error is EncodeJwt,
        exists|request: GitHubTokenRequest|
            {
                &&& request.repositories@.len() == 1
                &&& request.repositories@[0]@ == repository@
                &&& request.permissions@.len() == 1
                &&& request.permissions@[0]@ == "metadata:read"@
                &&& #[trigger] call_ensures(GitHubTokens::get, (&tokens, &request, now), lookup)
            },
{
    lemma_metadata_request(repository@, namespace, name);
    let request = choose|request: GitHubTokenRequest|
        {
            &&& texts(request.repositories@) == seq![repository@]
            &&& texts(request.permissions@) == seq!["metadata:read"@]
            &&& #[trigger] call_ensures(GitHubTokens::get, (&tokens, &request, now), lookup)
        };
    assert(texts(request.repositories@).len() == 1);
    assert(texts(request.permissions@).len() == 1);
    assert(texts(request.repositories@)[0] == request.repositories@[0]@);
    assert(texts(request.permissions@)[0] == request.permissions@[0]@);
}

/// The request for the metadata of a repository is in order and asks for nothing else.
proof fn lemma_metadata_request(
    repository: Seq<char>,
    namespace: Seq<char>,
    name: Seq<char>,
)
    requires
        is_in_namespace(repository, namespace, name),
    ensures
        request_fault(seq![repository], seq!["metadata:read"@]) is None,
        ({
            let parts = request_parts(seq![repository], seq!["metadata:read"@]);
            &&& parts.namespace == namespace
            &&& parts.repository_names == seq![name]
            &&& parts.permissions == Map::empty().insert("metadata"@, "read"@)
        }),
{
    let repositories = seq![repository];
    let permissions = seq!["metadata:read"@];
    lemma_repository_parts(repository, namespace, name);
    lemma_first_fault(repository_faults(repositories), 1);
    reveal_strlit("metadata:read");
    reveal_strlit("metadata");
    reveal_strlit("read");
    assert("metadata:read"@ =~= "metadata"@ + seq![':'] + "read"@);
    assert(is_of_level("metadata:read"@, "metadata"@, "read"@)) by {
        assert forall|i: int| 0 <= i < "metadata"@.len() implies "metadata"@[i] != ':'
            && "metadata"@[i] != '/' by {}
    }
    lemma_permission_parts("metadata:read"@, "metadata"@, "read"@);
    lemma_first_fault(permission_faults(permissions), 1);
    assert(permissions.drop_last() =~= Seq::empty());
    reveal_with_fuel(permission_levels, 2);
    assert(request_parts(repositories, permissions).repository_names =~= seq![name]);
}

/// A repository is described under its own name, to whoever holds the token.
pub proof fn repositories_are_described_under_their_name(
    repository: &str,
    token: Token,
    request: RepositoryRequest,
)
    requires
        call_ensures(RepositoryRequest::new, (repository, token), request),
    ensures
        request.url@ == "https://api.github.com/repos/"@ + repository@,
        request.bearer == token.access_token,
{
}

/// Errors that tell of the inside of the service are not to be exposed; all others are.
pub proof fn inner_errors_are_not_exposed(error: &GitHubTokenError, safe: bool)
    requires
        call_ensures(GitHubTokenError::safe_to_expose, (error,), safe),
    ensures
        !safe <==> {
            ||| *error is ResolveParam
            ||| *error is LoadPrivateKey
            ||| *error is EncodeJwt
            ||| *error is Http
        },
{
}

/// A message names what is at fault, as it came, and of the inside nothing but its kind.
pub proof fn messages_name_what_is_at_fault(error: &GitHubTokenError, text: String)
    requires
        call_ensures(GitHubTokenError::message, (error,), text),
    ensures
        match *error {
            GitHubTokenError::NotAGitHubRepository(repository) => text@ == "Repository name "@
                + repository@ + " is not in the `org/name` format"@,
            GitHubTokenError::NotAPermission(permission) => text@ == "The permission string "@
                + permission@ + " is not a valid permission"@,
            GitHubTokenError::DuplicatePermission(name) => text@ == "The permission "@ + name@
                + " is requested multiple times"@,
            GitHubTokenError::AppNotInstalled(namespace) => text@
                == "oidcx's GitHub App is not installed on "@ + namespace@,
            GitHubTokenError::GitHubError(url, status, said) => text@ == "Request to "@ + url@
                + " failed with status "@ + status_text(status@) + ": "@ + said@,
            GitHubTokenError::NoCredentials => text@
                == "GitHub credentials are not configured for this instance of oidcx"@,
            GitHubTokenError::DifferentOrgs => text@
                == "The repositories requested for this token belong to different organizations"@,
            GitHubTokenError::NoRepositories => text@
                == "The requested token asked for access to no repositories"@,
            GitHubTokenError::ResolveParam(_) => text@
                == "Failed to resolve the GitHub App private key"@,
            GitHubTokenError::LoadPrivateKey(_) => text@
                == "Failed to load the GitHub App private key"@,
            GitHubTokenError::EncodeJwt(_) => text@ == "Failed to encode the JWT"@,
            GitHubTokenError::Http(_) => text@ == "HTTP error"@,
        },
{
}

/// Of an error that is not to be exposed the message tells nothing but its kind.
pub proof fn messages_hide_the_inside(
    error: &GitHubTokenError,
    other: &GitHubTokenError,
    safe: bool,
    text: String,
    other_text: String,
)
    requires
        call_ensures(GitHubTokenError::safe_to_expose, (error,), safe),
        call_ensures(GitHubTokenError::message, (error,), text),
        call_ensures(GitHubTokenError::message, (other,), other_text),
        !safe,
        *error is ResolveParam <==> *other is ResolveParam,
        *error is LoadPrivateKey <==> *other is LoadPrivateKey,
        *error is EncodeJwt <==> *other is EncodeJwt,
        *error is Http <==> *other is Http,
    ensures
        text@ == other_text@,
{
}

/// The visibility of what is no namespace and name is not read: with an app it is refused for that.
pub proof fn visibilities_are_read_of_repositories(
    tokens: GitHubTokens,
    repository: &str,
    now: u64,
    lookup: Result<InstallationLookup, GitHubTokenError>,
)
    requires
        call_ensures(GitHubTokens::repository_visibility, (&tokens, repository, now), lookup),
        forall|namespace: Seq<char>, name: Seq<char>|
            !is_in_namespace(repository@, namespace, name),
    ensures
        tokens@ is None ==> lookup matches Err(GitHubTokenError::NoCredentials),
        tokens@ is Some ==> (lookup matches Err(GitHubTokenError::NotAGitHubRepository(own)) && own@
            == repository@),
{
    let repositories = seq![repository@];
    if let Some((namespace, name)) = repository_parts(repository@) {
        lemma_repository_parts(repository@, namespace, name);
    }
    lemma_first_fault(repository_faults(repositories), 0);
}

/// What a request in which nothing is wrong is taken apart into holds each of its repositories and
/// each of its permissions.
pub proof fn lemma_parts_are_complete(request: GitHubTokenRequest)
    requires
        request_fault(texts(request.repositories@), texts(request.permissions@)) is None,
    ensures
        ({
            let parts = request_parts(texts(request.repositories@), texts(request.permissions@));
            &&& parts.repository_names.len() == request.repositories@.len()
            &&& forall|i: int|
                0 <= i < request.repositories@.len() ==> is_in_namespace(
                    #[trigger] request.repositories@[i]@,
                    parts.namespace,
                    parts.repository_names[i],
                )
            &&& forall|j: int|
                0 <= j < request.permissions@.len() ==> has_level(
                    parts.permissions,
                    #[trigger] request.permissions@[j]@,
                )
        }),
{
    let repositories = texts(request.repositories@);
    let permissions = texts(request.permissions@);
    let parts = request_parts(repositories, permissions);
    assert forall|i: int| 0 <= i < request.repositories@.len() implies is_in_namespace(
        #[trigger] request.repositories@[i]@,
        parts.namespace,
        parts.repository_names[i],
    ) by {
        assert(repositories[i] == request.repositories@[i]@);
        lemma_no_fault(repository_faults(repositories), i);
        lemma_no_fault(repository_faults(repositories), 0);
        lemma_repository_parts(repositories[i], parts.namespace, parts.repository_names[i]);
    }
    assert forall|j: int| 0 <= j < request.permissions@.len() implies has_level(
        parts.permissions,
        #[trigger] request.permissions@[j]@,
    ) by {
        assert(permissions[j] == request.permissions@[j]@);
        parsed_permissions_hold_the_requested(repositories, permissions, j);
        let own = permission_parts(permissions[j]).unwrap();
        lemma_permission_parts(permissions[j], own.0, own.1);
        assert(is_of_level(permissions[j], own.0, parts.permissions[own.0]));
    }
}

/// The permission is among those of the levels, with its own level.
pub open spec fn has_level(levels: Map<Seq<char>, Seq<char>>, permission: Seq<char>) -> bool {
    exists|name: Seq<char>|
        {
            &&& #[trigger] levels.contains_key(name)
            &&& is_of_level(permission, name, levels[name])
        }
}

/// Any request can be taken apart, and any token asked for while the clock leaves room for the
/// times in the app's own token.
pub proof fn any_token_can_be_asked_for(
    request: &GitHubTokenRequest,
    tokens: &GitHubTokens,
    repository: &str,
    now: u64,
)
    requires
        10 <= now <= i64::MAX - 300,
    ensures
        call_requires(ParsedGitHubRequest::parse, (request,)),
        call_requires(GitHubTokens::get, (tokens, request, now)),
        call_requires(GitHubTokens::repository_visibility, (tokens, repository, now)),
{
}

} // verus!
