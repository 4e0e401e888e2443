//! A memory of who can see a repository.

use crate::string_map::StringMap;
use crate::token::github::{is_usable_time, GitHubTokenError, GitHubTokens, InstallationLookup};
use vstd::prelude::*;

verus! {

/// A point in time: seconds since 1970, and nanoseconds within the second.
#[derive(Clone, Copy, Debug, PartialEq, Eq, Structural)]
pub struct Timestamp {
    pub seconds: i64,
    pub nanos: u32,
}

/// How long a visibility is remembered.
pub const REMEMBERED_SECONDS: i64 = 3600;

impl Timestamp {
    /// `self` is not before `other`.
    pub open spec fn is_not_before(self, other: Timestamp) -> bool {
        self.seconds > other.seconds || (self.seconds == other.seconds && self.nanos
            >= other.nanos)
    }

    /// The last point in time at which what is learned at `self` is remembered.
    pub open spec fn spec_expiry(self) -> Timestamp {
        Timestamp { seconds: (self.seconds + REMEMBERED_SECONDS) as i64, nanos: self.nanos }
    }

    /// The clock is not about to run out.
    pub open spec fn leaves_room(self) -> bool {
        self.seconds <= i64::MAX - REMEMBERED_SECONDS
    }

    /// Whether `self` is not before `other`.
    fn not_before(&self, other: &Timestamp) -> (later: bool)
        ensures
            later == self.is_not_before(*other),
    {
        self.seconds > other.seconds || (self.seconds == other.seconds && self.nanos
            >= other.nanos)
    }

    /// The last point in time at which what is learned at `self` is remembered.
    fn expiry(&self) -> (expiry: Timestamp)
        requires
            self.leaves_room(),
        ensures
            expiry == self.spec_expiry(),
    {
        Timestamp { seconds: self.seconds + REMEMBERED_SECONDS, nanos: self.nanos }
    }
}

/// A remembered visibility.
#[derive(Debug)]
struct CachedVisibility {
    visibility: String,
    expires_at: Timestamp,
}

/// A remembered visibility.
pub struct CachedModel {
    pub visibility: Seq<char>,
    pub expires_at: Timestamp,
}

/// The visibilities that are remembered, by repository.
#[derive(Debug)]
pub struct VisibilityCache {
    entries: StringMap<CachedVisibility>,
}

impl View for VisibilityCache {
    type V = Map<Seq<char>, CachedModel>;

    closed spec fn view(&self) -> Map<Seq<char>, CachedModel> {
        self.entries@.map_values(
            |cached: CachedVisibility|
                CachedModel { visibility: cached.visibility@, expires_at: cached.expires_at },
        )
    }
}

/// The visibility that is remembered of a repository.
pub open spec fn remembered(
    cache: Map<Seq<char>, CachedModel>,
    repository: Seq<char>,
    now: Timestamp,
) -> Option<Seq<char>> {
    if cache.contains_key(repository) && cache[repository].expires_at.is_not_before(now) {
        Some(cache[repository].visibility)
    } else {
        None
    }
}

/// What is remembered once a visibility has been learned.
pub open spec fn learned(
    cache: Map<Seq<char>, CachedModel>,
    repository: Seq<char>,
    visibility: Seq<char>,
    now: Timestamp,
) -> Map<Seq<char>, CachedModel> {
    cache.insert(repository, CachedModel { visibility, expires_at: now.spec_expiry() })
}

impl VisibilityCache {
    /// Nothing is remembered.
    pub fn new() -> (cache: VisibilityCache)
        ensures
            cache@ == Map::<Seq<char>, CachedModel>::empty(),
    {
        let cache = VisibilityCache { entries: StringMap::new() };
        assert(cache@ =~= Map::<Seq<char>, CachedModel>::empty());
        cache
    }

    /// The visibility that is remembered of a repository.
    pub fn get(&self, repository: &str, now: Timestamp) -> (visibility: Option<&str>)
        ensures
            match visibility {
                Some(v) => remembered(self@, repository@, now) == Some(v@),
                None => remembered(self@, repository@, now) is None,
            },
    {
        match self.entries.get(repository) {
            Some(cached) => if cached.expires_at.not_before(&now) {
                Some(cached.visibility.as_str())
            } else {
                None
            },
            None => None,
        }
    }

    /// Remembers a visibility that has just been learned.
    pub fn insert(&mut self, repository: &str, visibility: &str, now: Timestamp)
        requires
            now.leaves_room(),
        ensures
            final(self)@ == learned(old(self)@, repository@, visibility@, now),
    {
        let ghost before = self@;
        let cached = CachedVisibility {
            visibility: visibility.to_owned(),
            expires_at: now.expiry(),
        };
        self.entries.insert(repository.to_owned(), cached);
        assert(self@ =~= learned(before, repository@, visibility@, now));
    }
}

/// How the visibility of a repository is found.
#[derive(Debug)]
pub enum VisibilityStep {
    /// It is remembered.
    Known(String),
    /// GitHub is asked, with a token of its own.
    Ask(InstallationLookup),
    /// GitHub cannot be asked.
    Failed(GitHubTokenError),
}

impl VisibilityCache {
    /// Finds the visibility of a repository. GitHub, whose clock counts `seconds`, is asked only
    /// for what is not remembered.
    pub fn find(
        &self,
        tokens: &GitHubTokens,
        repository: &str,
        now: Timestamp,
        seconds: u64,
    ) -> (step: VisibilityStep)
        requires
            is_usable_time(seconds),
        ensures
            match remembered(self@, repository@, now) {
                Some(visibility) => step matches VisibilityStep::Known(v) && v@ == visibility,
                None => match step {
                    VisibilityStep::Known(_) => false,
                    VisibilityStep::Ask(lookup) => {
                        &&& tokens.asks(
                            seq![repository@],
                            seq!["metadata:read"@],
                            seconds,
                            Ok::<InstallationLookup, GitHubTokenError>(lookup),
                        )
                        &&& call_ensures(
                            GitHubTokens::repository_visibility,
                            (tokens, repository, seconds),
                            Ok::<InstallationLookup, GitHubTokenError>(lookup),
                        )
                    },
                    VisibilityStep::Failed(error) => {
                        &&& tokens.asks(
                            seq![repository@],
                            seq!["metadata:read"@],
                            seconds,
                            Err::<InstallationLookup, GitHubTokenError>(error),
                        )
                        &&& call_ensures(
                            GitHubTokens::repository_visibility,
                            (tokens, repository, seconds),
                            Err::<InstallationLookup, GitHubTokenError>(error),
                        )
                    },
                },
            },
    {
        match self.get(repository, now) {
            Some(visibility) => {
                return VisibilityStep::Known(visibility.to_owned());
            },
            None => {},
        }
        match tokens.repository_visibility(repository, seconds) {
            Ok(lookup) => VisibilityStep::Ask(lookup),
            Err(error) => VisibilityStep::Failed(error),
        }
    }

    /// Remembers a visibility that GitHub was asked for. Where GitHub did not tell it, all stays as
    /// it was.
    pub fn learn(
        &mut self,
        repository: &str,
        answer: Result<String, GitHubTokenError>,
        now: Timestamp,
    ) -> (visibility: Result<String, GitHubTokenError>)
        requires
            now.leaves_room(),
        ensures
            visibility == answer,
            match answer {
                Ok(v) => final(self)@ == learned(old(self)@, repository@, v@, now),
                Err(_) => *final(self) == *old(self),
            },
    {
        match answer {
            Ok(visibility) => {
                self.insert(repository, visibility.as_str(), now);
                Ok(visibility)
            },
            Err(error) => Err(error),
        }
    }
}

/// A visibility is remembered for an hour after it was learned, and not longer.
pub proof fn visibility_is_remembered_for_an_hour(
    cache: Map<Seq<char>, CachedModel>,
    repository: Seq<char>,
    visibility: Seq<char>,
    learned_at: Timestamp,
    now: Timestamp,
)
    requires
        learned_at.leaves_room(),
    ensures
        remembered(learned(cache, repository, visibility, learned_at), repository, now)
            == if learned_at.spec_expiry().is_not_before(now) {
            Some(visibility)
        } else {
            None
        },
{
}

/// What is learned of one repository changes nothing of another.
pub proof fn other_repositories_are_not_affected(
    cache: Map<Seq<char>, CachedModel>,
    repository: Seq<char>,
    visibility: Seq<char>,
    learned_at: Timestamp,
    other: Seq<char>,
    now: Timestamp,
)
    requires
        other != repository,
    ensures
        remembered(learned(cache, repository, visibility, learned_at), other, now) == remembered(
            cache,
            other,
            now,
        ),
{
}

/// What is remembered of a repository is the visibility that was learned, up to one hour later to
/// the nanosecond, and what is remembered of other repositories stays as it was.
pub proof fn learned_visibilities_expire_after_an_hour(
    cache: &mut VisibilityCache,
    repository: &str,
    visibility: &str,
    learned_at: Timestamp,
    asked: &str,
    now: Timestamp,
    before: Option<&str>,
    after: Option<&str>,
)
    requires
        learned_at.seconds <= i64::MAX - 3600,
        call_ensures(VisibilityCache::insert, (cache, repository, visibility, learned_at), ()),
        call_ensures(VisibilityCache::get, (old(cache), asked, now), before),
        call_ensures(VisibilityCache::get, (final(cache), asked, now), after),
    ensures
        asked@ == repository@ ==> {
            &&& after is Some <==> {
                ||| now.seconds < learned_at.seconds + 3600
                ||| now.seconds == learned_at.seconds + 3600 && now.nanos <= learned_at.nanos
            }
            &&& after is Some ==> after->Some_0@ == visibility@
        },
        asked@ != repository@ ==> {
            &&& after is Some <==> before is Some
            &&& after is Some ==> after->Some_0@ == before->Some_0@
        },
{
}

/// What GitHub tells of a repository is handed on as it came. A visibility is also remembered, as
/// one that has just been learned; a failure changes nothing.
pub proof fn answers_are_remembered(
    cache: &mut VisibilityCache,
    repository: &str,
    answer: Result<String, GitHubTokenError>,
    learned_at: Timestamp,
    told: Result<String, GitHubTokenError>,
    asked: &str,
    now: Timestamp,
    before: Option<&str>,
    after: Option<&str>,
)
    requires
        learned_at.seconds <= i64::MAX - 3600,
        call_ensures(VisibilityCache::learn, (cache, repository, answer, learned_at), told),
        call_ensures(VisibilityCache::get, (old(cache), asked, now), before),
        call_ensures(VisibilityCache::get, (final(cache), asked, now), after),
    ensures
        told == answer,
        answer is Ok && asked@ == repository@ ==> {
            &&& after is Some <==> {
                ||| now.seconds < learned_at.seconds + 3600
                ||| now.seconds == learned_at.seconds + 3600 && now.nanos <= learned_at.nanos
            }
            &&& after is Some ==> after->Some_0@ == answer->Ok_0@
        },
        answer is Err || asked@ != repository@ ==> {
            &&& after is Some <==> before is Some
            &&& after is Some ==> after->Some_0@ == before->Some_0@
        },
{
}

/// What is remembered of a repository is known until it expires, that moment included.
pub proof fn visibilities_are_known_until_they_expire(
    cache: &VisibilityCache,
    repository: &str,
    now: Timestamp,
    known: Option<&str>,
)
    requires
        call_ensures(VisibilityCache::get, (cache, repository, now), known),
    ensures
        known is Some <==> {
            &&& cache@.contains_key(repository@)
            &&& {
                ||| now.seconds < cache@[repository@].expires_at.seconds
                ||| now.seconds == cache@[repository@].expires_at.seconds && now.nanos
                    <= cache@[repository@].expires_at.nanos
            }
        },
        known matches Some(k) ==> k@ == cache@[repository@].visibility,
{
}

/// Nothing is remembered at first.
pub proof fn nothing_is_known_at_first(
    cache: VisibilityCache,
    repository: &str,
    now: Timestamp,
    known: Option<&str>,
)
    requires
        call_ensures(VisibilityCache::new, (), cache),
        call_ensures(VisibilityCache::get, (&cache, repository, now), known),
    ensures
        known is None,
{
}

/// GitHub is asked exactly for what is not remembered, and it is asked for the visibility of that
/// very repository.
pub proof fn github_is_asked_for_what_is_not_known(
    cache: &VisibilityCache,
    tokens: &GitHubTokens,
    repository: &str,
    now: Timestamp,
    seconds: u64,
    known: Option<&str>,
    step: VisibilityStep,
)
    requires
        call_ensures(VisibilityCache::get, (cache, repository, now), known),
        call_ensures(VisibilityCache::find, (cache, tokens, repository, now, seconds), step),
    ensures
        step is Known <==> known is Some,
        step matches VisibilityStep::Known(text) ==> text@ == known->Some_0@,
        step matches VisibilityStep::Ask(lookup) ==> call_ensures(
            GitHubTokens::repository_visibility,
            (tokens, repository, seconds),
            Ok::<InstallationLookup, GitHubTokenError>(lookup),
        ),
        step matches VisibilityStep::Failed(error) ==> call_ensures(
            GitHubTokens::repository_visibility,
            (tokens, repository, seconds),
            Err::<InstallationLookup, GitHubTokenError>(error),
        ),
{
}

/// Anything can be asked of the memory, and anything learned up to an hour before the clock runs
/// out.
pub proof fn any_visibility_can_be_asked_for(
    cache: &VisibilityCache,
    learning: &mut VisibilityCache,
    tokens: &GitHubTokens,
    repository: &str,
    answer: Result<String, GitHubTokenError>,
    now: Timestamp,
    seconds: u64,
)
    requires
        now.seconds <= i64::MAX - 3600,
        10 <= seconds <= i64::MAX - 300,
    ensures
        call_requires(VisibilityCache::get, (cache, repository, now)),
        call_requires(VisibilityCache::find, (cache, tokens, repository, now, seconds)),
        call_requires(VisibilityCache::learn, (learning, repository, answer, now)),
{
}

} // verus!
