use vstd::prelude::*;
use crate::anilist::anilist_user::AnilistUser;
use crate::commands::gambling::GamblingStats;
use crate::tuforums::clear_info::Judgements;
use crate::tuforums::profile::{Profile, Rank};

verus! {

/// The tag of a cached value: which domain type it holds.
#[derive(Debug, Clone, Copy, PartialEq, Eq, Structural)]
pub enum ValueKind {
    Profile,
    GamblingStats,
    AnilistUser,
    Rank,
    Judgements,
    Count,
}

/// A cached value: exactly one of the domain types the cache accepts.
#[derive(Debug, PartialEq, Eq)]
pub enum CacheValue {
    Profile(Profile),
    GamblingStats(GamblingStats),
    AnilistUser(AnilistUser),
    Rank(Rank),
    Judgements(Judgements),
    Count(u64),
}

impl Clone for CacheValue {
    fn clone(&self) -> (copy: Self)
        ensures
            copy == *self,
    {
        match self {
            CacheValue::Profile(profile) => CacheValue::Profile(profile.clone()),
            CacheValue::GamblingStats(stats) => CacheValue::GamblingStats(stats.clone()),
            CacheValue::AnilistUser(user) => CacheValue::AnilistUser(user.clone()),
            CacheValue::Rank(rank) => CacheValue::Rank(*rank),
            CacheValue::Judgements(judgements) => CacheValue::Judgements(*judgements),
            CacheValue::Count(count) => CacheValue::Count(*count),
        }
    }
}

impl CacheValue {
    /// Which domain type this value holds.
    pub open spec fn spec_kind(&self) -> ValueKind {
        match *self {
            CacheValue::Profile(_) => ValueKind::Profile,
            CacheValue::GamblingStats(_) => ValueKind::GamblingStats,
            CacheValue::AnilistUser(_) => ValueKind::AnilistUser,
            CacheValue::Rank(_) => ValueKind::Rank,
            CacheValue::Judgements(_) => ValueKind::Judgements,
            CacheValue::Count(_) => ValueKind::Count,
        }
    }

    /// Which domain type this value holds.
    #[verifier::when_used_as_spec(spec_kind)]
    pub fn kind(&self) -> (k: ValueKind)
        ensures
            k == self.spec_kind(),
    {
        match self {
            CacheValue::Profile(_) => ValueKind::Profile,
            CacheValue::GamblingStats(_) => ValueKind::GamblingStats,
            CacheValue::AnilistUser(_) => ValueKind::AnilistUser,
            CacheValue::Rank(_) => ValueKind::Rank,
            CacheValue::Judgements(_) => ValueKind::Judgements,
            CacheValue::Count(_) => ValueKind::Count,
        }
    }
}

/// A domain type that the cache can hold.
///
/// `wrapped` puts a value under its tag and `unwrapped` takes it out again;
/// the three laws say that the two are inverse to each other and that the tag
/// alone decides whether `unwrapped` finds a value.
pub trait Cacheable: Sized {
    /// The tag under which values of this type are stored.
    spec fn tag() -> ValueKind;

    /// This value as a cached value.
    spec fn wrapped(self) -> CacheValue;

    /// The value of this type that a cached value holds, if it holds one.
    spec fn unwrapped(v: CacheValue) -> Option<Self>;

    /// A wrapped value carries this type's tag and unwraps to itself.
    proof fn lemma_wrap_unwrap(x: Self)
        ensures
            x.wrapped().spec_kind() == Self::tag(),
            Self::unwrapped(x.wrapped()) == Some(x),
    ;

    /// A cached value unwraps exactly when it carries this type's tag, and
    /// what comes out wraps back to it.
    proof fn lemma_unwrap_wrap(v: CacheValue)
        ensures
            Self::unwrapped(v) is Some <==> v.spec_kind() == Self::tag(),
            Self::unwrapped(v) is Some ==> Self::unwrapped(v)->0.wrapped() == v,
    ;

    /// Puts the value under its tag.
    fn into_cache_value(self) -> (v: CacheValue)
        ensures
            v == self.wrapped(),
    ;

    /// Borrows the value of this type out of a cached value.
    fn peek(v: &CacheValue) -> (r: Option<&Self>)
        ensures
            match r {
                Some(x) => Self::unwrapped(*v) == Some(*x),
                None => Self::unwrapped(*v) is None,
            },
    ;

    /// Takes the value of this type out of a cached value.
    fn take(v: CacheValue) -> (r: Option<Self>)
        ensures
            r == Self::unwrapped(v),
    ;
}

/// No two of the cacheable types share a tag.
pub proof fn lemma_tags_differ()
    ensures
        <Profile as Cacheable>::tag() != <GamblingStats as Cacheable>::tag(),
        <Profile as Cacheable>::tag() != <AnilistUser as Cacheable>::tag(),
        <Profile as Cacheable>::tag() != <Rank as Cacheable>::tag(),
        <Profile as Cacheable>::tag() != <Judgements as Cacheable>::tag(),
        <Profile as Cacheable>::tag() != <u64 as Cacheable>::tag(),
        <GamblingStats as Cacheable>::tag() != <AnilistUser as Cacheable>::tag(),
        <GamblingStats as Cacheable>::tag() != <Rank as Cacheable>::tag(),
        <GamblingStats as Cacheable>::tag() != <Judgements as Cacheable>::tag(),
        <GamblingStats as Cacheable>::tag() != <u64 as Cacheable>::tag(),
        <AnilistUser as Cacheable>::tag() != <Rank as Cacheable>::tag(),
        <AnilistUser as Cacheable>::tag() != <Judgements as Cacheable>::tag(),
        <AnilistUser as Cacheable>::tag() != <u64 as Cacheable>::tag(),
        <Rank as Cacheable>::tag() != <Judgements as Cacheable>::tag(),
        <Rank as Cacheable>::tag() != <u64 as Cacheable>::tag(),
        <Judgements as Cacheable>::tag() != <u64 as Cacheable>::tag(),
{
}

impl Cacheable for Profile {
    open spec fn tag() -> ValueKind {
        ValueKind::Profile
    }

    open spec fn wrapped(self) -> CacheValue {
        CacheValue::Profile(self)
    }

    open spec fn unwrapped(v: CacheValue) -> Option<Self> {
        match v {
            CacheValue::Profile(x) => Some(x),
            _ => None,
        }
    }

    proof fn lemma_wrap_unwrap(x: Self) {
    }

    proof fn lemma_unwrap_wrap(v: CacheValue) {
    }

    fn into_cache_value(self) -> (v: CacheValue) {
        CacheValue::Profile(self)
    }

    fn peek(v: &CacheValue) -> (r: Option<&Self>) {
        match v {
            CacheValue::Profile(x) => Some(x),
            _ => None,
        }
    }

    fn take(v: CacheValue) -> (r: Option<Self>) {
        match v {
            CacheValue::Profile(x) => Some(x),
            _ => None,
        }
    }
}

impl Cacheable for GamblingStats {
    open spec fn tag() -> ValueKind {
        ValueKind::GamblingStats
    }

    open spec fn wrapped(self) -> CacheValue {
        CacheValue::GamblingStats(self)
    }

    open spec fn unwrapped(v: CacheValue) -> Option<Self> {
        match v {
            CacheValue::GamblingStats(x) => Some(x),
            _ => None,
        }
    }

    proof fn lemma_wrap_unwrap(x: Self) {
    }

    proof fn lemma_unwrap_wrap(v: CacheValue) {
    }

    fn into_cache_value(self) -> (v: CacheValue) {
        CacheValue::GamblingStats(self)
    }

    fn peek(v: &CacheValue) -> (r: Option<&Self>) {
        match v {
            CacheValue::GamblingStats(x) => Some(x),
            _ => None,
        }
    }

    fn take(v: CacheValue) -> (r: Option<Self>) {
        match v {
            CacheValue::GamblingStats(x) => Some(x),
            _ => None,
        }
    }
}

impl Cacheable for AnilistUser {
    open spec fn tag() -> ValueKind {
        ValueKind::AnilistUser
    }

    open spec fn wrapped(self) -> CacheValue {
        CacheValue::AnilistUser(self)
    }

    open spec fn unwrapped(v: CacheValue) -> Option<Self> {
        match v {
            CacheValue::AnilistUser(x) => Some(x),
            _ => None,
        }
    }

    proof fn lemma_wrap_unwrap(x: Self) {
    }

    proof fn lemma_unwrap_wrap(v: CacheValue) {
    }

    fn into_cache_value(self) -> (v: CacheValue) {
        CacheValue::AnilistUser(self)
    }

    fn peek(v: &CacheValue) -> (r: Option<&Self>) {
        match v {
            CacheValue::AnilistUser(x) => Some(x),
            _ => None,
        }
    }

    fn take(v: CacheValue) -> (r: Option<Self>) {
        match v {
            CacheValue::AnilistUser(x) => Some(x),
            _ => None,
        }
    }
}

impl Cacheable for Rank {
    open spec fn tag() -> ValueKind {
        ValueKind::Rank
    }

    open spec fn wrapped(self) -> CacheValue {
        CacheValue::Rank(self)
    }

    open spec fn unwrapped(v: CacheValue) -> Option<Self> {
        match v {
            CacheValue::Rank(x) => Some(x),
            _ => None,
        }
    }

    proof fn lemma_wrap_unwrap(x: Self) {
    }

    proof fn lemma_unwrap_wrap(v: CacheValue) {
    }

    fn into_cache_value(self) -> (v: CacheValue) {
        CacheValue::Rank(self)
    }

    fn peek(v: &CacheValue) -> (r: Option<&Self>) {
        match v {
            CacheValue::Rank(x) => Some(x),
            _ => None,
        }
    }

    fn take(v: CacheValue) -> (r: Option<Self>) {
        match v {
            CacheValue::Rank(x) => Some(x),
            _ => None,
        }
    }
}

impl Cacheable for Judgements {
    open spec fn tag() -> ValueKind {
        ValueKind::Judgements
    }

    open spec fn wrapped(self) -> CacheValue {
        CacheValue::Judgements(self)
    }

    open spec fn unwrapped(v: CacheValue) -> Option<Self> {
        match v {
            CacheValue::Judgements(x) => Some(x),
            _ => None,
        }
    }

    proof fn lemma_wrap_unwrap(x: Self) {
    }

    proof fn lemma_unwrap_wrap(v: CacheValue) {
    }

    fn into_cache_value(self) -> (v: CacheValue) {
        CacheValue::Judgements(self)
    }

    fn peek(v: &CacheValue) -> (r: Option<&Self>) {
        match v {
            CacheValue::Judgements(x) => Some(x),
            _ => None,
        }
    }

    fn take(v: CacheValue) -> (r: Option<Self>) {
        match v {
            CacheValue::Judgements(x) => Some(x),
            _ => None,
        }
    }
}

impl Cacheable for u64 {
    open spec fn tag() -> ValueKind {
        ValueKind::Count
    }

    open spec fn wrapped(self) -> CacheValue {
        CacheValue::Count(self)
    }

    open spec fn unwrapped(v: CacheValue) -> Option<Self> {
        match v {
            CacheValue::Count(x) => Some(x),
            _ => None,
        }
    }

    proof fn lemma_wrap_unwrap(x: Self) {
    }

    proof fn lemma_unwrap_wrap(v: CacheValue) {
    }

    fn into_cache_value(self) -> (v: CacheValue) {
        CacheValue::Count(self)
    }

    fn peek(v: &CacheValue) -> (r: Option<&Self>) {
        match v {
            CacheValue::Count(x) => Some(x),
            _ => None,
        }
    }

    fn take(v: CacheValue) -> (r: Option<Self>) {
        match v {
            CacheValue::Count(x) => Some(x),
            _ => None,
        }
    }
}

} // verus!
