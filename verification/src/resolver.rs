//! Cache-aside resolution of a name to image bytes, as a state machine:
//! every decision — hit versus miss, what to ask the backend for, what to
//! store, which failures are absorbed and which surface — is made here,
//! while the caller performs the cache and backend round trips the state
//! awaits and feeds their outcomes back in.

use vstd::prelude::*;
use vstd::pervasive::unreached;
use crate::identity::spec_identifier;

verus! {

/// The outcome of a cache lookup, as the caller observed it.
pub enum CacheReadEvent {
    /// The cache answered with a value (possibly empty).
    Value(Vec<u8>),
    /// The cache answered: nothing is stored under the key.
    Absent,
    /// The cache was unreachable or its answer was malformed.
    Failed,
}

/// The outcome of a backend generation request.
pub enum GenerateEvent {
    /// The backend answered with the image bytes (stored and served as-is,
    /// even when empty).
    Image(Vec<u8>),
    /// The backend was unreachable, answered a non-success status, or its
    /// body could not be read.
    Failed,
}

/// The outcome of a cache store.
pub enum CacheWriteEvent {
    /// The write was accepted.
    Stored,
    /// The cache was unreachable or rejected the write.
    Failed,
}

/// Mathematical model of a cache lookup outcome.
pub enum SpecCacheRead {
    Value(Seq<u8>),
    Absent,
    Failed,
}

/// Mathematical model of a generation outcome.
pub enum SpecGenerate {
    Image(Seq<u8>),
    Failed,
}

/// Mathematical model of a cache store outcome.
pub enum SpecCacheWrite {
    Stored,
    Failed,
}

impl View for CacheReadEvent {
    type V = SpecCacheRead;

    open spec fn view(&self) -> SpecCacheRead {
        match self {
            CacheReadEvent::Value(b) => SpecCacheRead::Value(b@),
            CacheReadEvent::Absent => SpecCacheRead::Absent,
            CacheReadEvent::Failed => SpecCacheRead::Failed,
        }
    }
}

impl View for GenerateEvent {
    type V = SpecGenerate;

    open spec fn view(&self) -> SpecGenerate {
        match self {
            GenerateEvent::Image(b) => SpecGenerate::Image(b@),
            GenerateEvent::Failed => SpecGenerate::Failed,
        }
    }
}

impl View for CacheWriteEvent {
    type V = SpecCacheWrite;

    open spec fn view(&self) -> SpecCacheWrite {
        match self {
            CacheWriteEvent::Stored => SpecCacheWrite::Stored,
            CacheWriteEvent::Failed => SpecCacheWrite::Failed,
        }
    }
}

/// One in-flight resolution. The three awaiting states name the single
/// round trip the caller must perform next; the two terminal states name
/// what the caller observes.
pub enum ResolveState {
    /// Awaiting the outcome of the cache lookup for `id`.
    AwaitCacheRead { id: String },
    /// Awaiting the backend's generated image for `id`.
    AwaitGenerate { id: String },
    /// Awaiting the outcome of storing `blob` under `id`.
    AwaitCacheWrite { id: String, blob: Vec<u8> },
    /// Terminal: serve `blob`.
    Served { blob: Vec<u8> },
    /// Terminal: the backend failed; the caller observes an upstream error.
    FailedUpstream,
}

/// Mathematical model of a resolution state.
#[verifier::ext_equal]
pub enum SpecResolve {
    AwaitCacheRead { id: Seq<char> },
    AwaitGenerate { id: Seq<char> },
    AwaitCacheWrite { id: Seq<char>, blob: Seq<u8> },
    Served { blob: Seq<u8> },
    FailedUpstream,
}

impl View for ResolveState {
    type V = SpecResolve;

    open spec fn view(&self) -> SpecResolve {
        match self {
            ResolveState::AwaitCacheRead { id } => SpecResolve::AwaitCacheRead { id: id@ },
            ResolveState::AwaitGenerate { id } => SpecResolve::AwaitGenerate { id: id@ },
            ResolveState::AwaitCacheWrite { id, blob } => SpecResolve::AwaitCacheWrite {
                id: id@,
                blob: blob@,
            },
            ResolveState::Served { blob } => SpecResolve::Served { blob: blob@ },
            ResolveState::FailedUpstream => SpecResolve::FailedUpstream,
        }
    }
}

/// A terminal state awaits no further round trip: in particular it never
/// asks for a backend generation or a cache write.
pub open spec fn is_terminal(s: SpecResolve) -> bool {
    s is Served || s is FailedUpstream
}

/// Resolution begins by deriving the name's identifier and looking it up
/// in the cache.
pub open spec fn spec_start(name: Seq<char>) -> SpecResolve {
    SpecResolve::AwaitCacheRead { id: spec_identifier(name) }
}

/// A non-empty cached value is served as-is; an empty value, an absent
/// key and a read failure are alike treated as a miss, which turns to the
/// backend.
pub open spec fn spec_on_cache_read(s: SpecResolve, e: SpecCacheRead) -> SpecResolve
    recommends
        s is AwaitCacheRead,
{
    match e {
        SpecCacheRead::Value(b) => if b.len() > 0 {
            SpecResolve::Served { blob: b }
        } else {
            SpecResolve::AwaitGenerate { id: s->AwaitCacheRead_id }
        },
        SpecCacheRead::Absent => SpecResolve::AwaitGenerate { id: s->AwaitCacheRead_id },
        SpecCacheRead::Failed => SpecResolve::AwaitGenerate { id: s->AwaitCacheRead_id },
    }
}

/// Generated bytes are stored under the identifier they were generated
/// for; a backend failure ends the resolution with an upstream error and
/// no cache write.
pub open spec fn spec_on_generate(s: SpecResolve, e: SpecGenerate) -> SpecResolve
    recommends
        s is AwaitGenerate,
{
    match e {
        SpecGenerate::Image(b) => SpecResolve::AwaitCacheWrite {
            id: s->AwaitGenerate_id,
            blob: b,
        },
        SpecGenerate::Failed => SpecResolve::FailedUpstream,
    }
}

/// The freshly generated bytes are served whatever the write's outcome:
/// the cache is an optimization, not a source of truth.
pub open spec fn spec_on_cache_write(s: SpecResolve, e: SpecCacheWrite) -> SpecResolve
    recommends
        s is AwaitCacheWrite,
{
    match e {
        SpecCacheWrite::Stored => SpecResolve::Served { blob: s->AwaitCacheWrite_blob },
        SpecCacheWrite::Failed => SpecResolve::Served { blob: s->AwaitCacheWrite_blob },
    }
}

/// Begin resolving a name: derive its identifier and await the cache
/// lookup for it.
pub fn start_resolve(name: &str) -> (s: ResolveState)
    ensures
        s@ == spec_start(name@),
        s@ is AwaitCacheRead,
{
    ResolveState::AwaitCacheRead { id: crate::identity::derive(name) }
}

/// Feed in the outcome of the awaited cache lookup.
pub fn on_cache_read(s: ResolveState, e: CacheReadEvent) -> (r: ResolveState)
    requires
        s@ is AwaitCacheRead,
    ensures
        r@ == spec_on_cache_read(s@, e@),
{
    match s {
        ResolveState::AwaitCacheRead { id } => match e {
            CacheReadEvent::Value(b) => if b.len() > 0 {
                ResolveState::Served { blob: b }
            } else {
                ResolveState::AwaitGenerate { id }
            },
            CacheReadEvent::Absent => ResolveState::AwaitGenerate { id },
            CacheReadEvent::Failed => ResolveState::AwaitGenerate { id },
        },
        _ => unreached(),
    }
}

/// Feed in the outcome of the awaited backend generation.
pub fn on_generate(s: ResolveState, e: GenerateEvent) -> (r: ResolveState)
    requires
        s@ is AwaitGenerate,
    ensures
        r@ == spec_on_generate(s@, e@),
{
    match s {
        ResolveState::AwaitGenerate { id } => match e {
            GenerateEvent::Image(b) => ResolveState::AwaitCacheWrite { id, blob: b },
            GenerateEvent::Failed => ResolveState::FailedUpstream,
        },
        _ => unreached(),
    }
}

/// Feed in the outcome of the awaited cache store.
pub fn on_cache_write(s: ResolveState, e: CacheWriteEvent) -> (r: ResolveState)
    requires
        s@ is AwaitCacheWrite,
    ensures
        r@ == spec_on_cache_write(s@, e@),
{
    match s {
        ResolveState::AwaitCacheWrite { id: _, blob } => match e {
            CacheWriteEvent::Stored => ResolveState::Served { blob },
            CacheWriteEvent::Failed => ResolveState::Served { blob },
        },
        _ => unreached(),
    }
}

/// The failure a caller observes: only the generation backend's failure
/// crosses the resolver's boundary; cache failures are absorbed.
#[derive(Clone, Copy, Debug, PartialEq, Eq, Structural)]
pub enum ResolveError {
    Upstream,
}

/// Take the served bytes or the error out of a terminal state.
pub fn finish(s: ResolveState) -> (r: Result<Vec<u8>, ResolveError>)
    requires
        is_terminal(s@),
    ensures
        (s@ matches SpecResolve::Served { blob } ==> (r matches Ok(b) && b@ == blob)),
        s@ is FailedUpstream ==> r == Result::<Vec<u8>, ResolveError>::Err(ResolveError::Upstream),
{
    match s {
        ResolveState::Served { blob } => Ok(blob),
        ResolveState::FailedUpstream => Err(ResolveError::Upstream),
        _ => unreached(),
    }
}

/// Law: a non-empty cached value short-circuits — the resolver serves
/// exactly those bytes and is terminal at once, never awaiting a backend
/// generation.
pub proof fn lemma_cache_hit_short_circuit(name: Seq<char>, cached: Seq<u8>)
    requires
        cached.len() > 0,
    ensures
        ({
            let served = spec_on_cache_read(spec_start(name), SpecCacheRead::Value(cached));
            &&& served matches SpecResolve::Served { blob } && blob == cached
            &&& is_terminal(served)
        }),
{
}

/// Law: on a miss the resolver awaits exactly one backend generation, for
/// the identifier derived from the name; it then asks the cache to store
/// the backend's bytes under that same identifier, and serves exactly
/// those bytes whatever the write's outcome.
pub proof fn lemma_cache_miss_population(name: Seq<char>, image: Seq<u8>, write: SpecCacheWrite)
    ensures
        ({
            let awaiting = spec_on_cache_read(spec_start(name), SpecCacheRead::Absent);
            let storing = spec_on_generate(awaiting, SpecGenerate::Image(image));
            let done = spec_on_cache_write(storing, write);
            &&& awaiting matches SpecResolve::AwaitGenerate { id } && id == spec_identifier(name)
            &&& storing matches SpecResolve::AwaitCacheWrite { id, blob } && id
                == spec_identifier(name) && blob == image
            &&& done matches SpecResolve::Served { blob } && blob == image
        }),
{
}

/// Law: a zero-length cached value is handled exactly as an absent key.
pub proof fn lemma_empty_value_is_miss(s: SpecResolve)
    requires
        s is AwaitCacheRead,
    ensures
        spec_on_cache_read(s, SpecCacheRead::Value(Seq::<u8>::empty())) == spec_on_cache_read(
            s,
            SpecCacheRead::Absent,
        ),
{
}

/// Law: a rejected cache write changes nothing a caller sees — the
/// freshly generated bytes are served either way.
pub proof fn lemma_cache_write_failure_resilience(s: SpecResolve)
    requires
        s is AwaitCacheWrite,
    ensures
        spec_on_cache_write(s, SpecCacheWrite::Failed) == spec_on_cache_write(
            s,
            SpecCacheWrite::Stored,
        ),
        spec_on_cache_write(s, SpecCacheWrite::Failed) matches SpecResolve::Served { blob } && blob
            == s->AwaitCacheWrite_blob,
{
}

/// Law: a backend failure is terminal — the resolver surfaces the
/// upstream error and never awaits a cache write, so no write occurs.
pub proof fn lemma_upstream_failure_propagation(s: SpecResolve)
    requires
        s is AwaitGenerate,
    ensures
        spec_on_generate(s, SpecGenerate::Failed) is FailedUpstream,
        is_terminal(spec_on_generate(s, SpecGenerate::Failed)),
{
}

} // verus!
