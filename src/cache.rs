//! The per-application method cache: which acquisition method last worked
//! for an application, bounded and least-recently-used, consulted before the
//! accessibility attempt and updated only on a capture that found text.
use vstd::prelude::*;
use lru::LruCache;
use std::num::NonZeroUsize;
use crate::error::GetTextError;

verus! {

#[verifier::external_type_specification]
#[verifier::external_body]
#[verifier::reject_recursive_types(K)]
#[verifier::reject_recursive_types(V)]
#[verifier::reject_recursive_types(S)]
pub struct ExLruCache<K, V, S>(LruCache<K, V, S>);

#[verifier::external_type_specification]
#[verifier::external_body]
pub struct ExDefaultHasher(lru::DefaultHasher);

/// The entries that an application-name cache holds, by name.
pub uninterp spec fn cache_entries(c: LruCache<String, u8>) -> Map<Seq<char>, u8>;

/// The number of entries that an application-name cache was made to hold.
pub uninterp spec fn cache_capacity(c: LruCache<String, u8>) -> nat;

/// Relies on `LruCache::new`: an empty cache that holds at most `cap`
/// entries; a zero capacity is refused by `NonZeroUsize`.
#[verifier::external_body]
fn lru_new(cap: usize) -> (r: LruCache<String, u8>)
    requires
        cap > 0,
    ensures
        cache_entries(r).dom() == Set::<Seq<char>>::empty(),
        cache_capacity(r) == cap,
{
    LruCache::new(NonZeroUsize::new(cap).unwrap())
}

/// Relies on `LruCache::get`: the value stored under the key, if any; the
/// lookup only marks the entry as the most recently used.
#[verifier::external_body]
fn lru_get(c: &mut LruCache<String, u8>, k: &String) -> (r: Option<u8>)
    ensures
        cache_entries(*final(c)) == cache_entries(*old(c)),
        cache_capacity(*final(c)) == cache_capacity(*old(c)),
        r == (if cache_entries(*old(c)).contains_key(k@) {
            Some(cache_entries(*old(c))[k@])
        } else {
            None
        }),
{
    c.get(k).copied()
}

/// Relies on `LruCache::put`: afterwards the key maps to the value; every
/// other entry is kept unchanged, except that a new key in a cache holding
/// as many entries as its capacity evicts the least recently used entry.
#[verifier::external_body]
fn lru_put(c: &mut LruCache<String, u8>, k: String, v: u8)
    ensures
        cache_capacity(*final(c)) == cache_capacity(*old(c)),
        cache_entries(*old(c)).dom().finite() ==> cache_entries(*final(c)).dom().finite(),
        cache_entries(*old(c)).dom().finite() && cache_entries(*old(c)).dom().len() <= cache_capacity(
            *old(c),
        ) ==> cache_entries(*final(c)).dom().len() <= cache_capacity(*old(c)),
        cache_entries(*old(c)).dom().finite() && (cache_entries(*old(c)).contains_key(k@)
            || cache_entries(*old(c)).dom().len() < cache_capacity(*old(c))) ==> cache_entries(
            *final(c),
        ) == cache_entries(*old(c)).insert(k@, v),
        cache_entries(*final(c)).contains_key(k@),
        cache_entries(*final(c))[k@] == v,
        forall|j: Seq<char>|
            j != k@ && #[trigger] cache_entries(*final(c)).contains_key(j) ==> cache_entries(
                *old(c),
            ).contains_key(j) && cache_entries(*final(c))[j] == cache_entries(*old(c))[j],
{
    c.put(k, v);
}

/// How many applications the cache remembers.
pub const METHOD_CACHE_CAPACITY: usize = 100;

/// An acquisition method that worked for an application.
#[derive(Debug, Clone, Copy, PartialEq, Eq)]
pub enum Method {
    Accessibility,
    AppleScript,
}

/// The tag under which a method is stored.
pub open spec fn tag_of(m: Method) -> u8 {
    match m {
        Method::Accessibility => 0,
        Method::AppleScript => 1,
    }
}

/// Which methods a capture tries, in order.
#[derive(Debug, Clone, Copy, PartialEq, Eq)]
pub enum Plan {
    /// Accessibility alone: it worked for this application before.
    AccessibilityOnly,
    /// AppleScript alone: it worked for this application before.
    AppleScriptOnly,
    /// Accessibility, then AppleScript where it fails: nothing is known yet.
    AccessibilityThenAppleScript,
}

/// The plan that the remembered entries give for an application.
pub open spec fn plan_for(entries: Map<Seq<char>, u8>, app: Seq<char>) -> Plan {
    if entries.contains_key(app) {
        if entries[app] == 0 {
            Plan::AccessibilityOnly
        } else {
            Plan::AppleScriptOnly
        }
    } else {
        Plan::AccessibilityThenAppleScript
    }
}

/// What a capture does once accessibility has answered.
#[derive(Debug, PartialEq, Eq)]
pub enum AxVerdict {
    /// Stop with this result.
    Done(Result<String, GetTextError>),
    /// Try AppleScript now.
    TryAppleScript,
}

/// Whether a plan turns to AppleScript after accessibility answered `ax`.
pub open spec fn falls_back(plan: Plan, ax: Result<String, GetTextError>) -> bool {
    plan == Plan::AccessibilityThenAppleScript && ax is Err
}

/// The per-application method cache.
pub struct MethodCache {
    cache: LruCache<String, u8>,
}

impl MethodCache {
    /// The remembered method tags, by application name.
    pub closed spec fn entries(&self) -> Map<Seq<char>, u8> {
        cache_entries(self.cache)
    }

    /// How many applications the cache remembers at most.
    pub closed spec fn capacity(&self) -> nat {
        cache_capacity(self.cache)
    }

    /// The cache holds at most its capacity, which is the fixed one.
    pub open spec fn wf(&self) -> bool {
        &&& self.entries().dom().finite()
        &&& self.entries().dom().len() <= self.capacity()
        &&& self.capacity() == METHOD_CACHE_CAPACITY
    }

    /// An empty cache.
    pub fn new() -> (r: MethodCache)
        ensures
            r.entries().dom() == Set::<Seq<char>>::empty(),
            r.wf(),
    {
        MethodCache { cache: lru_new(METHOD_CACHE_CAPACITY) }
    }

    /// The plan for a capture in `app_name`.
    pub fn plan(&mut self, app_name: &String) -> (r: Plan)
        requires
            old(self).wf(),
        ensures
            final(self).wf(),
            r == plan_for(old(self).entries(), app_name@),
            final(self).entries() == old(self).entries(),
    {
        match lru_get(&mut self.cache, app_name) {
            Some(tag) => if tag == 0 {
                Plan::AccessibilityOnly
            } else {
                Plan::AppleScriptOnly
            },
            None => Plan::AccessibilityThenAppleScript,
        }
    }

    /// Remembers that `method` found `text` in `app_name`. Only a capture
    /// that found text is remembered.
    pub fn record(&mut self, app_name: String, method: Method, text: &str)
        requires
            old(self).wf(),
        ensures
            final(self).wf(),
            recorded(old(self).entries(), final(self).entries(), app_name@, method, text@),
            text@.len() > 0 && (old(self).entries().contains_key(app_name@) || old(self).entries().dom().len()
                < METHOD_CACHE_CAPACITY) ==> final(self).entries() == old(self).entries().insert(
                app_name@,
                tag_of(method),
            ),
    {
        if !text.is_empty() {
            let tag: u8 = match method {
                Method::Accessibility => 0,
                Method::AppleScript => 1,
            };
            lru_put(&mut self.cache, app_name, tag);
        }
    }

    /// What a capture with `plan` does once accessibility has answered `ax`:
    /// a success is remembered when nothing was known and is returned;
    /// a failure turns to AppleScript only when nothing was known.
    pub fn after_accessibility(
        &mut self,
        app_name: String,
        plan: Plan,
        ax: Result<String, GetTextError>,
    ) -> (r: AxVerdict)
        requires
            old(self).wf(),
        ensures
            final(self).wf(),
            falls_back(plan, ax) <==> r == AxVerdict::TryAppleScript,
            !falls_back(plan, ax) ==> r == AxVerdict::Done(ax),
            plan == Plan::AccessibilityThenAppleScript && ax is Ok ==> recorded(
                old(self).entries(),
                final(self).entries(),
                app_name@,
                Method::Accessibility,
                ax->Ok_0@,
            ),
            !(plan == Plan::AccessibilityThenAppleScript && ax is Ok) ==> final(self).entries()
                == old(self).entries(),
    {
        match plan {
            Plan::AccessibilityThenAppleScript => match ax {
                Ok(text) => {
                    self.record(app_name, Method::Accessibility, text.as_str());
                    AxVerdict::Done(Ok(text))
                },
                Err(_) => AxVerdict::TryAppleScript,
            },
            _ => AxVerdict::Done(ax),
        }
    }

    /// What a capture returns once AppleScript has answered `script`; a
    /// success is remembered when nothing was known.
    pub fn after_applescript(
        &mut self,
        app_name: String,
        plan: Plan,
        script: Result<String, GetTextError>,
    ) -> (r: Result<String, GetTextError>)
        requires
            old(self).wf(),
        ensures
            final(self).wf(),
            r == script,
            plan == Plan::AccessibilityThenAppleScript && script is Ok ==> recorded(
                old(self).entries(),
                final(self).entries(),
                app_name@,
                Method::AppleScript,
                script->Ok_0@,
            ),
            !(plan == Plan::AccessibilityThenAppleScript && script is Ok) ==> final(self).entries()
                == old(self).entries(),
    {
        if let Plan::AccessibilityThenAppleScript = plan {
            if let Ok(text) = &script {
                self.record(app_name, Method::AppleScript, text.as_str());
            }
        }
        script
    }
}

/// `after` is `before` once `method` has been remembered for `app` after it
/// found `text`: nothing changes for an empty text; otherwise `app` maps to
/// the method, and any other entry that is left is as it was.
pub open spec fn recorded(
    before: Map<Seq<char>, u8>,
    after: Map<Seq<char>, u8>,
    app: Seq<char>,
    method: Method,
    text: Seq<char>,
) -> bool {
    if text.len() == 0 {
        after == before
    } else {
        &&& after.contains_key(app)
        &&& after[app] == tag_of(method)
        &&& forall|j: Seq<char>|
            j != app && #[trigger] after.contains_key(j) ==> before.contains_key(j) && after[j]
                == before[j]
    }
}

/// Once an accessibility capture that found text has been remembered for an
/// application, the next capture there goes by accessibility alone and
/// never turns to AppleScript, whatever accessibility answers.
pub proof fn lemma_cache_converges(
    before: Map<Seq<char>, u8>,
    after: Map<Seq<char>, u8>,
    app: Seq<char>,
    text: Seq<char>,
)
    requires
        recorded(before, after, app, Method::Accessibility, text),
        text.len() > 0,
    ensures
        plan_for(after, app) == Plan::AccessibilityOnly,
        forall|ax: Result<String, GetTextError>| !falls_back(plan_for(after, app), ax),
{
}

/// A success by either method, once remembered, fixes the next plan for the
/// application to that method alone; an application never seen gets both.
pub proof fn lemma_cache_plans(
    before: Map<Seq<char>, u8>,
    after: Map<Seq<char>, u8>,
    app: Seq<char>,
    method: Method,
    text: Seq<char>,
)
    requires
        recorded(before, after, app, method, text),
        text.len() > 0,
    ensures
        plan_for(after, app) == match method {
            Method::Accessibility => Plan::AccessibilityOnly,
            Method::AppleScript => Plan::AppleScriptOnly,
        },
        plan_for(Map::empty(), app) == Plan::AccessibilityThenAppleScript,
{
}

} // verus!
