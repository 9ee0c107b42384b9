use vstd::pervasive::unreached;
use vstd::prelude::*;
use vstd::string::StringSliceAdditionalSpecFns;

use dashmap::DashMap;

use crate::dash::dash_contains;
use crate::dash::dash_get;
use crate::dash::dash_insert_absent;
use crate::dash::dash_new;
use crate::dash::dash_override_levels;
use crate::dash::dash_set_level;
use crate::dash::dash_view;
use crate::handle::Emission;
use crate::handle::HandleIds;
use crate::handle::OsLog;
use crate::level::spec_at_least_as_permissive;
use crate::level::spec_native;
use crate::level::spec_passes;
use crate::level::Severity;
use crate::marshal::spec_marshaled;

verus! {

/// One registry entry: the category's optional override level and the one
/// log handle created for that category.
#[derive(Clone)]
pub struct CategoryEntry {
    pub override_level: Option<Severity>,
    pub handle: OsLog,
}

/// Sets the override level of one entry in place, keeping its handle.
pub(crate) fn set_override(e: &mut CategoryEntry, level: Severity)
    ensures
        final(e).override_level == Some(level),
        final(e).handle == old(e).handle,
{
    e.override_level = Some(level);
}

/// The category filter registry and facade adapter: a concurrent mapping
/// from category name to filter entry, the global default threshold, and
/// the advertised facade-wide maximum, kept equal to the most permissive
/// threshold in force after every mutation.
pub struct OsLogger {
    loggers: DashMap<String, CategoryEntry>,
    subsystem: String,
    default_level: Severity,
    advertised_max: Severity,
    ids: HandleIds,
}

impl OsLogger {
    /// The entries, keyed by category name.
    pub closed spec fn spec_entries(self) -> Map<Seq<char>, CategoryEntry> {
        dash_view(self.loggers)
    }

    /// The fixed subsystem name every handle is created under.
    pub closed spec fn spec_subsystem(self) -> Seq<char> {
        self.subsystem@
    }

    /// The default threshold, applied to every category without an override.
    pub closed spec fn spec_default(self) -> Severity {
        self.default_level
    }

    /// The advertised facade-wide threshold.
    pub closed spec fn spec_advertised(self) -> Severity {
        self.advertised_max
    }

    /// The identity the next created handle will receive.
    pub closed spec fn spec_next_id(self) -> u64 {
        self.ids.spec_next()
    }

    /// The severity threshold actually applied to `category`: its override
    /// if set, else the default.
    pub open spec fn effective(self, category: Seq<char>) -> Severity {
        if self.spec_entries().dom().contains(category) && self.spec_entries()[category].override_level is Some {
            self.spec_entries()[category].override_level.unwrap()
        } else {
            self.spec_default()
        }
    }

    /// The advertised threshold equals the most permissive severity among
    /// the default and every present override: it is at least as permissive
    /// as each of them, and it is one of them.
    pub open spec fn advertised_ok(self) -> bool {
        &&& spec_at_least_as_permissive(self.spec_advertised(), self.spec_default())
        &&& forall|c: Seq<char>|
            #[trigger] self.spec_entries().dom().contains(c)
                && self.spec_entries()[c].override_level is Some
                ==> spec_at_least_as_permissive(
                    self.spec_advertised(),
                    self.spec_entries()[c].override_level.unwrap(),
                )
        &&& (self.spec_advertised() == self.spec_default() || exists|c: Seq<char>|
            #[trigger] self.spec_entries().dom().contains(c)
                && self.spec_entries()[c].override_level == Some(self.spec_advertised()))
    }

    /// At most one handle per category, and each one valid: every entry's
    /// handle is owned, well formed, distinct from the global handle, its
    /// identity below the next one to be drawn, and no two categories share
    /// a handle identity.
    pub open spec fn handles_ok(self) -> bool {
        &&& self.spec_next_id() >= 1
        &&& forall|c: Seq<char>| #[trigger] self.spec_entries().dom().contains(c) ==> {
            &&& self.spec_entries()[c].handle.wf()
            &&& self.spec_entries()[c].handle.spec_owned()
            &&& 0 < self.spec_entries()[c].handle.spec_id() < self.spec_next_id()
        }
        &&& forall|c1: Seq<char>, c2: Seq<char>|
            #[trigger] self.spec_entries().dom().contains(c1)
                && #[trigger] self.spec_entries().dom().contains(c2) && c1 != c2
                ==> self.spec_entries()[c1].handle.spec_id()
                    != self.spec_entries()[c2].handle.spec_id()
    }

    /// The registry invariant: the advertised threshold is recomputed and
    /// correct, and the handles are uniquely owned.
    pub open spec fn wf(self) -> bool {
        self.advertised_ok() && self.handles_ok()
    }

    /// A further handle can still be created.
    pub open spec fn can_add(self) -> bool {
        self.spec_next_id() < u64::MAX
    }

    /// Creates a new registry for `subsystem`, with no per-category entries
    /// and the default threshold at the most permissive severity.
    pub fn new(subsystem: &str) -> (r: OsLogger)
        ensures
            r.wf(),
            r.can_add(),
            r.spec_next_id() == 1,
            r.spec_entries() == Map::<Seq<char>, CategoryEntry>::empty(),
            r.spec_subsystem() == subsystem@,
            r.spec_default() == Severity::Trace,
            r.spec_advertised() == Severity::Trace,
    {
        OsLogger {
            loggers: dash_new(),
            subsystem: subsystem.to_owned(),
            default_level: Severity::Trace,
            advertised_max: Severity::Trace,
            ids: HandleIds::new(),
        }
    }

    /// Executable access to the advertised facade-wide threshold.
    pub fn advertised_max(&self) -> (s: Severity)
        ensures
            s == self.spec_advertised(),
    {
        self.advertised_max
    }

    /// Executable access to the default threshold.
    pub fn default_level(&self) -> (s: Severity)
        ensures
            s == self.spec_default(),
    {
        self.default_level
    }

    /// Executable access to the next handle identity; it also counts the
    /// handles created so far, one below it.
    pub fn next_handle_id(&self) -> (r: u64)
        ensures
            r == self.spec_next_id(),
    {
        self.ids.next_value()
    }

    /// Recomputes the advertised facade-wide threshold from scratch: the
    /// most permissive severity among the current default and all current
    /// overrides. Nothing else changes.
    pub fn update_global_max_level(&mut self)
        ensures
            final(self).spec_entries() == old(self).spec_entries(),
            final(self).spec_subsystem() == old(self).spec_subsystem(),
            final(self).spec_default() == old(self).spec_default(),
            final(self).spec_next_id() == old(self).spec_next_id(),
            final(self).advertised_ok(),
    {
        let levels = dash_override_levels(&self.loggers);
        let mut most_permissive = self.default_level;
        let n = levels.len();
        let mut i: usize = 0;
        while i < n
            invariant
                n == levels@.len(),
                0 <= i <= n,
                spec_at_least_as_permissive(most_permissive, self.default_level),
                most_permissive == self.default_level || levels@.contains(
                    Some(most_permissive),
                ),
                forall|j: int|
                    0 <= j < i && levels@[j] is Some ==> spec_at_least_as_permissive(
                        most_permissive,
                        levels@[j].unwrap(),
                    ),
            decreases n - i,
        {
            if let Some(l) = levels[i] {
                if l.rank() < most_permissive.rank() {
                    assert(levels@.contains(Some(l))) by {
                        assert(levels@[i as int] == Some(l));
                    }
                    most_permissive = l;
                }
            }
            i = i + 1;
        }
        self.advertised_max = most_permissive;
        proof {
            let s = *self;
            assert forall|c: Seq<char>|
                #[trigger] s.spec_entries().dom().contains(c)
                    && s.spec_entries()[c].override_level is Some
                    implies spec_at_least_as_permissive(
                    s.spec_advertised(),
                    s.spec_entries()[c].override_level.unwrap(),
                ) by {
                let lv = s.spec_entries()[c].override_level;
                assert(levels@.contains(lv));
                let j = choose|j: int| 0 <= j < levels@.len() && levels@[j] == lv;
                assert(spec_at_least_as_permissive(most_permissive, levels@[j].unwrap()));
            }
            if s.spec_advertised() != s.spec_default() {
                assert(levels@.contains(Some(most_permissive)));
                let j = choose|j: int|
                    0 <= j < levels@.len() && levels@[j] == Some(most_permissive);
                assert(exists|c: Seq<char>|
                    #[trigger] s.spec_entries().dom().contains(c)
                        && s.spec_entries()[c].override_level == Some(s.spec_advertised()));
            }
        }
    }

    /// Sets the default threshold: only severities at or above `level` pass
    /// for categories without an override. The advertised facade-wide
    /// threshold is recomputed immediately.
    pub fn level_filter(self, level: Severity) -> (r: OsLogger)
        requires
            self.handles_ok(),
        ensures
            r.wf(),
            r.spec_entries() == self.spec_entries(),
            r.spec_subsystem() == self.spec_subsystem(),
            r.spec_default() == level,
            r.spec_next_id() == self.spec_next_id(),
    {
        let mut r = self;
        r.default_level = level;
        r.update_global_max_level();
        r
    }

    /// Sets or updates the override threshold for `category`, creating the
    /// entry and its one handle if this is the first reference to the
    /// category. The advertised facade-wide threshold is recomputed
    /// immediately. Last write wins per category; the handle of an existing
    /// entry is kept.
    pub fn category_level_filter(self, category: &str, level: Severity) -> (r: OsLogger)
        requires
            self.handles_ok(),
            self.can_add(),
        ensures
            r.wf(),
            r.spec_subsystem() == self.spec_subsystem(),
            r.spec_default() == self.spec_default(),
            r.spec_entries().dom() == self.spec_entries().dom().insert(category@),
            r.spec_entries()[category@].override_level == Some(level),
            forall|c: Seq<char>|
                #[trigger] self.spec_entries().dom().contains(c) && c != category@
                    ==> r.spec_entries()[c] == self.spec_entries()[c],
            r.spec_next_id() <= self.spec_next_id() + 1,
            self.spec_entries().dom().contains(category@) ==> r.spec_entries()[category@].handle
                == self.spec_entries()[category@].handle && r.spec_next_id()
                == self.spec_next_id(),
            spec_at_least_as_permissive(r.spec_advertised(), level),
    {
        let ghost pre = self;
        let mut r = self;
        if dash_contains(&r.loggers, category) {
            dash_set_level(&mut r.loggers, category, level);
        } else {
            let handle = OsLog::new(r.subsystem.as_str(), category, &mut r.ids);
            dash_insert_absent(
                &mut r.loggers,
                category,
                CategoryEntry { override_level: Some(level), handle },
            );
        }
        proof {
            assert(r.spec_entries().dom() =~= pre.spec_entries().dom().insert(category@));
        }
        r.update_global_max_level();
        proof {
            assert(r.spec_entries().dom() =~= pre.spec_entries().dom().insert(category@));
            assert(r.spec_entries().dom().contains(category@));
        }
        r
    }

    /// Looks up — or lazily creates, on first reference — the entry for
    /// `category`, and returns its effective threshold together with its one
    /// handle. An existing entry is returned exactly as it is: its handle is
    /// never recreated. A new entry has no override and a freshly created
    /// handle.
    pub fn resolve(&mut self, category: &str) -> (r: (Severity, OsLog))
        requires
            old(self).wf(),
            old(self).can_add() || old(self).spec_entries().dom().contains(category@),
        ensures
            final(self).wf(),
            final(self).spec_subsystem() == old(self).spec_subsystem(),
            final(self).spec_default() == old(self).spec_default(),
            final(self).spec_advertised() == old(self).spec_advertised(),
            final(self).spec_entries().dom() == old(self).spec_entries().dom().insert(category@),
            forall|c: Seq<char>|
                #[trigger] old(self).spec_entries().dom().contains(c)
                    ==> final(self).spec_entries()[c] == old(self).spec_entries()[c],
            old(self).spec_entries().dom().contains(category@) ==> final(self).spec_entries()
                == old(self).spec_entries() && final(self).spec_next_id() == old(self).spec_next_id(),
            !old(self).spec_entries().dom().contains(category@) ==> final(self).spec_entries()[category@].override_level is None && r.1.spec_id() == old(self).spec_next_id() && final(self).spec_next_id() == old(self).spec_next_id() + 1,
            r.0 == old(self).effective(category@),
            r.1 == final(self).spec_entries()[category@].handle,
            r.1.wf() && r.1.spec_owned(),
    {
        let ghost pre = *self;
        if !dash_contains(&self.loggers, category) {
            let handle = OsLog::new(self.subsystem.as_str(), category, &mut self.ids);
            dash_insert_absent(
                &mut self.loggers,
                category,
                CategoryEntry { override_level: None, handle },
            );
        }
        let entry = match dash_get(&self.loggers, category) {
            Some(e) => e,
            None => unreached(),
        };
        let level = match entry.override_level {
            Some(l) => l,
            None => self.default_level,
        };
        proof {
            if pre.spec_entries().dom().contains(category@) {
                assert(self.spec_entries().dom() =~= pre.spec_entries().dom().insert(category@));
            } else {
                assert(self.spec_entries().dom() =~= pre.spec_entries().dom().insert(category@));
                assert forall|c: Seq<char>|
                    #[trigger] self.spec_entries().dom().contains(c)
                        && self.spec_entries()[c].override_level is Some
                        implies spec_at_least_as_permissive(
                        self.spec_advertised(),
                        self.spec_entries()[c].override_level.unwrap(),
                    ) by {
                    assert(c != category@);
                    assert(pre.spec_entries().dom().contains(c));
                }
                if self.spec_advertised() != self.spec_default() {
                    let w = choose|c: Seq<char>|
                        #[trigger] pre.spec_entries().dom().contains(c)
                            && pre.spec_entries()[c].override_level == Some(pre.spec_advertised());
                    assert(self.spec_entries().dom().contains(w));
                    assert(self.spec_entries()[w].override_level == Some(self.spec_advertised()));
                }
            }
        }
        (level, entry.handle)
    }

    /// The facade adapter's dual enable check. `native_enabled` is the
    /// native subsystem's answer to its per-handle enable query for the
    /// resolved handle at the mapped severity; that policy can change at any
    /// time outside the adapter, so it is asked anew at every call and both
    /// gates must pass. The body also pre-checks the facade-wide advertised
    /// threshold, but that check can never reject on its own: the advertised
    /// threshold is at least as permissive as every effective one.
    pub fn enabled(&mut self, category: &str, severity: Severity, native_enabled: bool) -> (b:
        bool)
        requires
            old(self).wf(),
            old(self).can_add() || old(self).spec_entries().dom().contains(category@),
        ensures
            final(self).wf(),
            final(self).spec_subsystem() == old(self).spec_subsystem(),
            final(self).spec_default() == old(self).spec_default(),
            final(self).spec_advertised() == old(self).spec_advertised(),
            final(self).spec_entries().dom() == old(self).spec_entries().dom().insert(category@),
            final(self).spec_next_id() <= old(self).spec_next_id() + 1,
            forall|c: Seq<char>|
                #[trigger] old(self).spec_entries().dom().contains(c)
                    ==> final(self).spec_entries()[c] == old(self).spec_entries()[c],
            !old(self).spec_entries().dom().contains(category@) ==> final(self).spec_entries()[category@].override_level is None,
            b == (native_enabled && spec_passes(severity, old(self).effective(category@))),
    {
        let ghost pre = *self;
        let (effective, _handle) = self.resolve(category);
        let severity_rank = severity.rank();
        let global_pass = severity_rank >= self.advertised_max.rank();
        let category_pass = severity_rank >= effective.rank();
        proof {
            if pre.spec_entries().dom().contains(category@)
                && pre.spec_entries()[category@].override_level is Some {
                assert(spec_at_least_as_permissive(
                    pre.spec_advertised(),
                    pre.spec_entries()[category@].override_level.unwrap(),
                ));
            }
            assert(spec_at_least_as_permissive(pre.spec_advertised(), pre.effective(category@)));
        }
        global_pass && category_pass && native_enabled
    }

    /// The facade adapter's log operation: it re-validates `enabled` and,
    /// only when the message is to be emitted, marshals it once and produces
    /// the emit action at the mapped native level through the category's one
    /// handle. The message is emitted if and only if its severity passes the
    /// category's effective filter and the native enable check passed; a
    /// rejected message is silently dropped with no side effect.
    pub fn log(&mut self, category: &str, severity: Severity, message: &str, native_enabled: bool) -> (r:
        Option<Emission>)
        requires
            old(self).wf(),
            old(self).can_add() || old(self).spec_entries().dom().contains(category@),
        ensures
            final(self).wf(),
            final(self).spec_subsystem() == old(self).spec_subsystem(),
            final(self).spec_default() == old(self).spec_default(),
            final(self).spec_advertised() == old(self).spec_advertised(),
            final(self).spec_entries().dom() == old(self).spec_entries().dom().insert(category@),
            final(self).spec_next_id() <= old(self).spec_next_id() + 1,
            forall|c: Seq<char>|
                #[trigger] old(self).spec_entries().dom().contains(c)
                    ==> final(self).spec_entries()[c] == old(self).spec_entries()[c],
            !old(self).spec_entries().dom().contains(category@) ==> final(self).spec_entries()[category@].override_level is None,
            r is Some <==> (native_enabled && spec_passes(
                severity,
                old(self).effective(category@),
            )),
            r is Some ==> r.unwrap().handle == final(self).spec_entries()[category@].handle.spec_id()
                && r.unwrap().level == spec_native(severity)
                && r.unwrap().message@ == spec_marshaled(message.spec_bytes()),
    {
        let ghost pre = *self;
        if self.enabled(category, severity, native_enabled) {
            let (_effective, handle) = self.resolve(category);
            proof {
                assert(self.spec_entries().dom() =~= pre.spec_entries().dom().insert(category@));
            }
            Some(handle.with_level(severity.native_level(), message))
        } else {
            None
        }
    }

    /// The facade adapter's flush: a no-op. The native subsystem owns all
    /// buffering and delivery guarantees and exposes no synchronous flush
    /// primitive to the adapter.
    pub fn flush(&self) {
    }
}

/// Law: after every mutation, the advertised facade-wide threshold equals
/// the most permissive severity among the current default and all current
/// per-category overrides — it is at least as permissive as each of them,
/// and it is itself one of them.
pub proof fn lemma_advertised_is_global_max(r: OsLogger)
    requires
        r.wf(),
    ensures
        spec_at_least_as_permissive(r.spec_advertised(), r.spec_default()),
        forall|c: Seq<char>|
            #[trigger] r.spec_entries().dom().contains(c) && r.spec_entries()[c].override_level is Some
                ==> spec_at_least_as_permissive(
                    r.spec_advertised(),
                    r.spec_entries()[c].override_level.unwrap(),
                ),
        r.spec_advertised() == r.spec_default() || exists|c: Seq<char>|
            #[trigger] r.spec_entries().dom().contains(c) && r.spec_entries()[c].override_level
                == Some(r.spec_advertised()),
{
}

/// Law: at most one handle exists per category. The registry maps each
/// category to exactly one entry, and no two categories' handles share an
/// identity; together with `resolve`'s contract — an existing entry is
/// handed back unchanged, never recreated — each category is only ever
/// given one created handle.
pub proof fn lemma_one_handle_per_category(r: OsLogger, c1: Seq<char>, c2: Seq<char>)
    requires
        r.wf(),
        r.spec_entries().dom().contains(c1),
        r.spec_entries().dom().contains(c2),
        c1 != c2,
    ensures
        r.spec_entries()[c1].handle.spec_id() != r.spec_entries()[c2].handle.spec_id(),
{
}

/// Law: a category override more permissive than the default raises the
/// advertised facade-wide threshold at least to the override, while the
/// effective level of every other, unconfigured category stays the default —
/// the global pre-check uses the maximum, not the per-category value.
pub proof fn lemma_override_raises_global(
    r: OsLogger,
    category: Seq<char>,
    level: Severity,
    other: Seq<char>,
)
    requires
        r.wf(),
        r.spec_entries().dom().contains(category),
        r.spec_entries()[category].override_level == Some(level),
        !r.spec_entries().dom().contains(other),
    ensures
        spec_at_least_as_permissive(r.spec_advertised(), level),
        r.effective(category) == level,
        r.effective(other) == r.spec_default(),
{
}

/// Law: the facade-wide pre-check can never be the bottleneck — a severity
/// that passes some category's effective filter also passes the advertised
/// facade-wide threshold, because the advertised threshold is kept at least
/// as permissive as every filter in force. Only the per-category check or
/// the native enable check can reject a message.
pub proof fn lemma_global_precheck_never_bottleneck(
    r: OsLogger,
    category: Seq<char>,
    severity: Severity,
)
    requires
        r.wf(),
        spec_passes(severity, r.effective(category)),
    ensures
        spec_passes(severity, r.spec_advertised()),
{
    if r.spec_entries().dom().contains(category) && r.spec_entries()[category].override_level is Some {
        assert(spec_at_least_as_permissive(
            r.spec_advertised(),
            r.spec_entries()[category].override_level.unwrap(),
        ));
    }
}

/// Law: no registry entry ever holds the distinguished global handle, so
/// dropping the registry's entries never invokes the native release
/// primitive on it — `releases_on_drop` is true only of owned handles, and
/// every entry's handle is owned and distinct from the global one.
pub proof fn lemma_registry_never_holds_global(r: OsLogger, c: Seq<char>)
    requires
        r.wf(),
        r.spec_entries().dom().contains(c),
    ensures
        r.spec_entries()[c].handle.spec_owned(),
        !r.spec_entries()[c].handle.is_global(),
{
}

} // verus!
