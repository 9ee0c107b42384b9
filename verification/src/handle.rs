use vstd::prelude::*;
use vstd::string::StringSliceAdditionalSpecFns;

use crate::level::Level;
use crate::marshal::marshal_str;
use crate::marshal::spec_marshaled;

verus! {

/// Identity of the distinguished process-default native log object. It is
/// owned by the operating system and must never be released by the adapter.
pub const GLOBAL_HANDLE_ID: u64 = 0;

/// Models the native subsystem's allocation of log objects: every successful
/// creation yields a fresh, non-null identity. Threading one source through
/// all creations guarantees that no two handles it produced share an
/// identity, and that none collides with the global one.
pub struct HandleIds {
    next: u64,
}

impl HandleIds {
    /// The identity the next creation will receive; every identity handed
    /// out so far lies below it.
    pub closed spec fn spec_next(self) -> u64 {
        self.next
    }

    /// Identities start above the distinguished global identity.
    pub open spec fn wf(self) -> bool {
        self.spec_next() >= 1
    }

    /// A further identity can still be drawn.
    pub open spec fn can_draw(self) -> bool {
        self.spec_next() < u64::MAX
    }

    pub fn new() -> (r: HandleIds)
        ensures
            r.wf(),
            r.spec_next() == 1,
    {
        HandleIds { next: 1 }
    }

    /// The identity the next creation will receive.
    pub fn next_value(&self) -> (r: u64)
        ensures
            r == self.spec_next(),
    {
        self.next
    }
}

/// One fully prepared native emit call: which log object, which native
/// level, and the null-terminated message bytes. The caller that talks to
/// the native subsystem performs it; nothing else is needed for the call.
pub struct Emission {
    pub handle: u64,
    pub level: Level,
    pub message: Vec<u8>,
}

/// A wrapper around one native log object, scoped to a (subsystem, category)
/// pair — either owned (created for this adapter, released when its owner is
/// done with it) or the borrowed process-default object, which is never
/// released.
#[derive(Clone, Debug, PartialEq, Eq, Hash)]
pub struct OsLog {
    id: u64,
    owned: bool,
    subsystem: Vec<u8>,
    category: Vec<u8>,
}

impl OsLog {
    /// The identity of the underlying native object.
    pub closed spec fn spec_id(self) -> u64 {
        self.id
    }

    /// Whether dropping this handle must release the native object.
    pub closed spec fn spec_owned(self) -> bool {
        self.owned
    }

    /// The marshaled, null-terminated subsystem name the handle was created
    /// with.
    pub closed spec fn spec_subsystem(self) -> Seq<u8> {
        self.subsystem@
    }

    /// The marshaled, null-terminated category name the handle was created
    /// with.
    pub closed spec fn spec_category(self) -> Seq<u8> {
        self.category@
    }

    /// Whether this is the distinguished process-default handle.
    pub open spec fn is_global(self) -> bool {
        self.spec_id() == GLOBAL_HANDLE_ID
    }

    /// The owned handles are exactly those that are not the global one.
    pub open spec fn wf(self) -> bool {
        self.spec_owned() <==> !self.is_global()
    }

    /// Creates the handle for a (subsystem, category) pair. The native
    /// creation primitive returns a fresh non-null object on valid input —
    /// `ids` models that allocation, so the result is owned and its identity
    /// is fresh. Both names are marshaled; a name with an interior zero byte
    /// degrades to the empty string rather than failing the call.
    pub fn new(subsystem: &str, category: &str, ids: &mut HandleIds) -> (h: OsLog)
        requires
            old(ids).wf(),
            old(ids).can_draw(),
        ensures
            final(ids).wf(),
            final(ids).spec_next() == old(ids).spec_next() + 1,
            h.wf(),
            h.spec_owned(),
            h.spec_id() == old(ids).spec_next(),
            h.spec_subsystem() == spec_marshaled(subsystem.spec_bytes()),
            h.spec_category() == spec_marshaled(category.spec_bytes()),
    {
        let id = ids.next;
        ids.next = ids.next + 1;
        OsLog {
            id,
            owned: true,
            subsystem: marshal_str(subsystem),
            category: marshal_str(category),
        }
    }

    /// Obtains the borrowed process-default handle: shared state owned by
    /// the operating system, usable for emitting but never released here.
    pub fn global() -> (h: OsLog)
        ensures
            h.wf(),
            !h.spec_owned(),
            h.is_global(),
    {
        let mut empty: Vec<u8> = Vec::new();
        empty.push(0u8);
        OsLog {
            id: GLOBAL_HANDLE_ID,
            owned: false,
            subsystem: empty.clone(),
            category: empty,
        }
    }

    /// Marshals `message` and produces the emit action for the native
    /// primitive. A message with an interior zero byte degrades to the
    /// empty string instead of panicking or failing the call.
    pub fn with_level(&self, level: Level, message: &str) -> (e: Emission)
        ensures
            e.handle == self.spec_id(),
            e.level == level,
            e.message@ == spec_marshaled(message.spec_bytes()),
    {
        Emission { handle: self.id, level, message: marshal_str(message) }
    }

    /// The emit action for `message` at the native debug level.
    pub fn debug(&self, message: &str) -> (e: Emission)
        ensures
            e.handle == self.spec_id(),
            e.level == Level::Debug,
            e.message@ == spec_marshaled(message.spec_bytes()),
    {
        self.with_level(Level::Debug, message)
    }

    /// The emit action for `message` at the native info level.
    pub fn info(&self, message: &str) -> (e: Emission)
        ensures
            e.handle == self.spec_id(),
            e.level == Level::Info,
            e.message@ == spec_marshaled(message.spec_bytes()),
    {
        self.with_level(Level::Info, message)
    }

    /// The emit action for `message` at the native default level.
    pub fn default(&self, message: &str) -> (e: Emission)
        ensures
            e.handle == self.spec_id(),
            e.level == Level::Default,
            e.message@ == spec_marshaled(message.spec_bytes()),
    {
        self.with_level(Level::Default, message)
    }

    /// The emit action for `message` at the native error level.
    pub fn error(&self, message: &str) -> (e: Emission)
        ensures
            e.handle == self.spec_id(),
            e.level == Level::Error,
            e.message@ == spec_marshaled(message.spec_bytes()),
    {
        self.with_level(Level::Error, message)
    }

    /// The emit action for `message` at the native fault level.
    pub fn fault(&self, message: &str) -> (e: Emission)
        ensures
            e.handle == self.spec_id(),
            e.level == Level::Fault,
            e.message@ == spec_marshaled(message.spec_bytes()),
    {
        self.with_level(Level::Fault, message)
    }

    /// Whether dropping this handle must invoke the native release
    /// primitive: owned handles are released, the borrowed process-default
    /// handle never is.
    pub fn releases_on_drop(&self) -> (b: bool)
        ensures
            b == self.spec_owned(),
    {
        self.owned
    }

    /// The identity of the underlying native object, for callers that keep
    /// the real native objects keyed by identity.
    pub fn id(&self) -> (r: u64)
        ensures
            r == self.spec_id(),
    {
        self.id
    }

    /// The marshaled subsystem name, as the native creation primitive needs
    /// it.
    pub fn subsystem_cstr(&self) -> (r: &Vec<u8>)
        ensures
            r@ == self.spec_subsystem(),
    {
        &self.subsystem
    }

    /// The marshaled category name, as the native creation primitive needs
    /// it.
    pub fn category_cstr(&self) -> (r: &Vec<u8>)
        ensures
            r@ == self.spec_category(),
    {
        &self.category
    }
}

/// Law: the distinguished process-default handle is never released — a
/// well-formed global handle is not owned, and only owned handles reach the
/// native release primitive (`releases_on_drop`).
pub proof fn lemma_global_never_released(h: OsLog)
    requires
        h.wf(),
        h.is_global(),
    ensures
        !h.spec_owned(),
{
}

} // verus!
