use vstd::prelude::*;

use crate::engine::{compile_diagnostic, script_compiles};
use crate::types::{Handler, HandlerView};

verus! {

/// Why a registry or authorization step refused a request.
#[derive(Debug)]
pub enum ServiceError {
    /// The credential is not in the API key store, or does not own the handler.
    InvalidApiKey,
    /// No handler is registered at the address.
    UnknownHandler,
    /// The address belongs to another tenant; carries the address.
    OwnershipMismatch(String),
    /// The engine rejected the source; carries its diagnostic.
    CompileError(String),
}

/// The stored handlers, one per address.
struct Table {
    handlers: Vec<Handler>,
}

/// The handler registry: a map from address to a tenant-owned script. Addresses are unique
/// and every stored source is one that the engine accepts.
pub struct Registry {
    table: Table,
}

impl Registry {
    #[verifier::type_invariant]
    spec fn inv(&self) -> bool {
        self.table.wf()
    }

    /// The stored handlers, in order of first registration.
    pub closed spec fn entries(&self) -> Seq<Handler> {
        self.table.entries()
    }

    /// The registry as a map from address to owner and source.
    pub closed spec fn view(&self) -> Map<Seq<char>, HandlerView> {
        self.table@
    }

    /// The addresses, in order of first registration.
    pub closed spec fn address_seq(&self) -> Seq<Seq<char>> {
        self.table.address_seq()
    }

    /// An empty registry.
    pub fn new() -> (r: Registry)
        ensures
            r@ == Map::<Seq<char>, HandlerView>::empty(),
    {
        Registry { table: Table::new() }
    }

    /// The number of registered addresses.
    pub fn len(&self) -> (n: usize)
        ensures
            n == self@.len(),
    {
        proof { use_type_invariant(self); }
        self.table.len()
    }

    /// The handler registered at `address`, if any.
    pub fn lookup(&self, address: &String) -> (r: Option<&Handler>)
        ensures
            r is Some <==> self@.contains_key(address@),
            r is Some ==> r->0@ == self@[address@] && r->0.uri@ == address@ && r->0.wf(),
    {
        proof { use_type_invariant(self); }
        self.table.lookup(address)
    }

    /// Creates or replaces the handler at `address`. The source must compile; an
    /// existing handler may only be replaced by its owner. The caller has already
    /// checked `owner_key` against the API key store. On refusal nothing changes.
    pub fn upsert(&mut self, address: String, owner_key: String, source: String) -> (r: Result<(), ServiceError>)
        ensures
            final(self)@ == upserted(old(self)@, address@, owner_key@, source@),
            r is Ok <==> upsert_allowed(old(self)@, address@, owner_key@, source@),
            !script_compiles(source@) ==> r is Err && r->Err_0 is CompileError
                && r->Err_0->CompileError_0@ == compile_diagnostic(source@),
            script_compiles(source@) && old(self)@.contains_key(address@)
                && old(self)@[address@].owner != owner_key@ ==> (r is Err && r->Err_0 is OwnershipMismatch
                && r->Err_0->OwnershipMismatch_0@ == address@),
    {
        proof { use_type_invariant(&*self); }
        let mut table = Table { handlers: Vec::new() };
        std::mem::swap(&mut table, &mut self.table);
        let r = table.upsert(address, owner_key, source);
        self.table = table;
        r
    }

    /// The source stored at `address`, returned only to its owner. An unknown address
    /// gives `UnknownHandler`; a requester other than the owner gives `InvalidApiKey`.
    pub fn find(&self, address: &String, requester_key: &String) -> (r: Result<String, ServiceError>)
        ensures
            r is Ok <==> self@.contains_key(address@) && self@[address@].owner == requester_key@,
            r is Ok ==> r->Ok_0@ == self@[address@].source,
            !self@.contains_key(address@) ==> r is Err && r->Err_0 is UnknownHandler,
            self@.contains_key(address@) && self@[address@].owner != requester_key@
                ==> r is Err && r->Err_0 is InvalidApiKey,
    {
        proof { use_type_invariant(self); }
        self.table.find(address, requester_key)
    }

    /// Every registered address, once each, in order of first registration.
    pub fn addresses(&self) -> (r: Vec<String>)
        ensures
            r@.map_values(|s: String| s@) == self.address_seq(),
            self.address_seq().to_set() == self@.dom(),
            self.address_seq().no_duplicates(),
    {
        proof { use_type_invariant(self); }
        self.table.addresses()
    }

    /// The stored handlers, for writing a snapshot.
    pub fn handlers(&self) -> (r: &Vec<Handler>)
        ensures
            r@ == self.entries(),
            forall|i: int| 0 <= i < r@.len() ==> self@.contains_key(#[trigger] r@[i].uri@) && self@[r@[i].uri@] == r@[i]@,
            r@.len() == self@.len(),
    {
        proof {
            use_type_invariant(self);
            self.table.lemma_dom_len();
            assert forall|i: int| 0 <= i < self.entries().len() implies self@.contains_key(#[trigger] self.entries()[i].uri@) && self@[self.entries()[i].uri@] == self.entries()[i]@ by {
                self.table.lemma_position(i);
            }
        }
        self.table.handlers()
    }

    /// Rebuilds a registry from a snapshot, recompiling every source. Fails as a whole when
    /// any source is rejected; otherwise the registry holds exactly what the snapshot stands for.
    pub fn load(records: Vec<HandlerRecord>) -> (r: Option<Registry>)
        ensures
            r is Some <==> records_compile(records@),
            r is Some ==> r->0@ == records_map(records@),
    {
        match Table::load(records) {
            Some(table) => Some(Registry { table }),
            None => None,
        }
    }
}

/// Whether an upsert of `source` at `address` by `owner` is carried out on `m`.
pub open spec fn upsert_allowed(m: Map<Seq<char>, HandlerView>, address: Seq<char>, owner: Seq<char>, source: Seq<char>) -> bool {
    &&& script_compiles(source)
    &&& (m.contains_key(address) ==> m[address].owner == owner)
}

/// The map after an upsert: the new pair where it is allowed, the same map otherwise.
pub open spec fn upserted(m: Map<Seq<char>, HandlerView>, address: Seq<char>, owner: Seq<char>, source: Seq<char>) -> Map<Seq<char>, HandlerView> {
    if upsert_allowed(m, address, owner, source) {
        m.insert(address, HandlerView { owner, source })
    } else {
        m
    }
}

impl Table {
    /// The stored handlers, in order of first registration.
    spec fn entries(&self) -> Seq<Handler> {
        self.handlers@
    }

    /// Addresses are unique and every stored source compiles.
    spec fn wf(&self) -> bool {
        &&& forall|i: int, j: int|
            0 <= i < j < self.entries().len() ==> #[trigger] self.entries()[i].uri@ != #[trigger] self.entries()[j].uri@
        &&& forall|i: int| 0 <= i < self.entries().len() ==> (#[trigger] self.entries()[i]).wf()
    }

    /// Whether some stored handler sits at `address`.
    spec fn has(&self, address: Seq<char>) -> bool {
        exists|i: int| 0 <= i < self.entries().len() && #[trigger] self.entries()[i].uri@ == address
    }

    /// The position of the handler at `address`.
    spec fn position(&self, address: Seq<char>) -> int {
        choose|i: int| 0 <= i < self.entries().len() && #[trigger] self.entries()[i].uri@ == address
    }

    /// The table as a map from address to owner and source.
    spec fn view(&self) -> Map<Seq<char>, HandlerView> {
        Map::new(|a: Seq<char>| self.has(a), |a: Seq<char>| self.entries()[self.position(a)]@)
    }

    /// The addresses, in storage order.
    spec fn address_seq(&self) -> Seq<Seq<char>> {
        self.entries().map_values(|h: Handler| h.uri@)
    }

    proof fn lemma_position(&self, i: int)
        requires
            self.wf(),
            0 <= i < self.entries().len(),
        ensures
            self.has(self.entries()[i].uri@),
            self.position(self.entries()[i].uri@) == i,
            self@.contains_key(self.entries()[i].uri@),
            self@[self.entries()[i].uri@] == self.entries()[i]@,
    {
        let a = self.entries()[i].uri@;
        assert(self.has(a));
        let j = self.position(a);
        assert(self.entries()[j].uri@ == a);
        if j < i {
            assert(self.entries()[j].uri@ != self.entries()[i].uri@);
        } else if i < j {
            assert(self.entries()[i].uri@ != self.entries()[j].uri@);
        }
    }

    /// An empty table.
    fn new() -> (r: Table)
        ensures
            r.wf(),
            r@ == Map::<Seq<char>, HandlerView>::empty(),
    {
        let r = Table { handlers: Vec::new() };
        assert(r@ =~= Map::<Seq<char>, HandlerView>::empty());
        r
    }

    /// The number of stored handlers.
    fn len(&self) -> (n: usize)
        requires
            self.wf(),
        ensures
            n == self@.len(),
            n == self.entries().len(),
    {
        proof { self.lemma_dom_len(); }
        self.handlers.len()
    }

    proof fn lemma_dom_len(&self)
        requires
            self.wf(),
        ensures
            self@.dom() == self.address_seq().to_set(),
            self.address_seq().no_duplicates(),
            self@.len() == self.entries().len(),
    {
        let s = self.address_seq();
        assert forall|a: Seq<char>| self@.dom().contains(a) <==> s.to_set().contains(a) by {
            if self@.dom().contains(a) {
                let i = self.position(a);
                assert(s[i] == a);
            }
            if s.to_set().contains(a) {
                let i = choose|i: int| 0 <= i < s.len() && s[i] == a;
                assert(self.entries()[i].uri@ == a);
            }
        }
        assert(self@.dom() =~= s.to_set());
        assert forall|i: int, j: int| 0 <= i < s.len() && 0 <= j < s.len() && i != j implies s[i] != s[j] by {
            if i < j {
                assert(self.entries()[i].uri@ != self.entries()[j].uri@);
            } else {
                assert(self.entries()[j].uri@ != self.entries()[i].uri@);
            }
        }
        s.unique_seq_to_set();
    }

    /// The position of the handler at `address`, if there is one.
    fn index_of(&self, address: &String) -> (r: Option<usize>)
        requires
            self.wf(),
        ensures
            r is None <==> !self@.contains_key(address@),
            r is Some ==> r->0 < self.entries().len() && self.entries()[r->0 as int].uri@ == address@,
    {
        let mut i: usize = 0;
        while i < self.handlers.len()
            invariant
                0 <= i <= self.entries().len(),
                self.entries() == self.handlers@,
                forall|j: int| 0 <= j < i ==> #[trigger] self.entries()[j].uri@ != address@,
            decreases self.handlers.len() - i,
        {
            if self.handlers[i].uri == *address {
                return Some(i);
            }
            i = i + 1;
        }
        None
    }

    /// The handler registered at `address`, if any.
    fn lookup(&self, address: &String) -> (r: Option<&Handler>)
        requires
            self.wf(),
        ensures
            r is Some <==> self@.contains_key(address@),
            r is Some ==> r->0@ == self@[address@] && r->0.uri@ == address@ && r->0.wf(),
    {
        match self.index_of(address) {
            Some(i) => {
                proof { self.lemma_position(i as int); }
                Some(&self.handlers[i])
            },
            None => None,
        }
    }

    /// Puts `handler` at its address, replacing whatever was there.
    fn store(&mut self, handler: Handler)
        requires
            old(self).wf(),
            handler.wf(),
        ensures
            final(self).wf(),
            final(self)@ == old(self)@.insert(handler.uri@, handler@),
    {
        let ghost old_reg = *self;
        let ghost address = handler.uri@;
        let ghost hv = handler@;
        match self.index_of(&handler.uri) {
            Some(i) => {
                proof { self.lemma_position(i as int); }
                self.handlers.set(i, handler);
                proof {
                    assert forall|a: Seq<char>| self.has(a) <==> old_reg.has(a) by {
                        if self.has(a) {
                            let j = self.position(a);
                            if j != i { assert(old_reg.entries()[j].uri@ == a); }
                            else { assert(old_reg.entries()[i as int].uri@ == a); }
                        }
                        if old_reg.has(a) {
                            let j = old_reg.position(a);
                            if j != i { assert(self.entries()[j].uri@ == a); }
                            else { assert(self.entries()[i as int].uri@ == a); }
                        }
                    }
                    assert forall|a: Seq<char>| #[trigger] self.has(a) && a != address implies self@[a] == old_reg@[a] by {
                        let j = old_reg.position(a);
                        old_reg.lemma_position(j);
                        assert(j != i);
                        assert(self.entries()[j] == old_reg.entries()[j]);
                        self.lemma_position(j);
                    }
                    self.lemma_position(i as int);
                    assert(self@ =~= old_reg@.insert(address, hv));
                }
            },
            None => {
                self.handlers.push(handler);
                proof {
                    let n = old_reg.entries().len() as int;
                    assert forall|a: Seq<char>| self.has(a) <==> (old_reg.has(a) || a == address) by {
                        if self.has(a) {
                            let j = self.position(a);
                            if j != n { assert(old_reg.entries()[j].uri@ == a); }
                        }
                        if old_reg.has(a) {
                            let j = old_reg.position(a);
                            assert(self.entries()[j].uri@ == a);
                        }
                        if a == address { assert(self.entries()[n].uri@ == a); }
                    }
                    assert forall|a: Seq<char>| #[trigger] old_reg.has(a) implies self@[a] == old_reg@[a] by {
                        let j = old_reg.position(a);
                        old_reg.lemma_position(j);
                        assert(self.entries()[j] == old_reg.entries()[j]);
                        self.lemma_position(j);
                    }
                    self.lemma_position(n);
                    assert(self@ =~= old_reg@.insert(address, hv));
                }
            },
        }
    }

    /// Creates or replaces the handler at `address`. The source must compile; an
    /// existing handler may only be replaced by its owner. The caller has already
    /// checked `owner_key` against the API key store. On refusal nothing changes.
    fn upsert(&mut self, address: String, owner_key: String, source: String) -> (r: Result<(), ServiceError>)
        requires
            old(self).wf(),
        ensures
            final(self).wf(),
            final(self)@ == upserted(old(self)@, address@, owner_key@, source@),
            r is Ok <==> upsert_allowed(old(self)@, address@, owner_key@, source@),
            !script_compiles(source@) ==> r is Err && r->Err_0 is CompileError
                && r->Err_0->CompileError_0@ == compile_diagnostic(source@),
            script_compiles(source@) && old(self)@.contains_key(address@)
                && old(self)@[address@].owner != owner_key@ ==> (r is Err && r->Err_0 is OwnershipMismatch
                && r->Err_0->OwnershipMismatch_0@ == address@),
    {
        let handler = match Handler::new(address.clone(), owner_key.clone(), source) {
            Ok(h) => h,
            Err(diagnostic) => return Err(ServiceError::CompileError(diagnostic)),
        };
        if let Some(i) = self.index_of(&address) {
            proof { self.lemma_position(i as int); }
            if self.handlers[i].api_key != owner_key {
                return Err(ServiceError::OwnershipMismatch(address));
            }
        }
        self.store(handler);
        Ok(())
    }
}

impl Table {
    /// The source stored at `address`, returned only to its owner. An unknown address
    /// gives `UnknownHandler`; a requester other than the owner gives `InvalidApiKey`.
    fn find(&self, address: &String, requester_key: &String) -> (r: Result<String, ServiceError>)
        requires
            self.wf(),
        ensures
            r is Ok <==> self@.contains_key(address@) && self@[address@].owner == requester_key@,
            r is Ok ==> r->Ok_0@ == self@[address@].source,
            !self@.contains_key(address@) ==> r is Err && r->Err_0 is UnknownHandler,
            self@.contains_key(address@) && self@[address@].owner != requester_key@
                ==> r is Err && r->Err_0 is InvalidApiKey,
    {
        match self.lookup(address) {
            Some(h) => {
                if h.api_key == *requester_key {
                    Ok(h.code.raw.clone())
                } else {
                    Err(ServiceError::InvalidApiKey)
                }
            },
            None => Err(ServiceError::UnknownHandler),
        }
    }

    /// Every registered address, once each, in storage order.
    fn addresses(&self) -> (r: Vec<String>)
        requires
            self.wf(),
        ensures
            r@.map_values(|s: String| s@) == self.address_seq(),
            self.address_seq().to_set() == self@.dom(),
            self.address_seq().no_duplicates(),
    {
        proof { self.lemma_dom_len(); }
        let mut out: Vec<String> = Vec::new();
        let mut i: usize = 0;
        while i < self.handlers.len()
            invariant
                0 <= i <= self.entries().len(),
                self.entries() == self.handlers@,
                out@.len() == i,
                forall|j: int| 0 <= j < i ==> (#[trigger] out@[j])@ == self.entries()[j].uri@,
            decreases self.handlers.len() - i,
        {
            out.push(self.handlers[i].uri.clone());
            i = i + 1;
        }
        assert(out@.map_values(|s: String| s@) =~= self.address_seq());
        out
    }

    /// The stored handlers, for writing a snapshot.
    fn handlers(&self) -> (r: &Vec<Handler>)
        ensures
            r@ == self.entries(),
    {
        &self.handlers
    }
}

/// A persisted handler: what a snapshot holds for one address (never the compiled form).
#[derive(Debug)]
pub struct HandlerRecord {
    pub uri: String,
    pub api_key: String,
    pub code: String,
}

/// Whether every record's source compiles.
pub open spec fn records_compile(records: Seq<HandlerRecord>) -> bool {
    forall|i: int| 0 <= i < records.len() ==> script_compiles(#[trigger] records[i].code@)
}

/// The map a snapshot stands for: a later record for an address replaces an earlier one.
pub open spec fn records_map(records: Seq<HandlerRecord>) -> Map<Seq<char>, HandlerView>
    decreases records.len(),
{
    if records.len() == 0 {
        Map::empty()
    } else {
        let last = records.last();
        records_map(records.drop_last()).insert(last.uri@, HandlerView { owner: last.api_key@, source: last.code@ })
    }
}

impl Table {
    /// Rebuilds a registry from a snapshot, recompiling every source. Fails as a whole when
    /// any source is rejected; otherwise the registry holds exactly what the snapshot stands for.
    fn load(records: Vec<HandlerRecord>) -> (r: Option<Table>)
        ensures
            r is Some <==> records_compile(records@),
            r is Some ==> r->0.wf() && r->0@ == records_map(records@),
    {
        let mut reg = Table::new();
        let mut i: usize = 0;
        while i < records.len()
            invariant
                0 <= i <= records@.len(),
                reg.wf(),
                records_compile(records@.take(i as int)),
                reg@ == records_map(records@.take(i as int)),
            decreases records.len() - i,
        {
            let rec = &records[i];
            match Handler::new(rec.uri.clone(), rec.api_key.clone(), rec.code.clone()) {
                Ok(h) => reg.store(h),
                Err(_) => return None,
            }
            assert(records@.take(i + 1).drop_last() =~= records@.take(i as int));
            i = i + 1;
            assert forall|j: int| 0 <= j < records@.take(i as int).len() implies script_compiles(#[trigger] records@.take(i as int)[j].code@) by {
                if j < i - 1 {
                    assert(records@.take(i as int)[j] == records@.take(i - 1)[j]);
                }
            }
        }
        assert(records@.take(i as int) =~= records@);
        Some(reg)
    }
}

} // verus!

verus! {

/// The text of `e` as it is shown to callers.
pub open spec fn error_message(e: ServiceError) -> Seq<char> {
    match e {
        ServiceError::InvalidApiKey => "Invalid API Key"@,
        ServiceError::UnknownHandler => "Unknown handler uri"@,
        ServiceError::OwnershipMismatch(address) => "A handler with uri "@ + address@ + " already exists"@,
        ServiceError::CompileError(diagnostic) => "Error parsing code: "@ + diagnostic@,
    }
}

impl ServiceError {
    /// The text of this error as it is shown to callers.
    pub fn message(&self) -> (r: String)
        ensures
            r@ == error_message(*self),
    {
        match self {
            ServiceError::InvalidApiKey => String::from_str("Invalid API Key"),
            ServiceError::UnknownHandler => String::from_str("Unknown handler uri"),
            ServiceError::OwnershipMismatch(address) => {
                let mut m = String::from_str("A handler with uri ");
                m.append(address.as_str());
                m.append(" already exists");
                m
            },
            ServiceError::CompileError(diagnostic) => {
                let mut m = String::from_str("Error parsing code: ");
                m.append(diagnostic.as_str());
                m
            },
        }
    }
}

/// The storage path that switches snapshot writes off.
pub const NO_WRITE_PATH: &'static str = "do-not-write";

/// Whether snapshots are written to `path`: always, but for the sentinel path.
pub fn persistence_enabled(path: &String) -> (r: bool)
    ensures
        r <==> path@ != NO_WRITE_PATH@,
{
    let sentinel = String::from_str(NO_WRITE_PATH);
    !(*path == sentinel)
}

} // verus!

verus! {

/// Upserting a source that compiles at an address that is free, or already owned by the same
/// key, and then looking the address up gives exactly the new owner and source.
pub proof fn lemma_upsert_then_lookup(m: Map<Seq<char>, HandlerView>, address: Seq<char>, owner: Seq<char>, source: Seq<char>)
    requires
        script_compiles(source),
        m.contains_key(address) ==> m[address].owner == owner,
    ensures
        upsert_allowed(m, address, owner, source),
        upserted(m, address, owner, source).contains_key(address),
        upserted(m, address, owner, source)[address] == (HandlerView { owner, source }),
{
}

/// An upsert by any key other than the owner of an existing handler is refused and leaves
/// the whole map, that handler included, unchanged.
pub proof fn lemma_upsert_foreign_owner_rejected(m: Map<Seq<char>, HandlerView>, address: Seq<char>, owner: Seq<char>, source: Seq<char>)
    requires
        m.contains_key(address),
        m[address].owner != owner,
    ensures
        !upsert_allowed(m, address, owner, source),
        upserted(m, address, owner, source) == m,
        upserted(m, address, owner, source)[address] == m[address],
{
}

/// An upsert by the owner of an existing handler replaces its source as one step: the entry
/// holds the new source under the same owner, and every other address keeps its entry.
pub proof fn lemma_upsert_same_owner_replaces(m: Map<Seq<char>, HandlerView>, address: Seq<char>, owner: Seq<char>, source: Seq<char>)
    requires
        m.contains_key(address),
        m[address].owner == owner,
        script_compiles(source),
    ensures
        upserted(m, address, owner, source) == m.insert(address, HandlerView { owner, source }),
        upserted(m, address, owner, source)[address].owner == m[address].owner,
        upserted(m, address, owner, source)[address].source == source,
        forall|a: Seq<char>| a != address && m.contains_key(a) ==> #[trigger] upserted(m, address, owner, source)[a] == m[a],
        upserted(m, address, owner, source).dom() == m.dom(),
{
    assert(upserted(m, address, owner, source).dom() =~= m.dom());
}

} // verus!
