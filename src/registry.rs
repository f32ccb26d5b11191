use vstd::prelude::*;

verus! {

/// An addressable source or destination of dispatch.
#[derive(Clone, Debug)]
pub struct Endpoint {
    pub address: String,
    pub identity: u64,
}

impl Endpoint {
    pub fn new(address: String, identity: u64) -> (r: Endpoint)
        ensures
            r.address == address,
            r.identity == identity,
    {
        Endpoint { address, identity }
    }
}

/// Why a registry call failed.
#[derive(PartialEq, Eq, Structural, Clone, Copy, Debug)]
pub enum RegistryError {
    /// No address is registered under the identifier.
    UnknownEndpoint(u64),
    /// An address is already registered under the identifier.
    DuplicateIdentifier(u64),
}

/// Resolves logical endpoint identifiers to endpoints. Filled at initialization,
/// read-only afterwards.
pub struct EndpointRegistry {
    ids: Vec<u64>,
    endpoints: Vec<Endpoint>,
}

impl EndpointRegistry {
    /// Each identifier is registered at most once, beside exactly one endpoint.
    pub closed spec fn wf(&self) -> bool {
        &&& self.ids@.len() == self.endpoints@.len()
        &&& self.ids@.no_duplicates()
    }

    /// The endpoint registered under each identifier.
    pub closed spec fn view(&self) -> Map<u64, Endpoint> {
        Map::new(
            |k: u64| self.ids@.contains(k),
            |k: u64| self.endpoints@[self.ids@.index_of(k)],
        )
    }

    pub fn new() -> (r: EndpointRegistry)
        ensures
            r.wf(),
            r@ == Map::<u64, Endpoint>::empty(),
    {
        let r = EndpointRegistry { ids: Vec::new(), endpoints: Vec::new() };
        assert(r@ =~= Map::<u64, Endpoint>::empty());
        r
    }

    /// The position of `id` among the registered identifiers, if it is there.
    fn position(&self, id: u64) -> (r: Option<usize>)
        requires
            self.wf(),
        ensures
            r is None <==> !self.ids@.contains(id),
            r matches Some(i) ==> (i < self.ids@.len() && self.ids@[i as int] == id
                && self.ids@.index_of(id) == i),
    {
        let mut i: usize = 0;
        while i < self.ids.len()
            invariant
                self.wf(),
                i <= self.ids@.len(),
                forall|j: int| 0 <= j < i ==> self.ids@[j] != id,
            decreases self.ids@.len() - i,
        {
            if self.ids[i] == id {
                proof {
                    assert(self.ids@[i as int] == id);
                    assert(self.ids@.contains(id));
                    let k = self.ids@.index_of(id);
                    assert(0 <= k < self.ids@.len() && self.ids@[k] == id);
                    if k != i {
                        assert(self.ids@[k] != self.ids@[i as int]);
                    }
                }
                return Some(i);
            }
            i = i + 1;
        }
        None
    }

    pub fn contains(&self, id: u64) -> (r: bool)
        requires
            self.wf(),
        ensures
            r == self@.contains_key(id),
    {
        self.position(id).is_some()
    }

    /// Registers `endpoint` under `id`; an identifier already taken is refused
    /// and the registry is left as it was.
    pub fn register(&mut self, id: u64, endpoint: Endpoint) -> (r: Result<(), RegistryError>)
        requires
            old(self).wf(),
        ensures
            final(self).wf(),
            old(self)@.contains_key(id) ==> r == Err::<(), RegistryError>(
                RegistryError::DuplicateIdentifier(id),
            ) && final(self)@ == old(self)@,
            !old(self)@.contains_key(id) ==> r is Ok && final(self)@ == old(self)@.insert(
                id,
                endpoint,
            ),
    {
        if self.position(id).is_some() {
            return Err(RegistryError::DuplicateIdentifier(id));
        }
        let ghost old_ids = self.ids@;
        let ghost old_view = self@;
        self.ids.push(id);
        self.endpoints.push(endpoint);
        proof {
            let n = old_ids.len() as int;
            assert(self.ids@ == old_ids.push(id));
            assert(self.ids@[n] == id);
            assert forall|a: int, b: int|
                0 <= a < self.ids@.len() && 0 <= b < self.ids@.len() && a != b implies
                self.ids@[a] != self.ids@[b] by {
                if a < n && b < n {
                    assert(old_ids[a] != old_ids[b]);
                } else if a == n {
                    assert(old_ids.contains(self.ids@[b]));
                } else {
                    assert(old_ids.contains(self.ids@[a]));
                }
            }
            assert forall|k: u64| #[trigger] self.ids@.contains(k) implies self.ids@.index_of(k)
                == (if k == id { n } else { old_ids.index_of(k) }) by {
                let c = self.ids@.index_of(k);
                assert(0 <= c < self.ids@.len() && self.ids@[c] == k);
                if k == id {
                    if c != n {
                        assert(self.ids@[c] != self.ids@[n]);
                    }
                } else {
                    assert(c != n);
                    assert(old_ids[c] == k);
                    let j = old_ids.index_of(k);
                    assert(old_ids[j] == k);
                    if c != j {
                        assert(self.ids@[c] != self.ids@[j]);
                    }
                }
            }
            assert forall|k: u64| #[trigger] old_ids.contains(k) implies self.ids@.contains(k) by {
                let j = old_ids.index_of(k);
                assert(self.ids@[j] == k);
            }
            assert(self@ =~= old_view.insert(id, endpoint));
        }
        Ok(())
    }

    /// The endpoint registered under `id`; `UnknownEndpoint` if there is none.
    pub fn resolve(&self, id: u64) -> (r: Result<&Endpoint, RegistryError>)
        requires
            self.wf(),
        ensures
            self@.contains_key(id) ==> (r matches Ok(e) && *e == self@[id]),
            !self@.contains_key(id) ==> r == Err::<&Endpoint, RegistryError>(
                RegistryError::UnknownEndpoint(id),
            ),
    {
        match self.position(id) {
            Some(i) => Ok(&self.endpoints[i]),
            None => Err(RegistryError::UnknownEndpoint(id)),
        }
    }
}

} // verus!
