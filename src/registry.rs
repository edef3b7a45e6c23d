use vstd::prelude::*;

verus! {

/// A hardware address of a device, as the 48-bit value of its six octets.
#[derive(Clone, Copy, Debug, PartialEq, Eq, Structural, Hash)]
pub struct DeviceAddress {
    pub value: u64,
}

/// The bridge's record of known devices.
///
/// The position of an address in `addresses` is the identity of that device;
/// `queues` holds, at the same position, the handle of that device's inbound
/// command queue once it has been installed. Entries are never removed.
pub struct Registry<H> {
    addresses: Vec<DeviceAddress>,
    queues: Vec<Option<H>>,
}

/// The index of the first occurrence of `a` in `s`, if any.
pub open spec fn first_index(s: Seq<DeviceAddress>, a: DeviceAddress) -> Option<int> {
    if exists|i: int| 0 <= i < s.len() && s[i] == a {
        Some(choose|i: int| 0 <= i < s.len() && s[i] == a)
    } else {
        None
    }
}

/// No address occurs twice in `s`.
pub open spec fn distinct(s: Seq<DeviceAddress>) -> bool {
    forall|i: int, j: int| 0 <= i < s.len() && 0 <= j < s.len() && s[i] == s[j] ==> i == j
}

/// The address sequence after `a` is resolved against `s`: unchanged if `a`
/// is known, else `a` appended.
pub open spec fn after_resolve(s: Seq<DeviceAddress>, a: DeviceAddress) -> Seq<DeviceAddress> {
    if s.contains(a) {
        s
    } else {
        s.push(a)
    }
}

/// The identity that resolving `a` against `s` yields: its first position
/// if it is known, else the next free position.
pub open spec fn resolved_identity(s: Seq<DeviceAddress>, a: DeviceAddress) -> int {
    match first_index(s, a) {
        Some(i) => i,
        None => s.len() as int,
    }
}

/// The address sequence after each of `found` is resolved in turn, starting from `s`.
pub open spec fn resolve_all(s: Seq<DeviceAddress>, found: Seq<DeviceAddress>) -> Seq<
    DeviceAddress,
>
    decreases found.len(),
{
    if found.len() == 0 {
        s
    } else {
        after_resolve(resolve_all(s, found.drop_last()), found.last())
    }
}

/// The queue sequence after `a` is resolved against the addresses `s`: an
/// empty slot is appended for a new address.
pub open spec fn after_resolve_queues<H>(s: Seq<DeviceAddress>, q: Seq<Option<H>>, a: DeviceAddress) -> Seq<Option<H>> {
    if s.contains(a) {
        q
    } else {
        q.push(None)
    }
}

/// In a sequence without repeats, the first index of an element is its index.
pub proof fn lemma_first_index_distinct(s: Seq<DeviceAddress>, i: int)
    requires
        distinct(s),
        0 <= i < s.len(),
    ensures
        first_index(s, s[i]) == Some(i),
{
    let k = choose|k: int| 0 <= k < s.len() && s[k] == s[i];
    assert(s[k] == s[i]);
}

proof fn lemma_resolve_all_distinct(found: Seq<DeviceAddress>)
    requires
        distinct(found),
    ensures
        resolve_all(Seq::empty(), found) == found,
    decreases found.len(),
{
    if found.len() > 0 {
        let init = found.drop_last();
        assert(distinct(init));
        lemma_resolve_all_distinct(init);
        if init.contains(found.last()) {
            let k = choose|k: int| 0 <= k < init.len() && init[k] == found.last();
            assert(found[k] == found[found.len() - 1]);
        }
        assert(init.push(found.last()) =~= found);
    }
}

/// Devices found one after another at distinct addresses, starting from an
/// empty registry, get the identities 0, 1, 2, ... in the order in which
/// they were found; the registry then lists them in that order, and finding
/// any of them again yields the identity it already has and changes nothing.
pub proof fn lemma_identities_follow_discovery_order(found: Seq<DeviceAddress>)
    requires
        distinct(found),
    ensures
        resolve_all(Seq::empty(), found) == found,
        forall|i: int|
            0 <= i < found.len() ==> resolved_identity(
                #[trigger] resolve_all(Seq::empty(), found.take(i)),
                found[i],
            ) == i,
        forall|i: int|
            0 <= i < found.len() ==> resolved_identity(found, #[trigger] found[i]) == i
                && after_resolve(found, found[i]) == found,
{
    lemma_resolve_all_distinct(found);
    assert forall|i: int| 0 <= i < found.len() implies resolved_identity(
        #[trigger] resolve_all(Seq::empty(), found.take(i)),
        found[i],
    ) == i by {
        let pre = found.take(i);
        assert(distinct(pre));
        lemma_resolve_all_distinct(pre);
        if pre.contains(found[i]) {
            let k = choose|k: int| 0 <= k < pre.len() && pre[k] == found[i];
            assert(found[k] == found[i]);
        }
    }
    assert forall|i: int| 0 <= i < found.len() implies resolved_identity(found, #[trigger] found[i])
        == i && after_resolve(found, found[i]) == found by {
        lemma_first_index_distinct(found, i);
        assert(found.contains(found[i]));
    }
}

/// Resolving two distinct addresses one after the other never yields the
/// same identity for both.
pub proof fn lemma_distinct_addresses_distinct_identities(
    s: Seq<DeviceAddress>,
    a: DeviceAddress,
    b: DeviceAddress,
)
    requires
        distinct(s),
        a != b,
    ensures
        resolved_identity(s, a) != resolved_identity(after_resolve(s, a), b),
{
    let s2 = after_resolve(s, a);
    let ia = resolved_identity(s, a);
    assert(0 <= ia < s2.len() && s2[ia] == a) by {
        if s.contains(a) {
            let k = choose|k: int| 0 <= k < s.len() && s[k] == a;
            lemma_first_index_distinct(s, k);
        }
    }
    match first_index(s2, b) {
        Some(j) => {
            let k = choose|k: int| 0 <= k < s2.len() && s2[k] == b;
            assert(s2[k] == b);
        },
        None => {},
    }
}

/// Once an address has an identity, resolving any address (itself or
/// another) leaves that identity unchanged, and resolving the address
/// itself again yields that identity.
pub proof fn lemma_identity_is_stable(s: Seq<DeviceAddress>, a: DeviceAddress, b: DeviceAddress)
    requires
        distinct(s),
        s.contains(a),
    ensures
        first_index(after_resolve(s, b), a) == first_index(s, a),
        resolved_identity(s, a) == first_index(s, a)->0,
{
    let k = choose|k: int| 0 <= k < s.len() && s[k] == a;
    lemma_first_index_distinct(s, k);
    let s2 = after_resolve(s, b);
    if !s.contains(b) {
        assert(s2[k] == a);
        assert(distinct(s2)) by {
            assert forall|i: int, j: int|
                0 <= i < s2.len() && 0 <= j < s2.len() && s2[i] == s2[j] implies i == j by {
                if i < s.len() && j == s.len() {
                    assert(s.contains(b));
                }
                if j < s.len() && i == s.len() {
                    assert(s.contains(b));
                }
            }
        }
        lemma_first_index_distinct(s2, k);
    }
}

impl<H> Registry<H> {
    /// The known addresses, in the order in which they were first registered.
    pub closed spec fn addresses(&self) -> Seq<DeviceAddress> {
        self.addresses@
    }

    /// The installed queue handles, by identity.
    pub closed spec fn queues(&self) -> Seq<Option<H>> {
        self.queues@
    }

    pub open spec fn wf(&self) -> bool {
        &&& self.addresses().len() == self.queues().len()
        &&& distinct(self.addresses())
    }

    /// The identity of `a`, if it is known.
    pub open spec fn identity_of(&self, a: DeviceAddress) -> Option<int> {
        first_index(self.addresses(), a)
    }

    /// An empty registry.
    pub fn new() -> (r: Self)
        ensures
            r.wf(),
            r.addresses() == Seq::<DeviceAddress>::empty(),
            r.queues() == Seq::<Option<H>>::empty(),
    {
        Registry { addresses: Vec::new(), queues: Vec::new() }
    }

    /// The number of known devices.
    pub fn len(&self) -> (r: usize)
        ensures
            r == self.addresses().len(),
    {
        self.addresses.len()
    }

    /// The identity of `address`, if it has one.
    pub fn find(&self, address: DeviceAddress) -> (r: Option<usize>)
        requires
            self.wf(),
        ensures
            match r {
                Some(i) => i < self.addresses().len() && self.addresses()[i as int] == address,
                None => !self.addresses().contains(address),
            },
            r.is_some() ==> self.identity_of(address) == Some(r.unwrap() as int),
            r.is_none() ==> self.identity_of(address).is_none(),
    {
        let mut i: usize = 0;
        while i < self.addresses.len()
            invariant
                self.wf(),
                i <= self.addresses@.len(),
                forall|j: int| 0 <= j < i ==> self.addresses@[j] != address,
            decreases self.addresses@.len() - i,
        {
            if self.addresses[i] == address {
                proof {
                    lemma_first_index_distinct(self.addresses@, i as int);
                }
                return Some(i);
            }
            i = i + 1;
        }
        None
    }

    /// The identity of `address`: its existing one if it is known, else the
    /// next one, which it is given by appending it.
    pub fn resolve_or_assign(&mut self, address: DeviceAddress) -> (r: usize)
        requires
            old(self).wf(),
        ensures
            final(self).wf(),
            old(self).addresses().contains(address) ==> {
                &&& final(self).addresses() == old(self).addresses()
                &&& final(self).queues() == old(self).queues()
                &&& old(self).identity_of(address) == Some(r as int)
            },
            !old(self).addresses().contains(address) ==> {
                &&& final(self).addresses() == old(self).addresses().push(address)
                &&& final(self).queues() == old(self).queues().push(None)
                &&& r == old(self).addresses().len()
            },
            final(self).identity_of(address) == Some(r as int),
            final(self).addresses() == after_resolve(old(self).addresses(), address),
            r == resolved_identity(old(self).addresses(), address),
    {
        match self.find(address) {
            Some(i) => {
                proof {
                    assert(self.addresses@[i as int] == address);
                }
                i
            },
            None => {
                let ghost prev = self.addresses@;
                self.addresses.push(address);
                self.queues.push(None);
                let n = self.addresses.len() - 1;
                proof {
                    assert(self.addresses@[n as int] == address);
                    assert forall|i: int, j: int|
                        0 <= i < self.addresses@.len() && 0 <= j < self.addresses@.len()
                            && self.addresses@[i] == self.addresses@[j] implies i == j by {
                        if i < n && j == n {
                            assert(prev.contains(address));
                        }
                        if j < n && i == n {
                            assert(prev.contains(address));
                        }
                    }
                    lemma_first_index_distinct(self.addresses@, n as int);
                    assert(!prev.contains(address));
                    assert(first_index(prev, address).is_none());
                }
                n
            },
        }
    }

    /// The address of the device with identity `identity`, if there is one.
    pub fn lookup_by_identity(&self, identity: usize) -> (r: Option<DeviceAddress>)
        ensures
            identity < self.addresses().len() ==> r == Some(self.addresses()[identity as int]),
            identity >= self.addresses().len() ==> r.is_none(),
    {
        if identity < self.addresses.len() {
            Some(self.addresses[identity])
        } else {
            None
        }
    }

    /// The queue handle installed for the device with identity `identity`, if any.
    pub fn queue_of_identity(&self, identity: usize) -> (r: Option<&H>)
        requires
            self.wf(),
        ensures
            identity >= self.queues().len() ==> r.is_none(),
            identity < self.queues().len() ==> match self.queues()[identity as int] {
                Some(h) => r == Some(&h),
                None => r.is_none(),
            },
    {
        if identity < self.queues.len() {
            match &self.queues[identity] {
                Some(h) => Some(h),
                None => None,
            }
        } else {
            None
        }
    }

    /// The queue handle installed for `address`, if it is known and has one.
    pub fn lookup_queue(&self, address: DeviceAddress) -> (r: Option<&H>)
        requires
            self.wf(),
        ensures
            match self.identity_of(address) {
                Some(i) => match self.queues()[i] {
                    Some(h) => r == Some(&h),
                    None => r.is_none(),
                },
                None => r.is_none(),
            },
    {
        match self.find(address) {
            Some(i) => self.queue_of_identity(i),
            None => None,
        }
    }

    /// Associates `handle` with `address`, replacing any earlier handle.
    /// Returns false, and changes nothing, where `address` is not known.
    pub fn install_queue(&mut self, address: DeviceAddress, handle: H) -> (r: bool)
        requires
            old(self).wf(),
        ensures
            final(self).wf(),
            final(self).addresses() == old(self).addresses(),
            r == old(self).addresses().contains(address),
            match old(self).identity_of(address) {
                Some(i) => final(self).queues() == old(self).queues().update(i, Some(handle)),
                None => final(self).queues() == old(self).queues(),
            },
    {
        match self.find(address) {
            Some(i) => {
                self.queues.set(i, Some(handle));
                true
            },
            None => false,
        }
    }

    /// Resolves the identity of `address` and installs `handle` as its queue,
    /// as one step: no state is left in which the identity exists without
    /// that handle.
    pub fn register(&mut self, address: DeviceAddress, handle: H) -> (r: usize)
        requires
            old(self).wf(),
        ensures
            final(self).wf(),
            final(self).addresses() == after_resolve(old(self).addresses(), address),
            r == resolved_identity(old(self).addresses(), address),
            final(self).identity_of(address) == Some(r as int),
            final(self).queues() == after_resolve_queues(old(self).addresses(), old(self).queues(), address).update(r as int, Some(handle)),
    {
        let r = self.resolve_or_assign(address);
        self.install_queue(address, handle);
        r
    }
}

} // verus!
