//! The two block-list tables read by the pipeline.
//!
//! One table holds blocked IPv4 addresses, the other blocked UDP
//! ports. Each is an exact-match table of bounded capacity, written by
//! the control plane and only read by the per-frame pipeline. Lookups
//! are fail-open: a key that was never inserted, or that could not be
//! inserted because the table was full, is reported as not blocked.
//! The two tables are independent; no semantics couple them.

use vstd::prelude::*;

verus! {

broadcast use vstd::set::group_set_axioms;

/// Documented capacity of each block-list table.
pub const BLOCKLIST_CAPACITY: usize = 1024;

/// The table of blocked IPv4 addresses. The view is the set of
/// addresses it holds.
pub struct Blocklist {
    entries: Vec<u32>,
}

/// The table of blocked UDP ports. The view is the set of ports it
/// holds.
pub struct PortBlocklist {
    entries: Vec<u16>,
}

impl View for Blocklist {
    type V = Set<u32>;

    closed spec fn view(&self) -> Set<u32> {
        self.entries@.to_set()
    }
}

impl View for PortBlocklist {
    type V = Set<u16>;

    closed spec fn view(&self) -> Set<u16> {
        self.entries@.to_set()
    }
}

impl Blocklist {
    /// Table validity: entries are pairwise distinct and within
    /// capacity, so the view's cardinality is the entry count.
    pub closed spec fn wf(&self) -> bool {
        &&& self.entries@.no_duplicates()
        &&& self.entries@.len() <= BLOCKLIST_CAPACITY
    }

    /// An empty table.
    pub fn new() -> (r: Blocklist)
        ensures
            r.wf(),
            r@ == Set::<u32>::empty(),
    {
        let r = Blocklist { entries: Vec::new() };
        proof {
            assert(r@ =~= Set::<u32>::empty());
        }
        r
    }

    /// Exact-match lookup: whether the address is in the table.
    pub fn is_blocked_address(&self, address: u32) -> (r: bool)
        ensures
            r == self@.contains(address),
    {
        let n = self.entries.len();
        let mut k: usize = 0;
        while k < n
            invariant
                k <= n,
                n == self.entries@.len(),
                forall|j: int| 0 <= j < k ==> self.entries@[j] != address,
            decreases n - k,
        {
            if self.entries[k] == address {
                return true;
            }
            k += 1;
        }
        false
    }

    /// Control-plane insert. An address already present is kept as it
    /// is; a new address is added while the table has room. Returns
    /// whether the address is in the table afterwards; a full table
    /// leaves the address out (lookups on it stay fail-open).
    pub fn insert(&mut self, address: u32) -> (r: bool)
        requires
            old(self).wf(),
        ensures
            final(self).wf(),
            old(self)@.contains(address) ==> r && final(self)@ == old(self)@,
            !old(self)@.contains(address) && old(self)@.len() < BLOCKLIST_CAPACITY ==> r && final(self)@ == old(self)@.insert(address),
            !old(self)@.contains(address) && old(self)@.len() >= BLOCKLIST_CAPACITY ==> !r && final(self)@ == old(self)@,
    {
        proof {
            self.entries@.unique_seq_to_set();
        }
        if self.is_blocked_address(address) {
            return true;
        }
        if self.entries.len() < BLOCKLIST_CAPACITY {
            self.entries.push(address);
            proof {
                assert(self.entries@.last() == address);
                assert forall|y: u32| self@.contains(y) <==> old(self)@.insert(address).contains(
                    y,
                ) by {
                    if self@.contains(y) {
                        let j = choose|j: int|
                            0 <= j < self.entries@.len() && self.entries@[j] == y;
                        if j < old(self).entries@.len() {
                            assert(old(self).entries@[j] == y);
                        }
                    } else if old(self)@.contains(y) {
                        let j = choose|j: int|
                            0 <= j < old(self).entries@.len() && old(self).entries@[j] == y;
                        assert(self.entries@[j] == y);
                    }
                }
                assert(self@ =~= old(self)@.insert(address));
            }
            true
        } else {
            false
        }
    }

    /// Control-plane removal of an address; removing an absent address
    /// changes nothing.
    pub fn remove(&mut self, address: u32) -> (r: bool)
        requires
            old(self).wf(),
        ensures
            final(self).wf(),
            final(self)@ == old(self)@.remove(address),
            r == old(self)@.contains(address),
    {
        let ghost pre = self.entries@;
        let n = self.entries.len();
        let mut k: usize = 0;
        while k < n
            invariant
                k <= n,
                n == self.entries@.len(),
                self.entries@ == pre,
                pre == old(self).entries@,
                old(self).wf(),
                forall|j: int| 0 <= j < k ==> self.entries@[j] != address,
            decreases n - k,
        {
            if self.entries[k] == address {
                self.entries.remove(k);
                proof {
                    pre.remove_ensures(k as int);
                    assert forall|y: u32|
                        self@.contains(y) <==> old(self)@.remove(address).contains(y) by {
                        if self@.contains(y) {
                            let j = choose|j: int|
                                0 <= j < self.entries@.len() && self.entries@[j] == y;
                            let m: int = if j < k { j } else { j + 1 };
                            assert(pre.remove(k as int)[j] == pre[m]);
                            assert(pre[m] != pre[k as int]);
                        } else if old(self)@.remove(address).contains(y) {
                            assert(pre.to_set().contains(y));
                            let j = choose|j: int| 0 <= j < pre.len() && pre[j] == y;
                            assert(j != k);
                            if j < k {
                                assert(pre.remove(k as int)[j] == pre[j]);
                            } else {
                                assert(pre.remove(k as int)[j - 1] == pre[j]);
                            }
                        }
                    }
                    assert(self@ =~= old(self)@.remove(address));
                    assert forall|i1: int, i2: int|
                        0 <= i1 < self.entries@.len() && 0 <= i2 < self.entries@.len() && i1
                            != i2 implies self.entries@[i1] != self.entries@[i2] by {
                        let m1: int = if i1 < k { i1 } else { i1 + 1 };
                        let m2: int = if i2 < k { i2 } else { i2 + 1 };
                        assert(pre.remove(k as int)[i1] == pre[m1]);
                        assert(pre.remove(k as int)[i2] == pre[m2]);
                    }
                }
                return true;
            }
            k += 1;
        }
        proof {
            assert(!self@.contains(address));
            assert(self@ =~= old(self)@.remove(address));
        }
        false
    }
}

impl PortBlocklist {
    /// Table validity: entries are pairwise distinct and within
    /// capacity, so the view's cardinality is the entry count.
    pub closed spec fn wf(&self) -> bool {
        &&& self.entries@.no_duplicates()
        &&& self.entries@.len() <= BLOCKLIST_CAPACITY
    }

    /// An empty table.
    pub fn new() -> (r: PortBlocklist)
        ensures
            r.wf(),
            r@ == Set::<u16>::empty(),
    {
        let r = PortBlocklist { entries: Vec::new() };
        proof {
            assert(r@ =~= Set::<u16>::empty());
        }
        r
    }

    /// Exact-match lookup: whether the port is in the table.
    pub fn is_blocked_port(&self, port: u16) -> (r: bool)
        ensures
            r == self@.contains(port),
    {
        let n = self.entries.len();
        let mut k: usize = 0;
        while k < n
            invariant
                k <= n,
                n == self.entries@.len(),
                forall|j: int| 0 <= j < k ==> self.entries@[j] != port,
            decreases n - k,
        {
            if self.entries[k] == port {
                return true;
            }
            k += 1;
        }
        false
    }

    /// Control-plane insert. A port already present is kept as it is;
    /// a new port is added while the table has room. Returns whether
    /// the port is in the table afterwards; a full table leaves the
    /// port out (lookups on it stay fail-open).
    pub fn insert(&mut self, port: u16) -> (r: bool)
        requires
            old(self).wf(),
        ensures
            final(self).wf(),
            old(self)@.contains(port) ==> r && final(self)@ == old(self)@,
            !old(self)@.contains(port) && old(self)@.len() < BLOCKLIST_CAPACITY ==> r && final(self)@ == old(self)@.insert(port),
            !old(self)@.contains(port) && old(self)@.len() >= BLOCKLIST_CAPACITY ==> !r && final(self)@ == old(self)@,
    {
        proof {
            self.entries@.unique_seq_to_set();
        }
        if self.is_blocked_port(port) {
            return true;
        }
        if self.entries.len() < BLOCKLIST_CAPACITY {
            self.entries.push(port);
            proof {
                assert(self.entries@.last() == port);
                assert forall|y: u16| self@.contains(y) <==> old(self)@.insert(port).contains(
                    y,
                ) by {
                    if self@.contains(y) {
                        let j = choose|j: int|
                            0 <= j < self.entries@.len() && self.entries@[j] == y;
                        if j < old(self).entries@.len() {
                            assert(old(self).entries@[j] == y);
                        }
                    } else if old(self)@.contains(y) {
                        let j = choose|j: int|
                            0 <= j < old(self).entries@.len() && old(self).entries@[j] == y;
                        assert(self.entries@[j] == y);
                    }
                }
                assert(self@ =~= old(self)@.insert(port));
            }
            true
        } else {
            false
        }
    }

    /// Control-plane removal of a port; removing an absent port
    /// changes nothing.
    pub fn remove(&mut self, port: u16) -> (r: bool)
        requires
            old(self).wf(),
        ensures
            final(self).wf(),
            final(self)@ == old(self)@.remove(port),
            r == old(self)@.contains(port),
    {
        let ghost pre = self.entries@;
        let n = self.entries.len();
        let mut k: usize = 0;
        while k < n
            invariant
                k <= n,
                n == self.entries@.len(),
                self.entries@ == pre,
                pre == old(self).entries@,
                old(self).wf(),
                forall|j: int| 0 <= j < k ==> self.entries@[j] != port,
            decreases n - k,
        {
            if self.entries[k] == port {
                self.entries.remove(k);
                proof {
                    pre.remove_ensures(k as int);
                    assert forall|y: u16|
                        self@.contains(y) <==> old(self)@.remove(port).contains(y) by {
                        if self@.contains(y) {
                            let j = choose|j: int|
                                0 <= j < self.entries@.len() && self.entries@[j] == y;
                            let m: int = if j < k { j } else { j + 1 };
                            assert(pre.remove(k as int)[j] == pre[m]);
                            assert(pre[m] != pre[k as int]);
                        } else if old(self)@.remove(port).contains(y) {
                            assert(pre.to_set().contains(y));
                            let j = choose|j: int| 0 <= j < pre.len() && pre[j] == y;
                            assert(j != k);
                            if j < k {
                                assert(pre.remove(k as int)[j] == pre[j]);
                            } else {
                                assert(pre.remove(k as int)[j - 1] == pre[j]);
                            }
                        }
                    }
                    assert(self@ =~= old(self)@.remove(port));
                    assert forall|i1: int, i2: int|
                        0 <= i1 < self.entries@.len() && 0 <= i2 < self.entries@.len() && i1
                            != i2 implies self.entries@[i1] != self.entries@[i2] by {
                        let m1: int = if i1 < k { i1 } else { i1 + 1 };
                        let m2: int = if i2 < k { i2 } else { i2 + 1 };
                        assert(pre.remove(k as int)[i1] == pre[m1]);
                        assert(pre.remove(k as int)[i2] == pre[m2]);
                    }
                }
                return true;
            }
            k += 1;
        }
        proof {
            assert(!self@.contains(port));
            assert(self@ =~= old(self)@.remove(port));
        }
        false
    }
}


/// A key never inserted is never reported blocked: a fresh table's
/// view holds nothing, and an insert reaches no key but its own, so
/// no sequence of inserts of other keys makes a lookup of `probe`
/// succeed.
pub proof fn lemma_lookup_misses_uninserted(table: Set<u32>, inserted: u32, probe: u32)
    requires
        !table.contains(probe),
        inserted != probe,
    ensures
        !Set::<u32>::empty().contains(probe),
        !table.insert(inserted).contains(probe),
{
}

} // verus!
