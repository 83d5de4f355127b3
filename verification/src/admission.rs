use vstd::prelude::*;

verus! {

/// Decision on a freshly established connection.
#[derive(Clone, Copy, Debug, PartialEq, Eq, Structural)]
pub enum AdmissionAction {
    /// No peer was connected: the newcomer is kept.
    Accepted,
    /// A peer was already connected: the newcomer (carrying this handle) is
    /// actively disconnected, preserving the existing connection.
    DisconnectNewest(u16),
}

/// The connect decision over the handles of the already connected peers.
pub open spec fn spec_on_connect(handles: Seq<u16>, handle: u16) -> (Seq<u16>, AdmissionAction) {
    (
        handles.push(handle),
        if handles.len() == 0 {
            AdmissionAction::Accepted
        } else {
            AdmissionAction::DisconnectNewest(handle)
        },
    )
}

/// The disconnect bookkeeping: the handle's record is removed.
pub open spec fn spec_on_disconnect(handles: Seq<u16>, handle: u16) -> Seq<u16> {
    handles.remove_value(handle)
}

/// Tracks the handles of the currently connected peers, in connection order,
/// and enforces the admission policy: at most one concurrent connection.
pub struct AdmissionController {
    handles: Vec<u16>,
}

impl AdmissionController {
    /// Handles of the currently connected peers, oldest connection first.
    pub closed spec fn connections(self) -> Seq<u16> {
        self.handles@
    }

    /// Connection handles are distinct: the stack never hands out the same
    /// handle to two live connections.
    pub open spec fn well_formed(self) -> bool {
        forall|i: int, j: int|
            0 <= i < j < self.connections().len() ==> self.connections()[i]
                != self.connections()[j]
    }

    /// No peer connected yet.
    pub fn new() -> (c: Self)
        ensures
            c.well_formed(),
            c.connections() == Seq::<u16>::empty(),
    {
        AdmissionController { handles: Vec::new() }
    }

    /// Number of currently connected peers.
    pub fn connected_count(&self) -> (n: usize)
        ensures
            n == self.connections().len(),
    {
        self.handles.len()
    }

    /// Whether this handle is currently registered: the caller's way to test
    /// `on_connect`'s precondition.
    pub fn knows_handle(&self, handle: u16) -> (b: bool)
        ensures
            b == self.connections().contains(handle),
    {
        let mut i: usize = 0;
        while i < self.handles.len()
            invariant
                i <= self.handles@.len(),
                forall|k: int| 0 <= k < i ==> self.handles@[k] != handle,
            decreases self.handles@.len() - i,
        {
            if self.handles[i] == handle {
                return true;
            }
            i += 1;
        }
        proof {
            assert(!self.handles@.contains(handle)) by {
                if self.handles@.contains(handle) {
                    let w = choose|w: int|
                        0 <= w < self.handles@.len() && self.handles@[w] == handle;
                    assert(self.handles@[w] != handle);
                }
            }
        }
        false
    }

    /// A connect event: the connection already exists at the stack level, so
    /// the handle is recorded; if another peer was already connected, the
    /// caller is told to disconnect the newcomer.
    pub fn on_connect(&mut self, handle: u16) -> (a: AdmissionAction)
        requires
            old(self).well_formed(),
            !old(self).connections().contains(handle),
        ensures
            final(self).well_formed(),
            (final(self).connections(), a) == spec_on_connect(old(self).connections(), handle),
            final(self).connections() == old(self).connections().push(handle),
            (a == AdmissionAction::Accepted) <==> old(self).connections().len() == 0,
            (a == AdmissionAction::DisconnectNewest(handle)) <==> old(self).connections().len()
                > 0,
    {
        self.handles.push(handle);
        let a = if self.handles.len() > 1 {
            AdmissionAction::DisconnectNewest(handle)
        } else {
            AdmissionAction::Accepted
        };
        proof {
            let post = self.handles@;
            let pre = old(self).handles@;
            assert forall|i: int, j: int| 0 <= i < j < post.len() implies post[i] != post[j] by {
                if j == post.len() - 1 {
                    assert(pre[i] == post[i]);
                    assert(!pre.contains(post[j]));
                }
            }
        }
        a
    }

    /// A disconnect event (a peer left, or the ordered disconnect of a
    /// rejected newcomer completed): the handle's record is removed; a
    /// handle never seen changes nothing.
    pub fn on_disconnect(&mut self, handle: u16)
        requires
            old(self).well_formed(),
        ensures
            final(self).well_formed(),
            final(self).connections() == spec_on_disconnect(old(self).connections(), handle),
            !old(self).connections().contains(handle) ==> final(self).connections() == old(self).connections(),
            old(self).connections().contains(handle) ==> final(self).connections().len() == old(self).connections().len() - 1,
            old(self).connections().contains(handle) ==> (exists|i: int|
                0 <= i < old(self).connections().len() && old(self).connections()[i] == handle
                    && final(self).connections() == old(self).connections().remove(i)),
    {
        let ghost pre = self.handles@;
        proof {
            assert forall|p: int, q: int| 0 <= p < q < pre.len() implies pre[p] != pre[q] by {
                assert(old(self).connections()[p] != old(self).connections()[q]);
            }
        }
        let mut i: usize = 0;
        while i < self.handles.len()
            invariant
                i <= self.handles@.len(),
                self.handles@ == pre,
                pre == old(self).connections(),
                forall|p: int, q: int| 0 <= p < q < pre.len() ==> pre[p] != pre[q],
                forall|k: int| 0 <= k < i ==> pre[k] != handle,
            decreases self.handles@.len() - i,
        {
            if self.handles[i] == handle {
                proof {
                    assert(pre[i as int] == handle);
                }
                self.handles.remove(i);
                proof {
                    pre.index_of_first_ensures(handle);
                    assert(pre.contains(handle));
                    let fi = pre.index_of_first(handle).unwrap();
                    assert(pre[fi] == handle);
                    if fi < i as int {
                        assert(pre[fi] != handle);
                    }
                    if fi > i as int {
                        assert(pre[i as int] != handle);
                    }
                    assert(fi == i as int);
                    let post = pre.remove(i as int);
                    assert(self.handles@ == post);
                    pre.remove_ensures(i as int);
                    assert forall|a: int, b: int|
                        0 <= a < b < post.len() implies post[a] != post[b] by {
                        if b < i as int {
                            assert(post[a] == pre[a]);
                            assert(post[b] == pre[b]);
                        } else if a < i as int {
                            assert(post[a] == pre[a]);
                            assert(post[b] == pre[b + 1]);
                        } else {
                            assert(post[a] == pre[a + 1]);
                            assert(post[b] == pre[b + 1]);
                        }
                    }
                }
                return ;
            }
            i += 1;
        }
        proof {
            assert(!pre.contains(handle)) by {
                if pre.contains(handle) {
                    let w = choose|w: int| 0 <= w < pre.len() && pre[w] == handle;
                    assert(pre[w] != handle);
                }
            }
            pre.index_of_first_ensures(handle);
        }
    }
}

/// Admission-limit law: with exactly one peer connected, a second connect
/// attempt is ordered disconnected, and once that disconnect completes
/// exactly the original connection remains active.
pub proof fn lemma_admission_limit(existing: u16, newcomer: u16)
    requires
        existing != newcomer,
    ensures
        ({
            let (after_connect, a) = spec_on_connect(seq![existing], newcomer);
            let after_disconnect = spec_on_disconnect(after_connect, newcomer);
            &&& a == AdmissionAction::DisconnectNewest(newcomer)
            &&& after_disconnect =~= seq![existing]
            &&& after_disconnect.len() == 1
        }),
{
    let s1 = seq![existing].push(newcomer);
    s1.index_of_first_ensures(newcomer);
    assert(s1[1] == newcomer);
    assert(s1.contains(newcomer));
    let fi = s1.index_of_first(newcomer).unwrap();
    assert(s1[fi] == newcomer);
    assert(fi == 1);
    assert(s1.remove(1) =~= seq![existing]);
}

} // verus!
