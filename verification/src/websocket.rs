use vstd::prelude::*;

verus! {

/// A live push connection, as the hub sees it: one payload can be pushed,
/// and the push reports whether the peer accepted it. The transport behind
/// it is the implementer's concern, kept behind a shared handle.
pub trait Connection {
    /// Sends one payload; `true` means the peer accepted it, `false` that
    /// the connection is dead and must be pruned.
    fn send(&self, payload: &str) -> bool;
}

/// How a broadcast reshapes the registry: connection `i` of `conns` stays
/// exactly when `outcomes[i]` holds, and the survivors keep their order.
pub open spec fn mask_filter<C>(conns: Seq<C>, outcomes: Seq<bool>) -> Seq<C>
    decreases conns.len(),
{
    if conns.len() == 0 || outcomes.len() == 0 {
        Seq::empty()
    } else {
        let rest = mask_filter(conns.drop_last(), outcomes.drop_last());
        if outcomes.last() {
            rest.push(conns.last())
        } else {
            rest
        }
    }
}

/// A connection is among the survivors of a broadcast exactly when it sat
/// in some slot whose send succeeded.
pub proof fn lemma_mask_filter_membership<C>(conns: Seq<C>, outcomes: Seq<bool>, connection: C)
    requires
        conns.len() == outcomes.len(),
    ensures
        mask_filter(conns, outcomes).contains(connection) <==> exists|i: int|
            0 <= i < conns.len() && outcomes[i] && conns[i] == connection,
    decreases conns.len(),
{
    if conns.len() == 0 {
    } else {
        let rest = mask_filter(conns.drop_last(), outcomes.drop_last());
        lemma_mask_filter_membership(conns.drop_last(), outcomes.drop_last(), connection);
        if mask_filter(conns, outcomes).contains(connection) {
            if outcomes.last() && conns.last() == connection {
                assert(outcomes[conns.len() - 1] && conns[conns.len() - 1] == connection);
            } else {
                if outcomes.last() {
                    // the survivor list is rest.push(conns.last()); the witness
                    // sits in rest unless it is the pushed element
                    let k = choose|k: int|
                        0 <= k < mask_filter(conns, outcomes).len()
                            && mask_filter(conns, outcomes)[k] == connection;
                    if k < rest.len() {
                        assert(rest.contains(connection));
                    }
                } else {
                    assert(rest.contains(connection));
                }
                let i = choose|i: int|
                    0 <= i < conns.drop_last().len() && outcomes.drop_last()[i]
                        && conns.drop_last()[i] == connection;
                assert(0 <= i < conns.len() && outcomes[i] && conns[i] == connection);
            }
        }
        if exists|i: int| 0 <= i < conns.len() && outcomes[i] && conns[i] == connection {
            let i = choose|i: int| 0 <= i < conns.len() && outcomes[i] && conns[i] == connection;
            if i == conns.len() - 1 {
                assert(mask_filter(conns, outcomes).last() == connection);
            } else {
                assert(outcomes.drop_last()[i] && conns.drop_last()[i] == connection);
                assert(rest.contains(connection));
                let k = choose|k: int| 0 <= k < rest.len() && rest[k] == connection;
                assert(mask_filter(conns, outcomes)[k] == connection);
            }
        }
    }
}

/// A connection whose send failed is pruned: when every slot holding the
/// connection reported a failed send, the connection is absent from the
/// registry a broadcast leaves behind — and a broadcast only attempts the
/// connections then registered, so no later broadcast reaches it.
pub proof fn lemma_failed_connection_absent<C>(
    conns: Seq<C>,
    outcomes: Seq<bool>,
    connection: C,
)
    requires
        conns.len() == outcomes.len(),
        forall|i: int| 0 <= i < conns.len() && conns[i] == connection ==> !(#[trigger] outcomes[i]),
    ensures
        !mask_filter(conns, outcomes).contains(connection),
{
    lemma_mask_filter_membership(conns, outcomes, connection);
}

/// The broadcast hub: sole owner of every live push connection.
/// Connections are appended on registration and pruned the moment a send
/// to them fails.
pub struct WebSocketHandler<C> {
    pub websockets: Vec<C>,
}

impl<C: Connection> WebSocketHandler<C> {
    pub fn new() -> (handler: WebSocketHandler<C>)
        ensures
            handler.websockets@.len() == 0,
    {
        WebSocketHandler { websockets: Vec::new() }
    }

    /// Registers a live connection: appends it, touching no other entry.
    pub fn add_websocket(&mut self, websocket: C)
        ensures
            final(self).websockets@ == old(self).websockets@.push(websocket),
    {
        self.websockets.push(websocket);
    }

    /// Attempts to send `message` to every registered connection once, in
    /// registration order, then removes every connection whose send failed.
    /// The call never fails as a whole: outcome `i` reports what happened
    /// to connection `i`, and a dead viewer only loses its own feed.
    pub fn broadcast(&mut self, message: &str) -> (outcomes: Vec<bool>)
        ensures
            outcomes@.len() == old(self).websockets@.len(),
            final(self).websockets@ == mask_filter(old(self).websockets@, outcomes@),
            old(self).websockets@.len() == 0 ==> final(self).websockets@
                == old(self).websockets@,
    {
        let ghost orig: Seq<C> = self.websockets@;
        let mut outcomes: Vec<bool> = Vec::new();
        let mut healthy: Vec<C> = Vec::new();

        while self.websockets.len() > 0
            invariant
                orig.len() == outcomes@.len() + self.websockets@.len(),
                self.websockets@ == orig.skip(outcomes@.len() as int),
                healthy@ == mask_filter(orig.take(outcomes@.len() as int), outcomes@),
            decreases self.websockets@.len(),
        {
            let ghost k: int = outcomes@.len() as int;
            let ghost prev_outcomes: Seq<bool> = outcomes@;
            let ghost prev_healthy: Seq<C> = healthy@;
            let websocket = self.websockets.remove(0);
            proof {
                assert(websocket == orig[k]);
                assert(self.websockets@ =~= orig.skip(k + 1));
            }
            let ok = websocket.send(message);
            outcomes.push(ok);
            if ok {
                healthy.push(websocket);
            }
            proof {
                assert(outcomes@.drop_last() =~= prev_outcomes);
                assert(orig.take(k + 1).drop_last() =~= orig.take(k));
                assert(orig.take(k + 1).last() == orig[k]);
            }
        }

        proof {
            assert(orig.take(orig.len() as int) =~= orig);
        }
        self.websockets = healthy;
        outcomes
    }
}

} // verus!
