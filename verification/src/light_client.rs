//! The light-client chain registry: the verified state kept for a single
//! in-process light-client engine instance.
//!
//! The engine itself performs networking and delivers every chain's replies
//! on independent asynchronous streams; that half lives outside this crate.
//! The registry here makes the decisions: which chain registrations are
//! admissible (a parachain may only name relay chains that were registered
//! before it), which chain identifier a registration receives, which
//! envelope is submitted for a request, and which delivered reply answers
//! which chain's request.

use vstd::prelude::*;

use crate::error::Error;
use crate::params::RpcParams;
use crate::spec_json_req;
use crate::to_json_req;

verus! {

/// The live pairing of a registered chain with its response stream: holding
/// one is the proof that registration succeeded.
#[derive(Debug, Clone, Copy, PartialEq, Eq, Structural)]
pub struct SuccessChainConnection {
    /// The identifier the registry assigned to the chain.
    pub chain_id: u64,
}

/// A prepared JSON-RPC submission: the serialized envelope and the chain it
/// must be tagged with.
#[derive(Debug, Clone)]
pub struct RpcCall {
    pub payload: String,
    pub chain_id: u64,
}

/// What the engine reported for a chain registration: whether a response
/// stream came back with the new chain.
#[derive(Debug, Clone, Copy, PartialEq, Eq, Structural)]
pub enum AddChainOutcome {
    WithResponses,
    NoResponses,
}

/// The registry for one light-client engine instance.
///
/// Chain identifiers are assigned sequentially: the identifiers
/// `0 .. chain_count()` are exactly the chains registered so far, and each
/// registered chain owns a first-in-first-out buffer of replies that were
/// delivered from its response stream but not yet consumed.
#[derive(Debug)]
pub struct SmoldotLightClient {
    chains: Vec<Vec<String>>,
    current_conn: Option<SuccessChainConnection>,
}

impl SmoldotLightClient {
    /// How many chains have been registered.
    pub closed spec fn chain_count(self) -> nat {
        self.chains@.len()
    }

    /// The replies delivered for chain `c` and not yet consumed, oldest
    /// first.
    pub closed spec fn pending(self, c: int) -> Seq<Seq<char>> {
        self.chains@[c].deep_view()
    }

    /// The chain that subsequent requests are routed to, if one was
    /// selected.
    pub closed spec fn active_chain(self) -> Option<u64> {
        match self.current_conn {
            Some(c) => Some(c.chain_id),
            None => None,
        }
    }

    /// The selected chain, when present, was really registered.
    pub open spec fn wf(self) -> bool {
        match self.active_chain() {
            Some(c) => c < self.chain_count(),
            None => true,
        }
    }

    /// Registration left every previously registered chain, and the
    /// selection, untouched.
    pub open spec fn preserves_existing(self, post: Self) -> bool {
        &&& post.active_chain() == self.active_chain()
        &&& forall|j: int|
            0 <= j < self.chain_count() ==> post.pending(j) == self.pending(j)
    }

    /// A fresh registry with no chains and no selected connection.
    pub fn new() -> (r: Self)
        ensures
            r.chain_count() == 0,
            r.active_chain() is None,
            r.wf(),
    {
        SmoldotLightClient { chains: Vec::new(), current_conn: None }
    }

    /// The number of chains registered so far.
    pub fn registered_count(&self) -> (r: u64)
        ensures
            r == self.chain_count(),
    {
        self.chains.len() as u64
    }

    /// Whether every identifier in `ids` names an already-registered chain.
    pub open spec fn spec_ids_ok(self, ids: Seq<u64>) -> bool {
        forall|i: int| 0 <= i < ids.len() ==> ((#[trigger] ids[i]) as nat) < self.chain_count()
    }

    /// Whether every identifier a registration depends on names an
    /// already-registered chain; a registration that lists no relay chains
    /// depends on none.
    pub open spec fn spec_parents_ok(self, relay_chains: Option<Vec<u64>>) -> bool {
        match relay_chains {
            None => true,
            Some(ids) => self.spec_ids_ok(ids@),
        }
    }

    /// Checks a prospective registration's relay-chain list against the
    /// chains registered so far.
    pub fn parents_registered(&self, relay_chains: &Option<Vec<u64>>) -> (r: bool)
        ensures
            r == self.spec_parents_ok(*relay_chains),
    {
        match relay_chains {
            None => true,
            Some(ids) => {
                let mut i: usize = 0;
                while i < ids.len()
                    invariant
                        *relay_chains == Some(*ids),
                        i <= ids@.len(),
                        forall|j: int| 0 <= j < i ==> (ids@[j] as nat) < self.chain_count(),
                    decreases ids@.len() - i,
                {
                    if ids[i] >= self.chains.len() as u64 {
                        proof {
                            assert(!((ids@[i as int] as nat) < self.chain_count()));
                            assert(!self.spec_ids_ok(ids@));
                        }
                        return false;
                    }
                    i = i + 1;
                }
                true
            },
        }
    }

    /// Registers a chain.
    ///
    /// `relay_chains` lists the relay chains a parachain specification
    /// depends on; each entry must have been returned by a prior successful
    /// registration on this registry, otherwise the registration fails with
    /// an invalid-chain-specification error before anything is recorded.
    /// `outcome` is what the engine reported for the submission: a
    /// registration for which the engine produced no response stream is
    /// treated as a chain that could not be reached or validated, and also
    /// fails with an invalid-chain-specification error.
    ///
    /// On success the returned connection carries a fresh chain identifier:
    /// one strictly greater than every identifier handed out before.
    /// A failed registration names the rejected chain specification in its
    /// error message.
    pub fn connect_chain(
        &mut self,
        chain_spec: &str,
        relay_chains: &Option<Vec<u64>>,
        outcome: AddChainOutcome,
    ) -> (r: Result<SuccessChainConnection, Error>)
        requires
            old(self).wf(),
            old(self).chain_count() < u64::MAX,
        ensures
            final(self).wf(),
            !old(self).spec_parents_ok(*relay_chains) ==> {
                &&& r matches Err(e) && (e matches Error::InvalidChainSpec(m) && m@
                    == "Could not connect to the provided chain: "@ + chain_spec@)
                &&& *final(self) == *old(self)
            },
            old(self).spec_parents_ok(*relay_chains) && outcome is NoResponses ==> {
                &&& r matches Err(e) && (e matches Error::InvalidChainSpec(m) && m@
                    == "Could not connect to the provided chain: "@ + chain_spec@)
                &&& *final(self) == *old(self)
            },
            old(self).spec_parents_ok(*relay_chains) && outcome is WithResponses ==> {
                &&& r matches Ok(c) && c.chain_id == old(self).chain_count()
                &&& final(self).chain_count() == old(self).chain_count() + 1
                &&& final(self).pending(old(self).chain_count() as int) == Seq::<Seq<char>>::empty()
                &&& old(self).preserves_existing(*final(self))
            },
    {
        if !self.parents_registered(relay_chains) {
            return Err(
                Error::InvalidChainSpec(
                    String::from_str("Could not connect to the provided chain: ").concat(
                        chain_spec,
                    ),
                ),
            );
        }
        match outcome {
            AddChainOutcome::NoResponses => Err(
                Error::InvalidChainSpec(
                    String::from_str("Could not connect to the provided chain: ").concat(
                        chain_spec,
                    ),
                ),
            ),
            AddChainOutcome::WithResponses => {
                let chain_id = self.chains.len() as u64;
                self.chains.push(Vec::new());
                proof {
                    assert(self.pending(old(self).chain_count() as int)
                        =~= Seq::<Seq<char>>::empty());
                }
                Ok(SuccessChainConnection { chain_id })
            },
        }
    }

    /// Registers a relay chain: a registration that depends on no parent.
    pub fn connect_relaychain(&mut self, chain_spec: &str, outcome: AddChainOutcome) -> (r: Result<
        SuccessChainConnection,
        Error,
    >)
        requires
            old(self).wf(),
            old(self).chain_count() < u64::MAX,
        ensures
            final(self).wf(),
            outcome is NoResponses ==> {
                &&& r matches Err(e) && (e matches Error::InvalidChainSpec(m) && m@
                    == "Could not connect to the provided chain: "@ + chain_spec@)
                &&& *final(self) == *old(self)
            },
            outcome is WithResponses ==> {
                &&& r matches Ok(c) && c.chain_id == old(self).chain_count()
                &&& final(self).chain_count() == old(self).chain_count() + 1
                &&& final(self).pending(old(self).chain_count() as int) == Seq::<Seq<char>>::empty()
                &&& old(self).preserves_existing(*final(self))
            },
    {
        let parents: Option<Vec<u64>> = Some(Vec::new());
        proof {
            assert(self.spec_parents_ok(parents));
        }
        self.connect_chain(chain_spec, &parents, outcome)
    }

    /// Marks `connection` as the target for subsequent request calls on
    /// this registry handle.
    pub fn use_connection(&mut self, connection: SuccessChainConnection)
        requires
            old(self).wf(),
            connection.chain_id < old(self).chain_count(),
        ensures
            final(self).wf(),
            final(self).active_chain() == Some(connection.chain_id),
            final(self).chain_count() == old(self).chain_count(),
            forall|j: int|
                0 <= j < old(self).chain_count() ==> final(self).pending(j) == old(self).pending(
                    j,
                ),
    {
        self.current_conn = Some(connection);
    }

    /// Prepares the submission for one JSON-RPC call on the active
    /// connection: the serialized envelope, tagged with the active chain's
    /// identifier. Fails with a connection-closed error when no connection
    /// was selected. The reply is read back later through
    /// [`SmoldotLightClient::take_reply`].
    pub fn request_raw(&self, method: &str, params: RpcParams) -> (r: Result<RpcCall, Error>)
        requires
            self.wf(),
        ensures
            match self.active_chain() {
                None => r matches Err(e) && e is ConnectionClosed,
                Some(c) => r matches Ok(call) && call.chain_id == c && call.payload@
                    == spec_json_req(method@, params@),
            },
    {
        match &self.current_conn {
            None => Err(Error::ConnectionClosed),
            Some(conn) => {
                let payload = match to_json_req(method, params) {
                    Ok(p) => p,
                    Err(e) => {
                        return Err(e);
                    },
                };
                Ok(RpcCall { payload, chain_id: conn.chain_id })
            },
        }
    }

    /// Records a reply that arrived on chain `chain_id`'s response stream.
    /// Replies are kept in arrival order until a request consumes them.
    pub fn deliver(&mut self, chain_id: u64, reply: String)
        requires
            old(self).wf(),
            chain_id < old(self).chain_count(),
        ensures
            final(self).wf(),
            final(self).chain_count() == old(self).chain_count(),
            final(self).active_chain() == old(self).active_chain(),
            final(self).pending(chain_id as int) == old(self).pending(chain_id as int).push(
                reply@,
            ),
            forall|j: int|
                0 <= j < old(self).chain_count() && j != chain_id as int ==> final(self).pending(j)
                    == old(self).pending(j),
            spec_delivered(*old(self), *final(self), chain_id, reply@),
    {
        let n = self.chains.len();
        assert(chain_id < n);
        let c = chain_id as usize;
        let ghost gr = reply@;
        let mut slot = self.chains.remove(c);
        slot.push(reply);
        let ghost gslot = slot;
        self.chains.insert(c, slot);
        proof {
            broadcast use vstd::seq_lib::lemma_update_is_remove_insert;

            assert(self.chains@ == old(self).chains@.remove(c as int).insert(c as int, gslot));
            assert(self.chains@ =~= old(self).chains@.update(c as int, gslot));
            assert(gslot.deep_view() =~= old(self).chains@[c as int].deep_view().push(gr));
            assert(self.pending(c as int) =~= old(self).pending(c as int).push(gr));
            assert(forall|j: int|
                0 <= j < old(self).chain_count() && j != c as int ==> self.pending(j)
                    =~= old(self).pending(j));
        }
    }

    /// Consumes the oldest unconsumed reply of chain `chain_id`, if one has
    /// been delivered: the reply that answers the chain's oldest
    /// outstanding request under one-at-a-time use.
    pub fn take_reply(&mut self, chain_id: u64) -> (r: Option<String>)
        requires
            old(self).wf(),
            chain_id < old(self).chain_count(),
        ensures
            final(self).wf(),
            final(self).chain_count() == old(self).chain_count(),
            final(self).active_chain() == old(self).active_chain(),
            match r {
                None => old(self).pending(chain_id as int).len() == 0 && final(self).pending(
                    chain_id as int,
                ) == old(self).pending(chain_id as int),
                Some(reply) => {
                    &&& old(self).pending(chain_id as int).len() > 0
                    &&& reply@ == old(self).pending(chain_id as int)[0]
                    &&& final(self).pending(chain_id as int) == old(self).pending(
                        chain_id as int,
                    ).drop_first()
                },
            },
            forall|j: int|
                0 <= j < old(self).chain_count() && j != chain_id as int ==> final(self).pending(j)
                    == old(self).pending(j),
            spec_taken(*old(self), *final(self), chain_id, match r {
                None => None,
                Some(reply) => Some(reply@),
            }),
    {
        let n = self.chains.len();
        assert(chain_id < n);
        let c = chain_id as usize;
        let mut slot = self.chains.remove(c);
        if slot.len() == 0 {
            let ghost gslot = slot;
            self.chains.insert(c, slot);
            proof {
                broadcast use vstd::seq_lib::lemma_update_is_remove_insert;

                assert(gslot == old(self).chains@[c as int]);
                assert(self.chains@ =~= old(self).chains@.update(c as int, gslot));
                assert(self.chains@ =~= old(self).chains@);
                assert(forall|j: int|
                    0 <= j < old(self).chain_count() ==> self.pending(j) =~= old(self).pending(j));
            }
            return None;
        }
        let reply = slot.remove(0);
        let ghost gslot = slot;
        self.chains.insert(c, slot);
        proof {
            broadcast use vstd::seq_lib::lemma_update_is_remove_insert;

            assert(self.chains@ == old(self).chains@.remove(c as int).insert(c as int, gslot));
            assert(self.chains@ =~= old(self).chains@.update(c as int, gslot));
            assert(gslot.deep_view() =~= old(self).chains@[c as int].deep_view().drop_first());
            assert(reply@ == old(self).pending(c as int)[0]);
            assert(self.pending(c as int) =~= old(self).pending(c as int).drop_first());
            assert(forall|j: int|
                0 <= j < old(self).chain_count() && j != c as int ==> self.pending(j)
                    =~= old(self).pending(j));
        }
        Some(reply)
    }
}

/// The transition [`SmoldotLightClient::deliver`] makes: one reply is
/// appended to chain `c`'s buffer and nothing else changes.
pub open spec fn spec_delivered(pre: SmoldotLightClient, post: SmoldotLightClient, c: u64, reply: Seq<char>) -> bool {
    &&& post.chain_count() == pre.chain_count()
    &&& post.active_chain() == pre.active_chain()
    &&& post.pending(c as int) == pre.pending(c as int).push(reply)
    &&& forall|j: int|
        0 <= j < pre.chain_count() && j != c as int ==> post.pending(j) == pre.pending(j)
}

/// The transition [`SmoldotLightClient::take_reply`] makes: the oldest
/// reply of chain `c`'s buffer is consumed (or nothing changes when the
/// buffer is empty) and no other chain is touched.
pub open spec fn spec_taken(pre: SmoldotLightClient, post: SmoldotLightClient, c: u64, got: Option<Seq<char>>) -> bool {
    &&& post.chain_count() == pre.chain_count()
    &&& post.active_chain() == pre.active_chain()
    &&& match got {
        None => pre.pending(c as int).len() == 0 && post.pending(c as int) == pre.pending(c as int),
        Some(reply) => pre.pending(c as int).len() > 0 && reply == pre.pending(c as int)[0]
            && post.pending(c as int) == pre.pending(c as int).drop_first(),
    }
    &&& forall|j: int|
        0 <= j < pre.chain_count() && j != c as int ==> post.pending(j) == pre.pending(j)
}

/// Round-trip correctness under serialized use: starting with no reply
/// outstanding on chain `c`, a first call whose reply `r1` is delivered and
/// consumed receives exactly `r1`, and a second call whose reply `r2` is
/// then delivered and consumed receives exactly `r2` — each call gets its
/// own result, never the other's, and the buffer ends empty again.
pub proof fn lemma_serialized_requests_round_trip(
    s0: SmoldotLightClient,
    s1: SmoldotLightClient,
    s2: SmoldotLightClient,
    s3: SmoldotLightClient,
    s4: SmoldotLightClient,
    c: u64,
    r1: Seq<char>,
    r2: Seq<char>,
    got1: Option<Seq<char>>,
    got2: Option<Seq<char>>,
)
    requires
        s0.active_chain() == Some(c),
        s0.pending(c as int).len() == 0,
        spec_delivered(s0, s1, c, r1),
        spec_taken(s1, s2, c, got1),
        spec_delivered(s2, s3, c, r2),
        spec_taken(s3, s4, c, got2),
    ensures
        got1 == Some(r1),
        got2 == Some(r2),
        s4.pending(c as int).len() == 0,
        s4.active_chain() == Some(c),
{
    assert(s1.pending(c as int) =~= seq![r1]);
    assert(s1.pending(c as int)[0] == r1);
    assert(got1 matches Some(g) && g == r1) by {
        assert(s1.pending(c as int).len() > 0);
    }
    assert(s2.pending(c as int) =~= Seq::<Seq<char>>::empty());
    assert(s3.pending(c as int) =~= seq![r2]);
    assert(got2 matches Some(g) && g == r2) by {
        assert(s3.pending(c as int).len() > 0);
    }
    assert(s4.pending(c as int) =~= Seq::<Seq<char>>::empty());
}

/// A single-chain light-client provider: the verified handle kept once a
/// chain registration has succeeded. The engine construction and the
/// submission of the chain specification happen outside this crate; this
/// handle carries the resulting connection.
#[derive(Debug, Clone, Copy)]
pub struct ScProvider {
    conn: Option<SuccessChainConnection>,
}

impl ScProvider {
    /// The connection this provider targets, if registration succeeded.
    pub closed spec fn spec_conn(self) -> Option<SuccessChainConnection> {
        self.conn
    }

    /// A provider for an established chain connection.
    pub fn new(connection: SuccessChainConnection) -> (r: Self)
        ensures
            r.spec_conn() == Some(connection),
    {
        ScProvider { conn: Some(connection) }
    }

    /// The identifier of the chain this provider targets.
    pub fn id(&self) -> (r: u64)
        requires
            self.spec_conn() is Some,
        ensures
            Some(r) == (match self.spec_conn() {
                Some(conn) => Some(conn.chain_id),
                None => None,
            }),
    {
        match &self.conn {
            Some(conn) => conn.chain_id,
            None => {
                proof {
                    assert(false);
                }
                0
            },
        }
    }

    /// The in-process engine needs no separate connection step.
    pub fn connect(&mut self) -> (r: Result<(), Error>)
        ensures
            *final(self) == *old(self),
            r is Ok,
    {
        Ok(())
    }

    /// No real teardown exists for a chain registration, so disconnecting
    /// reports an explicit unsupported failure rather than silently
    /// succeeding.
    pub fn disconnect(&mut self) -> (r: Result<(), Error>)
        ensures
            *final(self) == *old(self),
            r matches Err(e) && (e matches Error::Client(m) && m@
                == crate::providers::spec_unsupported_disconnect()),
    {
        proof {
            reveal_strlit("disconnect is not supported for this transport");
        }
        Err(Error::Client(String::from_str("disconnect is not supported for this transport")))
    }
}

impl crate::providers::ProviderInterface for ScProvider {
    fn connect(&mut self) -> Result<(), Error> {
        Ok(())
    }

    fn disconnect(&mut self) -> Result<(), Error> {
        proof {
            reveal_strlit("disconnect is not supported for this transport");
        }
        Err(Error::Client(String::from_str("disconnect is not supported for this transport")))
    }
}

} // verus!
