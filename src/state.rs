//! The published server address: a slot that starts empty and is filled at
//! most once, read by the query that the user interface makes.

use vstd::prelude::*;
use crate::decimal::{decimal_text, push_decimal};

verus! {

/// The base URL of a server listening on the loopback address at `port`.
pub open spec fn base_url_of(port: nat) -> Seq<char> {
    "http://127.0.0.1:"@ + decimal_text(port)
}

/// The address of a running server: its port and its base URL, which always
/// agree.
#[derive(Debug)]
pub struct ServerInfo {
    port: u16,
    base_url: String,
}

impl ServerInfo {
    #[verifier::type_invariant]
    spec fn well_formed(&self) -> bool {
        self.base_url@ == base_url_of(self.port as nat)
    }

    /// The port of this address.
    pub closed spec fn spec_port(&self) -> u16 {
        self.port
    }

    /// The address of a server listening on `127.0.0.1:<port>`.
    pub fn new(port: u16) -> (r: ServerInfo)
        ensures
            r.spec_port() == port,
    {
        let mut base_url = String::from_str("http://127.0.0.1:");
        push_decimal(&mut base_url, port as u64);
        ServerInfo { port, base_url }
    }

    /// The port.
    pub fn port(&self) -> (r: u16)
        ensures
            r == self.spec_port(),
    {
        self.port
    }

    /// The base URL, `http://127.0.0.1:<port>`.
    pub fn base_url(&self) -> (r: String)
        ensures
            r@ == base_url_of(self.spec_port() as nat),
    {
        proof {
            use_type_invariant(self);
        }
        self.base_url.clone()
    }
}

impl Clone for ServerInfo {
    fn clone(&self) -> (r: ServerInfo)
        ensures
            r.spec_port() == self.spec_port(),
    {
        proof {
            use_type_invariant(self);
        }
        ServerInfo { port: self.port, base_url: self.base_url.clone() }
    }
}

/// Why the query found no address.
#[derive(Clone, Copy, Debug, PartialEq, Eq)]
pub enum QueryError {
    /// Startup has not finished, or it failed.
    NotReady,
}

impl QueryError {
    /// The message shown to the caller of the query.
    pub fn message(&self) -> (r: &'static str)
        ensures
            r@ == "server not started"@,
    {
        "server not started"
    }
}

/// The slot after one publish: an empty slot takes the address, a filled one
/// keeps what it holds.
pub open spec fn after_publish(slot: Option<ServerInfo>, info: ServerInfo) -> Option<ServerInfo> {
    if slot is None {
        Some(info)
    } else {
        slot
    }
}

/// The slot after publishing each of `infos` in turn, starting empty.
pub open spec fn published_after(infos: Seq<ServerInfo>) -> Option<ServerInfo>
    decreases infos.len(),
{
    if infos.len() == 0 {
        None
    } else {
        after_publish(published_after(infos.drop_last()), infos.last())
    }
}

/// The shared published address. It starts empty; the first publish fills
/// it and later ones leave it unchanged.
pub struct PublishedState {
    slot: Option<ServerInfo>,
}

impl View for PublishedState {
    type V = Option<ServerInfo>;

    closed spec fn view(&self) -> Option<ServerInfo> {
        self.slot
    }
}

impl PublishedState {
    /// An empty slot.
    pub fn new() -> (r: PublishedState)
        ensures
            r@ is None,
    {
        PublishedState { slot: None }
    }

    /// Whether an address has been published.
    pub fn is_published(&self) -> (r: bool)
        ensures
            r == self@ is Some,
    {
        self.slot.is_some()
    }

    /// Publishes `info` if nothing was published yet; returns whether it was
    /// taken.
    pub fn publish(&mut self, info: ServerInfo) -> (r: bool)
        ensures
            r == old(self)@ is None,
            final(self)@ == after_publish(old(self)@, info),
    {
        if self.slot.is_none() {
            self.slot = Some(info);
            true
        } else {
            false
        }
    }

    /// The published base URL, or `NotReady` while nothing is published.
    pub fn server_base_url(&self) -> (r: Result<String, QueryError>)
        ensures
            self@ is None ==> r == Err::<String, QueryError>(QueryError::NotReady),
            self@ is Some ==> r is Ok && r->Ok_0@ == base_url_of(self@->0.spec_port() as nat),
    {
        match &self.slot {
            Some(info) => Ok(info.base_url()),
            None => Err(QueryError::NotReady),
        }
    }
}

/// Publishing is single-shot: starting empty, after any sequence of publishes
/// the slot is empty when there were none and otherwise holds the first
/// address, at every point after the first publish.
pub proof fn lemma_publish_single_shot(infos: Seq<ServerInfo>)
    ensures
        infos.len() == 0 ==> published_after(infos) is None,
        forall|k: int|
            0 < k <= infos.len() ==> #[trigger] published_after(infos.take(k)) == Some(infos[0]),
    decreases infos.len(),
{
    if infos.len() > 0 {
        lemma_publish_single_shot(infos.drop_last());
        assert forall|k: int| 0 < k <= infos.len() implies #[trigger] published_after(infos.take(k))
            == Some(infos[0]) by {
            if k < infos.len() {
                assert(infos.take(k) =~= infos.drop_last().take(k));
            } else {
                assert(infos.take(k) =~= infos);
                if infos.len() > 1 {
                    assert(infos.drop_last().take(infos.len() - 1) =~= infos.drop_last());
                } else {
                    assert(infos.drop_last() =~= Seq::<ServerInfo>::empty());
                }
            }
        }
    }
}

} // verus!
