//! The clipboard registry: the one shared owner of the current clipboard value
//! and of the set of connected sessions.

use std::collections::HashSet;
use vstd::prelude::*;
use vstd::std_specs::iter::IteratorSpec;

verus! {

broadcast use vstd::std_specs::hash::group_hash_axioms;

/// Identifier of one connected session.
pub type ClientId = usize;

/// What a registry holds, as mathematics: the clipboard text and the set of
/// sessions that are registered at this moment.
pub struct RegistryModel {
    pub content: Seq<char>,
    pub clients: Set<ClientId>,
}

impl RegistryModel {
    /// The registry of a fresh process that starts with `content`.
    pub open spec fn initial(content: Seq<char>) -> RegistryModel {
        RegistryModel { content, clients: Set::empty() }
    }

    /// The registry after session `id` has registered.
    pub open spec fn register(self, id: ClientId) -> RegistryModel {
        RegistryModel { content: self.content, clients: self.clients.insert(id) }
    }

    /// The registry after session `id` has unregistered.
    pub open spec fn unregister(self, id: ClientId) -> RegistryModel {
        RegistryModel { content: self.content, clients: self.clients.remove(id) }
    }

    /// The registry after the clipboard has been replaced by `content`.
    pub open spec fn update(self, content: Seq<char>) -> RegistryModel {
        RegistryModel { content, clients: self.clients }
    }

    /// The clipboard text a reader sees.
    pub open spec fn read(self) -> Seq<char> {
        self.content
    }

    /// The registry after one membership change.
    pub open spec fn apply(self, op: MembershipOp) -> RegistryModel {
        match op {
            MembershipOp::Register(id) => self.register(id),
            MembershipOp::Unregister(id) => self.unregister(id),
        }
    }

    /// The registry after the membership changes `ops`, first to last.
    pub open spec fn replay(self, ops: Seq<MembershipOp>) -> RegistryModel
        decreases ops.len(),
    {
        if ops.len() == 0 {
            self
        } else {
            self.replay(ops.drop_last()).apply(ops.last())
        }
    }
}

/// One change of membership: a session registers or unregisters.
pub enum MembershipOp {
    Register(ClientId),
    Unregister(ClientId),
}

/// `id` is net-registered by `ops`: it registers somewhere in `ops` and does
/// not unregister after that.
pub open spec fn net_registered(ops: Seq<MembershipOp>, id: ClientId) -> bool {
    exists|i: int|
        0 <= i < ops.len() && #[trigger] ops[i] == MembershipOp::Register(id) && forall|j: int|
            i < j < ops.len() ==> #[trigger] ops[j] != MembershipOp::Unregister(id)
}

/// After any run of registrations and unregistrations on a fresh registry the
/// registered set is finite and holds exactly the net-registered ids, so its
/// size is their number.
pub proof fn lemma_membership_counts_net_registrations(content: Seq<char>, ops: Seq<MembershipOp>)
    ensures
        RegistryModel::initial(content).replay(ops).clients.finite(),
        RegistryModel::initial(content).replay(ops).clients == Set::new(
            |id: ClientId| net_registered(ops, id),
        ),
        RegistryModel::initial(content).replay(ops).clients.len() == Set::new(
            |id: ClientId| net_registered(ops, id),
        ).len(),
    decreases ops.len(),
{
    let start = RegistryModel::initial(content);
    let net = Set::new(|id: ClientId| net_registered(ops, id));
    if ops.len() == 0 {
        assert(start.replay(ops).clients =~= net);
    } else {
        let before = ops.drop_last();
        let n = before.len() as int;
        lemma_membership_counts_net_registrations(content, before);
        let earlier = start.replay(before).clients;
        assert forall|id: ClientId| start.replay(ops).clients.contains(id) == net_registered(
            ops,
            id,
        ) by {
            if net_registered(before, id) {
                let i = choose|i: int|
                    0 <= i < before.len() && #[trigger] before[i] == MembershipOp::Register(id)
                        && forall|j: int|
                        i < j < before.len() ==> #[trigger] before[j] != MembershipOp::Unregister(
                            id,
                        );
                assert(ops[i] == before[i]);
                if ops.last() != MembershipOp::Unregister(id) {
                    assert forall|j: int| i < j < ops.len() implies #[trigger] ops[j]
                        != MembershipOp::Unregister(id) by {
                        if j < n {
                            assert(ops[j] == before[j]);
                        }
                    }
                }
            }
            if ops.last() == MembershipOp::Register(id) {
                assert(ops[n] == MembershipOp::Register(id));
            }
            if net_registered(ops, id) {
                let i = choose|i: int|
                    0 <= i < ops.len() && #[trigger] ops[i] == MembershipOp::Register(id)
                        && forall|j: int|
                        i < j < ops.len() ==> #[trigger] ops[j] != MembershipOp::Unregister(id);
                if i < n {
                    assert(before[i] == ops[i]);
                    assert forall|j: int| i < j < before.len() implies #[trigger] before[j]
                        != MembershipOp::Unregister(id) by {
                        assert(before[j] == ops[j]);
                    }
                    assert(ops[n] != MembershipOp::Unregister(id));
                }
            }
        }
        assert(start.replay(ops).clients =~= net);
    }
}

/// A reader sees the text of the last update, whatever sessions have come and
/// gone since: membership changes never touch the clipboard.
pub proof fn lemma_read_returns_last_update(
    registry: RegistryModel,
    content: Seq<char>,
    ops: Seq<MembershipOp>,
)
    ensures
        registry.update(content).read() == content,
        registry.update(content).replay(ops).read() == content,
        registry.update(content).replay(ops).clients == registry.replay(ops).clients,
    decreases ops.len(),
{
    if ops.len() > 0 {
        lemma_read_returns_last_update(registry, content, ops.drop_last());
    }
}

/// Shared state of all sessions: the clipboard text and the ids of the
/// sessions that are connected.
pub struct ClipboardState {
    content: String,
    clients: HashSet<ClientId>,
}

impl View for ClipboardState {
    type V = RegistryModel;

    closed spec fn view(&self) -> RegistryModel {
        RegistryModel { content: self.content@, clients: self.clients@ }
    }
}

impl ClipboardState {
    /// A registry with no sessions whose clipboard holds `initial_content`.
    pub fn new(initial_content: String) -> (state: Self)
        ensures
            state@ == RegistryModel::initial(initial_content@),
    {
        ClipboardState { content: initial_content, clients: HashSet::new() }
    }

    /// Replaces the clipboard text and returns the sessions that were
    /// registered at that instant, each exactly once.
    pub fn update_content(&mut self, content: &str) -> (snapshot: Vec<ClientId>)
        ensures
            final(self)@ == old(self)@.update(content@),
            snapshot@.to_set() == old(self)@.clients,
            snapshot@.no_duplicates(),
    {
        self.content = content.to_owned();
        let mut snapshot: Vec<ClientId> = Vec::new();
        let ghost walk = self.clients.iter().remaining();
        for id in it: self.clients.iter()
            invariant
                it.seq() == walk,
                snapshot@.len() == it.index(),
                forall|j: int| 0 <= j < snapshot@.len() ==> snapshot@[j] == *walk[j],
        {
            snapshot.push(*id);
        }
        proof {
            assert(snapshot@ =~= walk.unref());
            assert forall|i: int, j: int|
                0 <= i < snapshot@.len() && 0 <= j < snapshot@.len() && i != j implies snapshot@[i]
                != snapshot@[j] by {
                assert(walk[i] != walk[j]);
            }
        }
        snapshot
    }

    /// Adds `client_id` to the registered sessions and returns the current
    /// clipboard text. Registering an id a second time changes nothing.
    pub fn register_client(&mut self, client_id: ClientId) -> (content: String)
        ensures
            final(self)@ == old(self)@.register(client_id),
            content@ == old(self)@.read(),
    {
        self.clients.insert(client_id);
        self.content.clone()
    }

    /// Removes `client_id` from the registered sessions; nothing happens if it
    /// is not among them.
    pub fn unregister_client(&mut self, client_id: ClientId)
        ensures
            final(self)@ == old(self)@.unregister(client_id),
    {
        self.clients.remove(&client_id);
    }

    /// How many sessions are registered.
    pub fn client_count(&self) -> (count: usize)
        ensures
            self@.clients.finite(),
            count == self@.clients.len(),
    {
        proof {
            let walk = self.clients.iter().remaining().unref();
            vstd::seq_lib::seq_to_set_is_finite(walk);
        }
        self.clients.len()
    }

    /// Whether `client_id` is registered.
    pub fn is_registered(&self, client_id: ClientId) -> (registered: bool)
        ensures
            registered == self@.clients.contains(client_id),
    {
        self.clients.contains(&client_id)
    }

    /// The current clipboard text.
    pub fn get_current_content(&self) -> (content: String)
        ensures
            content@ == self@.read(),
    {
        self.content.clone()
    }
}

} // verus!
