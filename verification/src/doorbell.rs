//! Session affinity: which incoming client may take the one active session.
//!
//! - A client whose id is in the kicked ("ghost") set is rejected.
//! - The client that owns the session may reconnect.
//! - Any other client takes the session over, and the previous owner becomes
//!   a ghost.
//! - A client without an id is accepted and leaves the tracking alone.

use std::collections::VecDeque;
use vstd::prelude::*;
use vstd::string::StringExecFns;

verus! {

/// How many kicked ids are remembered. Large enough for every recent
/// ejection, small enough to bound memory.
pub const GHOST_MAX: usize = 16;

/// What to do with an incoming connection.
#[derive(Debug, Clone, Copy, PartialEq, Eq, Structural)]
pub enum DoorbellDecision {
    /// Hand the connection on.
    Accept,
    /// Drop it, so that the client sees it closed.
    Reject,
}

/// The decision for `incoming` while `ghosts` are banned.
pub open spec fn decision(incoming: Option<[u8; 16]>, ghosts: Seq<[u8; 16]>) -> DoorbellDecision {
    match incoming {
        Some(id) if ghosts.contains(id) => DoorbellDecision::Reject,
        _ => DoorbellDecision::Accept,
    }
}

/// `incoming` replaces the owner: it has an id, the id is not banned, and it
/// is not the owner's.
pub open spec fn takes_over(
    incoming: Option<[u8; 16]>,
    current: Option<[u8; 16]>,
    ghosts: Seq<[u8; 16]>,
) -> bool {
    incoming is Some && incoming != current && !ghosts.contains(incoming->0)
}

/// The owner after the decision.
pub open spec fn next_owner(
    incoming: Option<[u8; 16]>,
    current: Option<[u8; 16]>,
    ghosts: Seq<[u8; 16]>,
) -> Option<[u8; 16]> {
    if takes_over(incoming, current, ghosts) {
        incoming
    } else {
        current
    }
}

/// The ghosts after the decision: a replaced owner joins them.
pub open spec fn next_ghosts(
    incoming: Option<[u8; 16]>,
    current: Option<[u8; 16]>,
    ghosts: Seq<[u8; 16]>,
) -> Seq<[u8; 16]> {
    if takes_over(incoming, current, ghosts) && current is Some {
        with_ghost(ghosts, current->0)
    } else {
        ghosts
    }
}

/// `ghosts` with `id` as the newest, cut down to the `GHOST_MAX` newest.
pub open spec fn with_ghost(ghosts: Seq<[u8; 16]>, id: [u8; 16]) -> Seq<[u8; 16]> {
    let all = ghosts.push(id);
    if all.len() > GHOST_MAX {
        all.skip(all.len() - GHOST_MAX)
    } else {
        all
    }
}

/// The state that the policy keeps: no more than `GHOST_MAX` ghosts, each
/// once, and the owner not among them.
pub open spec fn tracking_inv(current: Option<[u8; 16]>, ghosts: Seq<[u8; 16]>) -> bool {
    &&& ghosts.len() <= GHOST_MAX
    &&& ghosts.no_duplicates()
    &&& current is Some ==> !ghosts.contains(current->0)
}

/// Whether two client ids are the same.
pub fn same_id(a: &[u8; 16], b: &[u8; 16]) -> (same: bool)
    ensures
        same == (*a == *b),
{
    let mut i: usize = 0;
    while i < 16
        invariant
            i <= 16,
            forall|j: int| 0 <= j < i ==> a[j] == b[j],
        decreases 16 - i,
    {
        if a[i] != b[i] {
            return false;
        }
        i += 1;
    }
    assert(*a =~= *b);
    true
}

/// Whether `id` is among the kicked ids.
pub fn is_ghost(ghosts: &VecDeque<[u8; 16]>, id: &[u8; 16]) -> (found: bool)
    ensures
        found == ghosts@.contains(*id),
{
    let mut i: usize = 0;
    while i < ghosts.len()
        invariant
            i <= ghosts@.len(),
            forall|j: int| 0 <= j < i ==> ghosts@[j] != *id,
        decreases ghosts@.len() - i,
    {
        if same_id(&ghosts[i], id) {
            return true;
        }
        i += 1;
    }
    false
}

/// Apply the affinity policy to one incoming connection.
///
/// `current` is the id of whoever owns the active session, `None` while the
/// session is idle. `ghosts` holds the recently kicked ids, oldest first. Both
/// change only when the session changes hands.
pub fn decide(
    incoming: Option<[u8; 16]>,
    current: &mut Option<[u8; 16]>,
    ghosts: &mut VecDeque<[u8; 16]>,
) -> (decision: DoorbellDecision)
    ensures
        decision == self::decision(incoming, old(ghosts)@),
        *final(current) == next_owner(incoming, *old(current), old(ghosts)@),
        final(ghosts)@ == next_ghosts(incoming, *old(current), old(ghosts)@),
{
    match incoming {
        Some(id) => {
            if is_ghost(ghosts, &id) {
                return DoorbellDecision::Reject;
            }
            let owned = match current {
                Some(owner) => same_id(owner, &id),
                None => false,
            };
            if owned {
                return DoorbellDecision::Accept;
            }
            if let Some(replaced) = current.take() {
                push_ghost(ghosts, replaced);
            }
            *current = Some(id);
            DoorbellDecision::Accept
        },
        None => DoorbellDecision::Accept,
    }
}

/// Remember `id` as kicked, forgetting the oldest beyond `GHOST_MAX`.
fn push_ghost(ghosts: &mut VecDeque<[u8; 16]>, id: [u8; 16])
    ensures
        final(ghosts)@ == with_ghost(old(ghosts)@, id),
{
    ghosts.push_back(id);
    let ghost all = ghosts@;
    let ghost mut dropped: int = 0;
    while ghosts.len() > GHOST_MAX
        invariant
            0 <= dropped <= all.len(),
            ghosts@ == all.skip(dropped),
            dropped > 0 ==> all.len() - dropped >= GHOST_MAX,
        decreases ghosts@.len(),
    {
        ghosts.pop_front();
        proof {
            dropped = dropped + 1;
            assert(ghosts@ =~= all.skip(dropped));
        }
    }
    assert(all.skip(0) =~= all);
}

/// A session of `session_client` has ended. The owner is forgotten, unless the
/// session was cancelled by a takeover (the new owner is then already in
/// place) or somebody else owns the session by now.
pub fn release_owner(
    current: &mut Option<[u8; 16]>,
    session_client: Option<[u8; 16]>,
    cancelled: bool,
)
    ensures
        *final(current) == if !cancelled && *old(current) == session_client {
            None
        } else {
            *old(current)
        },
{
    if !cancelled {
        let same = match (&*current, &session_client) {
            (Some(owner), Some(id)) => same_id(owner, id),
            (None, None) => true,
            _ => false,
        };
        if same {
            *current = None;
        }
    }
}

/// Takes connections in and hands the newest one on.
#[derive(Debug)]
pub struct Doorbell<C> {
    current: Option<[u8; 16]>,
    ghosts: VecDeque<[u8; 16]>,
    pending: Option<C>,
    cancel: bool,
}

/// What becomes of a connection.
#[derive(Debug, PartialEq, Eq)]
pub enum Ring<C> {
    /// It is told why, and closed.
    Refuse { connection: C, reason: String },
    /// It waits to be served, in place of one that waited.
    Queue { replaced: Option<C> },
}

impl<C> Doorbell<C> {
    /// Who owns the session.
    pub closed spec fn owner(&self) -> Option<[u8; 16]> {
        self.current
    }

    /// Who was kicked, oldest first.
    pub closed spec fn kicked(&self) -> Seq<[u8; 16]> {
        self.ghosts@
    }

    /// The connection that waits to be served.
    pub closed spec fn waiting(&self) -> Option<C> {
        self.pending
    }

    /// The session that runs is to end.
    pub closed spec fn ending(&self) -> bool {
        self.cancel
    }

    pub open spec fn wf(&self) -> bool {
        tracking_inv(self.owner(), self.kicked())
    }

    pub fn new() -> (bell: Doorbell<C>)
        ensures
            bell.owner() is None,
            bell.kicked() == Seq::<[u8; 16]>::empty(),
            bell.waiting() is None,
            !bell.ending(),
            bell.wf(),
    {
        Doorbell { current: None, ghosts: VecDeque::new(), pending: None, cancel: false }
    }

    /// Somebody connected. Who was kicked is refused, and nothing changes. Anybody else
    /// waits to be served, and the session that runs is to end.
    pub fn ring(&mut self, incoming: Option<[u8; 16]>, connection: C) -> (out: Ring<C>)
        requires
            old(self).wf(),
        ensures
            final(self).wf(),
            final(self).owner() == next_owner(incoming, old(self).owner(), old(self).kicked()),
            final(self).kicked() == next_ghosts(incoming, old(self).owner(), old(self).kicked()),
            match out {
                Ring::Refuse { connection: refused, reason } => {
                    &&& decision(incoming, old(self).kicked()) == DoorbellDecision::Reject
                    &&& refused == connection
                    &&& reason@ == "ghost client rejected"@
                    &&& final(self).owner() == old(self).owner()
                    &&& final(self).kicked() == old(self).kicked()
                    &&& final(self).waiting() == old(self).waiting()
                    &&& final(self).ending() == old(self).ending()
                },
                Ring::Queue { replaced } => {
                    &&& decision(incoming, old(self).kicked()) == DoorbellDecision::Accept
                    &&& replaced == old(self).waiting()
                    &&& final(self).waiting() == Some(connection)
                    &&& final(self).ending()
                },
            },
    {
        proof {
            law_tracking_inv_kept(incoming, self.current, self.ghosts@);
        }
        match decide(incoming, &mut self.current, &mut self.ghosts) {
            DoorbellDecision::Reject => Ring::Refuse {
                connection,
                reason: String::from_str("ghost client rejected"),
            },
            DoorbellDecision::Accept => {
                let replaced: Option<C> = self.pending.take();
                self.pending = Some(connection);
                self.cancel = true;
                Ring::Queue { replaced }
            },
        }
    }

    /// Take the connection that waits, if one does, to serve it: nothing ends its
    /// session yet.
    pub fn take(&mut self) -> (connection: Option<C>)
        ensures
            connection == old(self).waiting(),
            final(self).waiting() is None,
            final(self).ending() == (old(self).ending() && connection is None),
            final(self).owner() == old(self).owner(),
            final(self).kicked() == old(self).kicked(),
    {
        let connection: Option<C> = self.pending.take();
        if connection.is_some() {
            self.cancel = false;
        }
        connection
    }

    /// Have the session that runs end.
    pub fn cancel(&mut self)
        ensures
            final(self).ending(),
            final(self).waiting() == old(self).waiting(),
            final(self).owner() == old(self).owner(),
            final(self).kicked() == old(self).kicked(),
    {
        self.cancel = true;
    }

    /// Whether the session that runs is to end.
    pub fn is_cancelled(&self) -> (cancelled: bool)
        ensures
            cancelled == self.ending(),
    {
        self.cancel
    }

    /// A session of `session_client` has ended, by being cancelled or not.
    pub fn release(&mut self, session_client: Option<[u8; 16]>, cancelled: bool)
        requires
            old(self).wf(),
        ensures
            final(self).wf(),
            final(self).owner() == if !cancelled && old(self).owner() == session_client {
                None
            } else {
                old(self).owner()
            },
            final(self).kicked() == old(self).kicked(),
            final(self).waiting() == old(self).waiting(),
            final(self).ending() == old(self).ending(),
    {
        release_owner(&mut self.current, session_client, cancelled);
    }
}

/// Every decision keeps the ghosts bounded and distinct, and keeps the owner
/// out of them.
pub proof fn law_tracking_inv_kept(
    incoming: Option<[u8; 16]>,
    current: Option<[u8; 16]>,
    ghosts: Seq<[u8; 16]>,
)
    requires
        tracking_inv(current, ghosts),
    ensures
        tracking_inv(
            next_owner(incoming, current, ghosts),
            next_ghosts(incoming, current, ghosts),
        ),
{
    if takes_over(incoming, current, ghosts) && current is Some {
        let all = ghosts.push(current->0);
        assert(all.no_duplicates());
        let kept = with_ghost(ghosts, current->0);
        assert forall|x: [u8; 16]| kept.contains(x) implies all.contains(x) by {
            let i = choose|i: int| 0 <= i < kept.len() && kept[i] == x;
            assert(all[i + (all.len() - kept.len())] == x);
        }
        assert forall|x: [u8; 16]| all.contains(x) implies ghosts.contains(x) || x == current->0 by {
            let i = choose|i: int| 0 <= i < all.len() && all[i] == x;
            if i < ghosts.len() {
                assert(ghosts[i] == x);
            }
        }
        assert(!kept.contains(incoming->0));
    }
}

/// A rejected client changes nothing, and neither does one without an id.
pub proof fn law_reject_and_anonymous_change_nothing(
    incoming: Option<[u8; 16]>,
    current: Option<[u8; 16]>,
    ghosts: Seq<[u8; 16]>,
)
    requires
        decision(incoming, ghosts) == DoorbellDecision::Reject || incoming is None,
    ensures
        next_owner(incoming, current, ghosts) == current,
        next_ghosts(incoming, current, ghosts) == ghosts,
{
}

/// Whoever loses the session to another client is rejected when it comes
/// back, until enough others were kicked after it.
pub proof fn law_replaced_owner_is_rejected(
    incoming: [u8; 16],
    owner: [u8; 16],
    ghosts: Seq<[u8; 16]>,
)
    requires
        takes_over(Some(incoming), Some(owner), ghosts),
    ensures
        decision(Some(owner), next_ghosts(Some(incoming), Some(owner), ghosts))
            == DoorbellDecision::Reject,
{
    let kept = next_ghosts(Some(incoming), Some(owner), ghosts);
    assert(kept[kept.len() - 1] == owner);
}

/// An owner that reconnects keeps the session and kicks nobody.
pub proof fn law_owner_reconnects_quietly(owner: [u8; 16], ghosts: Seq<[u8; 16]>)
    requires
        tracking_inv(Some(owner), ghosts),
    ensures
        decision(Some(owner), ghosts) == DoorbellDecision::Accept,
        next_owner(Some(owner), Some(owner), ghosts) == Some(owner),
        next_ghosts(Some(owner), Some(owner), ghosts) == ghosts,
{
}

/// An accepted client with an id owns the session afterwards.
pub proof fn law_accepted_client_owns(
    incoming: [u8; 16],
    current: Option<[u8; 16]>,
    ghosts: Seq<[u8; 16]>,
)
    requires
        decision(Some(incoming), ghosts) == DoorbellDecision::Accept,
    ensures
        next_owner(Some(incoming), current, ghosts) == Some(incoming),
{
}

/// Whoever connects: the one that was kicked is refused and nothing else is; an id that
/// is accepted owns the session, and the owner it took it from is the newest of those
/// kicked; nobody else is added, and of those kicked before at most the oldest is
/// forgotten, and only where sixteen are remembered already.
pub proof fn law_session_changes_hands(incoming: Option<[u8; 16]>)
    ensures
        forall|c: &mut Option<[u8; 16]>, g: &mut VecDeque<[u8; 16]>, d: DoorbellDecision|
            (*g)@.len() <= 16 && #[trigger] call_ensures(decide, (incoming, c, g), d) ==> {
                let (owner, kicked) = (*c, (*g)@);
                let (owner_after, kicked_after) = (*final(c), (*final(g))@);
                let banned = incoming is Some && kicked.contains(incoming->0);
                let new = incoming is Some && !banned && incoming != owner;
                &&& d is Reject <==> banned
                &&& incoming is Some && !banned ==> owner_after == incoming
                &&& incoming is None || banned ==> owner_after == owner
                &&& !(new && owner is Some) ==> kicked_after == kicked
                &&& new && owner is Some ==> kicked_after.len() > 0 && kicked_after.last()
                    == owner->0
                &&& new && owner is Some && kicked.len() < 16 ==> kicked_after.drop_last()
                    == kicked
                &&& new && owner is Some && kicked.len() == 16 ==> kicked_after.len() == 16
                    && kicked_after.drop_last() == kicked.skip(1)
            },
{
    assert forall|c: &mut Option<[u8; 16]>, g: &mut VecDeque<[u8; 16]>, d: DoorbellDecision|
        (*g)@.len() <= 16 && #[trigger] call_ensures(decide, (incoming, c, g), d) implies {
        let (owner, kicked) = (*c, (*g)@);
        let (owner_after, kicked_after) = (*final(c), (*final(g))@);
        let banned = incoming is Some && kicked.contains(incoming->0);
        let new = incoming is Some && !banned && incoming != owner;
        &&& d is Reject <==> banned
        &&& incoming is Some && !banned ==> owner_after == incoming
        &&& incoming is None || banned ==> owner_after == owner
        &&& !(new && owner is Some) ==> kicked_after == kicked
        &&& new && owner is Some ==> kicked_after.len() > 0 && kicked_after.last() == owner->0
        &&& new && owner is Some && kicked.len() < 16 ==> kicked_after.drop_last() == kicked
        &&& new && owner is Some && kicked.len() == 16 ==> kicked_after.len() == 16
            && kicked_after.drop_last() == kicked.skip(1)
    } by {
        let (owner, kicked) = (*c, (*g)@);
        let kicked_after = (*final(g))@;
        if takes_over(incoming, owner, kicked) && owner is Some {
            let all = kicked.push(owner->0);
            if kicked.len() < 16 {
                assert(kicked_after.drop_last() =~= kicked);
            } else {
                assert(kicked_after =~= all.skip(1));
                assert(kicked_after.drop_last() =~= kicked.skip(1));
            }
        }
    }
}

/// The end of a session frees it exactly if the session was not cancelled and its client
/// still owns it.
pub proof fn law_release_frees_only_its_own(client: Option<[u8; 16]>, cancelled: bool)
    ensures
        forall|c: &mut Option<[u8; 16]>, out: ()| #[trigger]
            call_ensures(release_owner, (c, client, cancelled), out) ==> {
                &&& *c == client && !cancelled ==> *final(c) is None
                &&& *c != client || cancelled ==> *final(c) == *c
            },
{
}

/// A connection that is taken in waits, has the running session end and hands back the one
/// that waited; taking it leaves none waiting and a session that goes on; a refused one
/// changes nothing.
pub proof fn law_newest_connection_is_served(incoming: Option<[u8; 16]>, connection: u64)
    ensures
        forall|b: &mut Doorbell<u64>, out: Ring<u64>|
            (*b).wf() && #[trigger] call_ensures(
                Doorbell::<u64>::ring,
                (b, incoming, connection),
                out,
            ) ==> {
                let refused = incoming is Some && (*b).kicked().contains(incoming->0);
                &&& out is Refuse <==> refused
                &&& refused ==> (*final(b)).waiting() == (*b).waiting() && (*final(b)).ending()
                    == (*b).ending() && (*final(b)).owner() == (*b).owner()
                &&& !refused ==> (*final(b)).waiting() == Some(connection) && (*final(b)).ending()
                &&& out matches Ring::Queue { replaced } ==> replaced == (*b).waiting()
                &&& out matches Ring::Refuse { connection: back, reason } ==> back == connection
            },
        forall|b: &mut Doorbell<u64>, out: Option<u64>| #[trigger]
            call_ensures(Doorbell::<u64>::take, (b,), out) ==> {
                &&& out == (*b).waiting()
                &&& (*final(b)).waiting() is None
                &&& out is Some ==> !(*final(b)).ending()
                &&& out is None ==> (*final(b)).ending() == (*b).ending()
                &&& (*final(b)).owner() == (*b).owner()
            },
{
}

/// A fresh bell has no owner, nobody waits at it, and no session is to end; a session that
/// ends frees it only where it was not cancelled and its client still owns it; to cancel a
/// session changes nothing else.
pub proof fn law_ended_session_frees_the_bell(
    fresh: Doorbell<u64>,
    bell: Doorbell<u64>,
    ending: bool,
    client: Option<[u8; 16]>,
    cancelled: bool,
)
    requires
        call_ensures(Doorbell::<u64>::new, (), fresh),
        call_ensures(Doorbell::<u64>::is_cancelled, (&bell,), ending),
    ensures
        fresh.owner() is None && fresh.waiting() is None && !fresh.ending()
            && fresh.kicked().len() == 0,
        ending <==> bell.ending(),
        forall|b: &mut Doorbell<u64>, out: ()|
            (*b).wf() && #[trigger] call_ensures(
                Doorbell::<u64>::release,
                (b, client, cancelled),
                out,
            ) ==> {
                &&& !cancelled && (*b).owner() == client ==> (*final(b)).owner() is None
                &&& cancelled || (*b).owner() != client ==> (*final(b)).owner() == (*b).owner()
                &&& (*final(b)).waiting() == (*b).waiting() && (*final(b)).kicked()
                    == (*b).kicked()
            },
        forall|b: &mut Doorbell<u64>, out: ()| #[trigger]
            call_ensures(Doorbell::<u64>::cancel, (b,), out) ==> (*final(b)).ending() && (*final(b)).waiting() == (*b).waiting() && (*final(b)).owner() == (*b).owner(),
{
}

} // verus!
