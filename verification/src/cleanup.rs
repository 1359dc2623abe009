//! The repair of lobby membership after a lost connection.
//!
//! The worker reads, inside one storage transaction, the lobby the account
//! owns and the lobbies it has joined. From that snapshot [`plan_cleanup`]
//! derives the rows to delete and the accounts to inform. The worker deletes
//! the rows, commits, and only then sends what [`CleanupPlan::released`]
//! hands out: nothing at all if the transaction failed.

use crate::event::{AccountResponse, WsMessage};
use vstd::prelude::*;

verus! {

/// A lobby as the worker read it.
#[derive(Clone, Debug, PartialEq, Eq)]
pub struct LobbySnapshot {
    /// Identifier of the lobby.
    pub uuid: u128,
    /// The chat room attached to the lobby.
    pub chat_room: u128,
    /// The account that owns the lobby.
    pub owner: u128,
    /// The accounts with a membership row in the lobby, in stored order. The
    /// owner has none.
    pub members: Vec<u128>,
}

/// One deletion in storage.
#[derive(Clone, Copy, Debug, PartialEq, Eq)]
pub enum Removal {
    /// Delete the chat room.
    ChatRoom(u128),
    /// Delete the lobby.
    Lobby(u128),
    /// Delete the membership of `member` in `chat_room`.
    ChatRoomMember {
        /// The chat room.
        chat_room: u128,
        /// The account that leaves it.
        member: u128,
    },
    /// Delete the membership of `player` in `lobby`.
    LobbyAccount {
        /// The lobby.
        lobby: u128,
        /// The account that leaves it.
        player: u128,
    },
}

/// One event for one account.
#[derive(Clone, Debug, PartialEq, Eq)]
pub struct Notification {
    /// The account to inform.
    pub recipient: u128,
    /// What to tell it.
    pub event: WsMessage,
}

/// What a cleanup has to delete and whom it has to inform.
#[derive(Clone, Debug, PartialEq, Eq)]
pub struct CleanupPlan {
    /// The deletions, in the order in which they are carried out.
    pub removals: Vec<Removal>,
    /// The notifications, in the order in which they are sent after the
    /// commit.
    pub notifications: Vec<Notification>,
}

/// The test that every account but `account` passes.
pub open spec fn is_other(account: u128) -> spec_fn(u128) -> bool {
    |member: u128| member != account
}

/// The members of a lobby other than `account`, in stored order.
pub open spec fn others(members: Seq<u128>, account: u128) -> Seq<u128> {
    members.filter(is_other(account))
}

/// The same event for each recipient, in order.
pub open spec fn notes(recipients: Seq<u128>, event: WsMessage) -> Seq<Notification> {
    Seq::new(recipients.len(), |i: int| Notification { recipient: recipients[i], event })
}

/// Who hears that an owned lobby was closed: every member but the owner
/// that was lost.
pub open spec fn closed_notes(lobby: LobbySnapshot, account: u128) -> Seq<Notification> {
    notes(others(lobby.members@, account), WsMessage::LobbyClosed { lobby_uuid: lobby.uuid })
}

/// Who hears that `player` left a lobby: the owner first, then every
/// remaining member.
pub open spec fn leave_notes(lobby: LobbySnapshot, player: AccountResponse) -> Seq<Notification> {
    notes(
        seq![lobby.owner] + others(lobby.members@, player.uuid),
        WsMessage::LobbyLeave { lobby_uuid: lobby.uuid, player },
    )
}

/// The leave notifications of all joined lobbies, lobby by lobby.
pub open spec fn joined_notes(joined: Seq<LobbySnapshot>, player: AccountResponse) -> Seq<
    Notification,
>
    decreases joined.len(),
{
    if joined.len() == 0 {
        Seq::empty()
    } else {
        joined_notes(joined.drop_last(), player) + leave_notes(joined.last(), player)
    }
}

/// All notifications of a cleanup: those of the owned lobby, then those of
/// the joined lobbies.
pub open spec fn notifications_for(
    player: AccountResponse,
    owned: Option<LobbySnapshot>,
    joined: Seq<LobbySnapshot>,
) -> Seq<Notification> {
    let first = match owned {
        Some(lobby) => closed_notes(lobby, player.uuid),
        None => Seq::empty(),
    };
    first + joined_notes(joined, player)
}

/// The deletions for an owned lobby: its chat room, then the lobby.
pub open spec fn owned_removals(owned: Option<LobbySnapshot>) -> Seq<Removal> {
    match owned {
        Some(lobby) => seq![Removal::ChatRoom(lobby.chat_room), Removal::Lobby(lobby.uuid)],
        None => Seq::empty(),
    }
}

/// The deletions for the joined lobbies: for each lobby the account's chat
/// membership, then its lobby membership.
pub open spec fn joined_removals(account: u128, joined: Seq<LobbySnapshot>) -> Seq<Removal> {
    Seq::new(
        2 * joined.len(),
        |i: int|
            if i % 2 == 0 {
                Removal::ChatRoomMember { chat_room: joined[i / 2].chat_room, member: account }
            } else {
                Removal::LobbyAccount { lobby: joined[i / 2].uuid, player: account }
            },
    )
}

/// All deletions of a cleanup.
pub open spec fn removals_for(
    account: u128,
    owned: Option<LobbySnapshot>,
    joined: Seq<LobbySnapshot>,
) -> Seq<Removal> {
    owned_removals(owned) + joined_removals(account, joined)
}

/// Returns the members other than `account`, in order.
pub fn other_members(members: &Vec<u128>, account: u128) -> (rest: Vec<u128>)
    ensures
        rest@ == others(members@, account),
{
    let mut rest: Vec<u128> = Vec::new();
    let mut i: usize = 0;
    proof {
        reveal(Seq::filter);
        assert(others(members@.take(0), account) =~= Seq::<u128>::empty());
    }
    while i < members.len()
        invariant
            i <= members.len(),
            rest@ == others(members@.take(i as int), account),
        decreases members.len() - i,
    {
        let member = members[i];
        proof {
            reveal(Seq::filter);
            let next = members@.take(i + 1);
            assert(next.drop_last() =~= members@.take(i as int));
            assert(next.last() == member);
        }
        if member != account {
            rest.push(member);
        }
        i = i + 1;
    }
    assert(members@.take(members.len() as int) =~= members@);
    rest
}

/// Appends a "lobby closed" notification for each recipient.
fn push_closed_notes(out: &mut Vec<Notification>, recipients: &Vec<u128>, lobby: u128)
    ensures
        final(out)@ == old(out)@ + notes(recipients@, WsMessage::LobbyClosed { lobby_uuid: lobby }),
{
    let ghost before = out@;
    let ghost event = WsMessage::LobbyClosed { lobby_uuid: lobby };
    let mut i: usize = 0;
    assert(out@ =~= before + notes(recipients@.take(0), event));
    while i < recipients.len()
        invariant
            i <= recipients.len(),
            event == (WsMessage::LobbyClosed { lobby_uuid: lobby }),
            out@ == before + notes(recipients@.take(i as int), event),
        decreases recipients.len() - i,
    {
        out.push(
            Notification {
                recipient: recipients[i],
                event: WsMessage::LobbyClosed { lobby_uuid: lobby },
            },
        );
        assert(out@ =~= before + notes(recipients@.take(i + 1), event));
        i = i + 1;
    }
    assert(recipients@.take(recipients.len() as int) =~= recipients@);
}

/// Appends a "player left" notification for each recipient.
fn push_leave_notes(
    out: &mut Vec<Notification>,
    recipients: &Vec<u128>,
    lobby: u128,
    player: &AccountResponse,
)
    ensures
        final(out)@ == old(out)@ + notes(
            recipients@,
            WsMessage::LobbyLeave { lobby_uuid: lobby, player: *player },
        ),
{
    let ghost before = out@;
    let ghost event = WsMessage::LobbyLeave { lobby_uuid: lobby, player: *player };
    let mut i: usize = 0;
    assert(out@ =~= before + notes(recipients@.take(0), event));
    while i < recipients.len()
        invariant
            i <= recipients.len(),
            event == (WsMessage::LobbyLeave { lobby_uuid: lobby, player: *player }),
            out@ == before + notes(recipients@.take(i as int), event),
        decreases recipients.len() - i,
    {
        let who = AccountResponse {
            uuid: player.uuid,
            username: player.username.clone(),
            display_name: player.display_name.clone(),
        };
        assert(who == *player);
        out.push(
            Notification {
                recipient: recipients[i],
                event: WsMessage::LobbyLeave { lobby_uuid: lobby, player: who },
            },
        );
        assert(out@ =~= before + notes(recipients@.take(i + 1), event));
        i = i + 1;
    }
    assert(recipients@.take(recipients.len() as int) =~= recipients@);
}

/// Plans the cleanup for the account `player`, from the lobby it owns, if
/// any, and the lobbies it has joined.
///
/// An owned lobby is deleted together with its chat room, and every other
/// member hears that the lobby was closed. In each joined lobby the
/// account's chat membership and lobby membership are deleted, and the
/// owner and every remaining member hear that the player left. Where there
/// is neither, the plan is empty.
pub fn plan_cleanup(
    player: &AccountResponse,
    owned: &Option<LobbySnapshot>,
    joined: &Vec<LobbySnapshot>,
) -> (plan: CleanupPlan)
    ensures
        plan.removals@ == removals_for(player.uuid, *owned, joined@),
        plan.notifications@ == notifications_for(*player, *owned, joined@),
{
    let account = player.uuid;
    let mut removals: Vec<Removal> = Vec::new();
    let mut notifications: Vec<Notification> = Vec::new();
    match owned {
        Some(lobby) => {
            removals.push(Removal::ChatRoom(lobby.chat_room));
            removals.push(Removal::Lobby(lobby.uuid));
            let recipients = other_members(&lobby.members, account);
            push_closed_notes(&mut notifications, &recipients, lobby.uuid);
        },
        None => {},
    }
    let ghost first_removals = removals@;
    let ghost first_notes = notifications@;
    assert(first_removals =~= owned_removals(*owned));
    assert(first_notes =~= match *owned {
        Some(lobby) => closed_notes(lobby, account),
        None => Seq::empty(),
    });
    let mut i: usize = 0;
    assert(removals@ =~= first_removals + joined_removals(account, joined@.take(0)));
    assert(notifications@ =~= first_notes + joined_notes(joined@.take(0), *player));
    while i < joined.len()
        invariant
            i <= joined.len(),
            account == player.uuid,
            removals@ == first_removals + joined_removals(account, joined@.take(i as int)),
            notifications@ == first_notes + joined_notes(joined@.take(i as int), *player),
        decreases joined.len() - i,
    {
        let lobby = &joined[i];
        let ghost earlier_removals = removals@;
        let ghost earlier_notes = notifications@;
        removals.push(Removal::ChatRoomMember { chat_room: lobby.chat_room, member: account });
        removals.push(Removal::LobbyAccount { lobby: lobby.uuid, player: account });
        let mut recipients: Vec<u128> = Vec::new();
        recipients.push(lobby.owner);
        let mut rest = other_members(&lobby.members, account);
        recipients.append(&mut rest);
        assert(recipients@ =~= seq![lobby.owner] + others(lobby.members@, account));
        push_leave_notes(&mut notifications, &recipients, lobby.uuid, player);
        proof {
            let next = joined@.take(i + 1);
            assert(next.drop_last() =~= joined@.take(i as int));
            assert(next.last() == *lobby);
            assert(removals@ =~= first_removals + joined_removals(account, next));
            assert(notifications@ =~= first_notes + joined_notes(next, *player));
        }
        i = i + 1;
    }
    assert(joined@.take(joined.len() as int) =~= joined@);
    CleanupPlan { removals, notifications }
}

impl CleanupPlan {
    /// Hands out the notifications that may be sent once the transaction has
    /// ended: all of them after a commit, none after a failure.
    pub fn released(self, committed: bool) -> (notifications: Vec<Notification>)
        ensures
            notifications@ == if committed {
                self.notifications@
            } else {
                Seq::<Notification>::empty()
            },
    {
        if committed {
            self.notifications
        } else {
            Vec::new()
        }
    }
}

/// An account that owns no lobby and has joined none needs no cleanup: the
/// plan deletes nothing and informs nobody. A repeated cleanup therefore
/// does no more than the rows that are still stored ask for.
pub proof fn law_nothing_left_to_clean(player: AccountResponse)
    ensures
        removals_for(player.uuid, None, Seq::empty()) == Seq::<Removal>::empty(),
        notifications_for(player, None, Seq::empty()) == Seq::<Notification>::empty(),
{
    assert(removals_for(player.uuid, None, Seq::empty()) =~= Seq::<Removal>::empty());
    assert(notifications_for(player, None, Seq::empty()) =~= Seq::<Notification>::empty());
}

/// The account that was lost is never among those informed of the closing of
/// its own lobby, and every other member is informed exactly as often as it
/// is stored as a member.
pub proof fn law_closed_notes_reach_the_others(lobby: LobbySnapshot, account: u128, i: int)
    requires
        0 <= i < closed_notes(lobby, account).len(),
    ensures
        closed_notes(lobby, account).len() == others(lobby.members@, account).len(),
        closed_notes(lobby, account)[i].recipient != account,
        lobby.members@.contains(closed_notes(lobby, account)[i].recipient),
        closed_notes(lobby, account)[i].event == (WsMessage::LobbyClosed { lobby_uuid: lobby.uuid }),
{
    let rest = others(lobby.members@, account);
    lobby.members@.lemma_filter_pred(is_other(account), i);
    assert(rest.contains(rest[i]));
    lobby.members@.lemma_filter_contains_rev(is_other(account), rest[i]);
}

} // verus!
