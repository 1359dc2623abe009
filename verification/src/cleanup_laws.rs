//! What a cleanup does to the stored rows.
//!
//! The rows that matter are modelled as they are stored: lobbies with owner
//! and chat room, chat rooms, and the two membership relations. Deletions
//! cascade as they do in storage: a lobby takes its lobby memberships along,
//! and a chat room takes along its chat memberships and the lobby that is
//! attached to it.

use crate::cleanup::{
    joined_removals, notifications_for, owned_removals, removals_for, LobbySnapshot, Notification,
    Removal,
};
use crate::event::AccountResponse;
use vstd::prelude::*;

verus! {

/// A stored lobby.
pub struct LobbyRow {
    /// The account that owns the lobby.
    pub owner: u128,
    /// The chat room attached to the lobby.
    pub chat_room: u128,
}

/// The stored rows that a cleanup reads and deletes.
pub struct Rows {
    /// The lobbies, by identifier.
    pub lobbies: Map<u128, LobbyRow>,
    /// The chat rooms.
    pub chat_rooms: Set<u128>,
    /// The lobby memberships, as pairs of lobby and player.
    pub lobby_accounts: Set<(u128, u128)>,
    /// The chat memberships, as pairs of chat room and member.
    pub chat_room_members: Set<(u128, u128)>,
}

/// Whether the lobby `lobby` is stored in `rows` with the chat room `room`
/// attached.
pub open spec fn attached(rows: Rows, lobby: u128, room: u128) -> bool {
    rows.lobbies.contains_key(lobby) && rows.lobbies[lobby].chat_room == room
}

/// The rows after one deletion.
pub open spec fn delete(rows: Rows, removal: Removal) -> Rows {
    match removal {
        Removal::ChatRoom(room) => Rows {
            lobbies: rows.lobbies.restrict(Set::new(|l: u128| !attached(rows, l, room))),
            chat_rooms: rows.chat_rooms.remove(room),
            lobby_accounts: Set::new(
                |row: (u128, u128)|
                    rows.lobby_accounts.contains(row) && !attached(rows, row.0, room),
            ),
            chat_room_members: Set::new(
                |row: (u128, u128)| rows.chat_room_members.contains(row) && row.0 != room,
            ),
        },
        Removal::Lobby(lobby) => Rows {
            lobbies: rows.lobbies.remove(lobby),
            lobby_accounts: Set::new(
                |row: (u128, u128)| rows.lobby_accounts.contains(row) && row.0 != lobby,
            ),
            ..rows
        },
        Removal::ChatRoomMember { chat_room, member } => Rows {
            chat_room_members: rows.chat_room_members.remove((chat_room, member)),
            ..rows
        },
        Removal::LobbyAccount { lobby, player } => Rows {
            lobby_accounts: rows.lobby_accounts.remove((lobby, player)),
            ..rows
        },
    }
}

/// Whether the deletions `removals` take the lobby `lobby` of `rows` away:
/// one of them names the lobby, or the chat room attached to it.
pub open spec fn takes_lobby(rows: Rows, removals: Seq<Removal>, lobby: u128) -> bool {
    ||| removals.contains(Removal::Lobby(lobby))
    ||| rows.lobbies.contains_key(lobby) && removals.contains(
        Removal::ChatRoom(rows.lobbies[lobby].chat_room),
    )
}

/// The rows after the deletions `removals`, carried out in order.
pub open spec fn delete_all(rows: Rows, removals: Seq<Removal>) -> Rows
    decreases removals.len(),
{
    if removals.len() == 0 {
        rows
    } else {
        delete(delete_all(rows, removals.drop_last()), removals.last())
    }
}

/// Whether the snapshot `lobby` shows a lobby as it is stored in `rows`.
pub open spec fn shows(rows: Rows, lobby: LobbySnapshot) -> bool {
    &&& rows.lobbies.contains_key(lobby.uuid)
    &&& rows.lobbies[lobby.uuid] == (LobbyRow { owner: lobby.owner, chat_room: lobby.chat_room })
    &&& forall|a: u128|
        lobby.members@.contains(a) <==> rows.lobby_accounts.contains((lobby.uuid, a))
}

/// Whether `owned` and `joined` are what a cleanup for `account` reads from
/// `rows`: the lobby the account owns, if there is one, and exactly the
/// lobbies in which the account has a membership row.
pub open spec fn read_from(
    rows: Rows,
    account: u128,
    owned: Option<LobbySnapshot>,
    joined: Seq<LobbySnapshot>,
) -> bool {
    &&& owned matches Some(lobby) ==> shows(rows, lobby) && lobby.owner == account
    &&& forall|l: u128|
        rows.lobbies.contains_key(l) && (#[trigger] rows.lobbies[l]).owner == account ==> (
        owned matches Some(lobby) && lobby.uuid == l)
    &&& forall|i: int|
        0 <= i < joined.len() ==> shows(rows, #[trigger] joined[i])
            && rows.lobby_accounts.contains((joined[i].uuid, account))
    &&& forall|l: u128| #[trigger]
        rows.lobby_accounts.contains((l, account)) ==> exists|i: int|
            0 <= i < joined.len() && (#[trigger] joined[i]).uuid == l
}

/// A row survives a sequence of deletions exactly if no deletion in it names
/// the row or what the row hangs on. The order of the deletions does not
/// matter.
pub proof fn law_deletions_take_what_they_name(rows: Rows, removals: Seq<Removal>)
    ensures
        forall|l: u128| #[trigger]
            delete_all(rows, removals).lobbies.contains_key(l) <==> rows.lobbies.contains_key(l)
                && !takes_lobby(rows, removals, l),
        forall|l: u128| #[trigger]
            delete_all(rows, removals).lobbies.contains_key(l) ==> delete_all(
                rows,
                removals,
            ).lobbies[l] == rows.lobbies[l],
        forall|c: u128| #[trigger]
            delete_all(rows, removals).chat_rooms.contains(c) <==> rows.chat_rooms.contains(c)
                && !removals.contains(Removal::ChatRoom(c)),
        forall|l: u128, a: u128| #[trigger]
            delete_all(rows, removals).lobby_accounts.contains((l, a))
                <==> rows.lobby_accounts.contains((l, a)) && !takes_lobby(rows, removals, l)
                && !removals.contains(Removal::LobbyAccount { lobby: l, player: a }),
        forall|c: u128, m: u128| #[trigger]
            delete_all(rows, removals).chat_room_members.contains((c, m))
                <==> rows.chat_room_members.contains((c, m)) && !removals.contains(
                Removal::ChatRoom(c),
            ) && !removals.contains(Removal::ChatRoomMember { chat_room: c, member: m }),
    decreases removals.len(),
{
    let after = delete_all(rows, removals);
    if removals.len() > 0 {
        let earlier = removals.drop_last();
        let last = removals.last();
        let mid = delete_all(rows, earlier);
        law_deletions_take_what_they_name(rows, earlier);
        assert(after == delete(mid, last));
        assert forall|r: Removal| removals.contains(r) <==> earlier.contains(r) || r == last by {
            if earlier.contains(r) {
                let i = choose|i: int| 0 <= i < earlier.len() && earlier[i] == r;
                assert(removals[i] == r);
            }
            if r == last {
                assert(removals[removals.len() - 1] == r);
            }
            if removals.contains(r) {
                let i = choose|i: int| 0 <= i < removals.len() && removals[i] == r;
                if i < earlier.len() {
                    assert(earlier[i] == r);
                }
            }
        }
        assert forall|l: u128| #[trigger]
            after.lobbies.contains_key(l) <==> rows.lobbies.contains_key(l) && !takes_lobby(
                rows,
                removals,
                l,
            ) by {
            assert(mid.lobbies.contains_key(l) <==> rows.lobbies.contains_key(l) && !takes_lobby(
                rows,
                earlier,
                l,
            ));
            if mid.lobbies.contains_key(l) {
                assert(mid.lobbies[l] == rows.lobbies[l]);
            }
        }
        assert forall|l: u128| #[trigger] after.lobbies.contains_key(l) implies after.lobbies[l]
            == rows.lobbies[l] by {
            assert(mid.lobbies.contains_key(l));
        }
        assert forall|c: u128| #[trigger]
            after.chat_rooms.contains(c) <==> rows.chat_rooms.contains(c) && !removals.contains(
                Removal::ChatRoom(c),
            ) by {
            assert(mid.chat_rooms.contains(c) <==> rows.chat_rooms.contains(c)
                && !earlier.contains(Removal::ChatRoom(c)));
        }
        assert forall|l: u128, a: u128| #[trigger]
            after.lobby_accounts.contains((l, a)) <==> rows.lobby_accounts.contains((l, a))
                && !takes_lobby(rows, removals, l) && !removals.contains(
                Removal::LobbyAccount { lobby: l, player: a },
            ) by {
            assert(mid.lobby_accounts.contains((l, a)) <==> rows.lobby_accounts.contains((l, a))
                && !takes_lobby(rows, earlier, l) && !earlier.contains(
                Removal::LobbyAccount { lobby: l, player: a },
            ));
            assert(mid.lobbies.contains_key(l) <==> rows.lobbies.contains_key(l) && !takes_lobby(
                rows,
                earlier,
                l,
            ));
            if mid.lobbies.contains_key(l) {
                assert(mid.lobbies[l] == rows.lobbies[l]);
            }
        }
        assert forall|c: u128, m: u128| #[trigger]
            after.chat_room_members.contains((c, m)) <==> rows.chat_room_members.contains((c, m))
                && !removals.contains(Removal::ChatRoom(c)) && !removals.contains(
                Removal::ChatRoomMember { chat_room: c, member: m },
            ) by {
            assert(mid.chat_room_members.contains((c, m)) <==> rows.chat_room_members.contains(
                (c, m),
            ) && !earlier.contains(Removal::ChatRoom(c)) && !earlier.contains(
                Removal::ChatRoomMember { chat_room: c, member: m },
            ));
        }
    } else {
        assert(after == rows);
    }
}

/// The deletions that a plan holds: the owned lobby and its chat room, and
/// the two membership rows of the account for each joined lobby.
pub proof fn lemma_planned_removals(
    account: u128,
    owned: Option<LobbySnapshot>,
    joined: Seq<LobbySnapshot>,
    removal: Removal,
)
    ensures
        removals_for(account, owned, joined).contains(removal) <==> match removal {
            Removal::Lobby(l) => owned matches Some(lobby) && lobby.uuid == l,
            Removal::ChatRoom(c) => owned matches Some(lobby) && lobby.chat_room == c,
            Removal::LobbyAccount { lobby, player } => player == account && exists|i: int|
                0 <= i < joined.len() && (#[trigger] joined[i]).uuid == lobby,
            Removal::ChatRoomMember { chat_room, member } => member == account && exists|i: int|
                0 <= i < joined.len() && (#[trigger] joined[i]).chat_room == chat_room,
        },
{
    let first = owned_removals(owned);
    let second = joined_removals(account, joined);
    let all = removals_for(account, owned, joined);
    if all.contains(removal) {
        let k = choose|k: int| 0 <= k < all.len() && all[k] == removal;
        if k >= first.len() {
            let j = k - first.len();
            assert(second[j] == removal);
            assert(0 <= j / 2 < joined.len());
            let lobby = joined[j / 2];
            assert(lobby.uuid == lobby.uuid);
        }
    }
    match removal {
        Removal::Lobby(l) => {
            if owned matches Some(lobby) && lobby.uuid == l {
                assert(all[1] == removal);
            }
        },
        Removal::ChatRoom(c) => {
            if owned matches Some(lobby) && lobby.chat_room == c {
                assert(all[0] == removal);
            }
        },
        Removal::LobbyAccount { lobby, player } => {
            if player == account && exists|i: int|
                0 <= i < joined.len() && (#[trigger] joined[i]).uuid == lobby {
                let i = choose|i: int| 0 <= i < joined.len() && (#[trigger] joined[i]).uuid == lobby;
                assert((2 * i + 1) / 2 == i && (2 * i + 1) % 2 == 1);
                assert(second[2 * i + 1] == removal);
                assert(all[first.len() + 2 * i + 1] == removal);
            }
        },
        Removal::ChatRoomMember { chat_room, member } => {
            if member == account && exists|i: int|
                0 <= i < joined.len() && (#[trigger] joined[i]).chat_room == chat_room {
                let i = choose|i: int|
                    0 <= i < joined.len() && (#[trigger] joined[i]).chat_room == chat_room;
                assert((2 * i) / 2 == i && (2 * i) % 2 == 0);
                assert(second[2 * i] == removal);
                assert(all[first.len() + 2 * i] == removal);
            }
        },
    }
}

/// After the planned deletions the account owns no lobby and is a member of
/// none, so a cleanup that runs again reads nothing, deletes nothing and
/// informs nobody.
pub proof fn law_cleanup_leaves_nothing_to_repeat(
    rows: Rows,
    player: AccountResponse,
    owned: Option<LobbySnapshot>,
    joined: Seq<LobbySnapshot>,
)
    requires
        read_from(rows, player.uuid, owned, joined),
    ensures
        read_from(
            delete_all(rows, removals_for(player.uuid, owned, joined)),
            player.uuid,
            None,
            Seq::empty(),
        ),
        removals_for(player.uuid, None, Seq::empty()) == Seq::<Removal>::empty(),
        notifications_for(player, None, Seq::empty()) == Seq::<Notification>::empty(),
{
    let account = player.uuid;
    let removals = removals_for(account, owned, joined);
    let after = delete_all(rows, removals);
    law_deletions_take_what_they_name(rows, removals);
    assert forall|l: u128|
        after.lobbies.contains_key(l) implies (#[trigger] after.lobbies[l]).owner != account by {
        lemma_planned_removals(account, owned, joined, Removal::Lobby(l));
        assert(!takes_lobby(rows, removals, l));
    }
    assert forall|l: u128| !(#[trigger] after.lobby_accounts.contains((l, account))) by {
        lemma_planned_removals(
            account,
            owned,
            joined,
            Removal::LobbyAccount { lobby: l, player: account },
        );
    }
    crate::cleanup::law_nothing_left_to_clean(player);
}

/// The lobby that the lost account owned is gone after the cleanup, and so
/// is its chat room, with every membership in either.
pub proof fn law_owned_lobby_is_deleted(
    rows: Rows,
    account: u128,
    lobby: LobbySnapshot,
    joined: Seq<LobbySnapshot>,
    anyone: u128,
)
    requires
        read_from(rows, account, Some(lobby), joined),
    ensures
        ({
            let after = delete_all(rows, removals_for(account, Some(lobby), joined));
            &&& !after.lobbies.contains_key(lobby.uuid)
            &&& !after.chat_rooms.contains(lobby.chat_room)
            &&& !after.lobby_accounts.contains((lobby.uuid, anyone))
            &&& !after.chat_room_members.contains((lobby.chat_room, anyone))
        }),
{
    let removals = removals_for(account, Some(lobby), joined);
    law_deletions_take_what_they_name(rows, removals);
    lemma_planned_removals(account, Some(lobby), joined, Removal::Lobby(lobby.uuid));
    lemma_planned_removals(account, Some(lobby), joined, Removal::ChatRoom(lobby.chat_room));
    assert(takes_lobby(rows, removals, lobby.uuid));
}

/// A lobby that the lost account had only joined, and that has a chat room
/// of its own, is still there after the cleanup, with its owner and all
/// other members; only the account's own lobby membership and chat
/// membership are gone.
pub proof fn law_joined_lobby_loses_only_the_member(
    rows: Rows,
    account: u128,
    owned: Option<LobbySnapshot>,
    joined: Seq<LobbySnapshot>,
    i: int,
    other: u128,
)
    requires
        read_from(rows, account, owned, joined),
        0 <= i < joined.len(),
        joined[i].owner != account,
        owned matches Some(lobby) ==> lobby.chat_room != joined[i].chat_room,
        other != account,
    ensures
        ({
            let after = delete_all(rows, removals_for(account, owned, joined));
            let lobby = joined[i];
            &&& after.lobbies.contains_key(lobby.uuid)
            &&& after.lobbies[lobby.uuid] == rows.lobbies[lobby.uuid]
            &&& !after.lobby_accounts.contains((lobby.uuid, account))
            &&& !after.chat_room_members.contains((lobby.chat_room, account))
            &&& after.lobby_accounts.contains((lobby.uuid, other)) == rows.lobby_accounts.contains(
                (lobby.uuid, other),
            )
        }),
{
    let removals = removals_for(account, owned, joined);
    let lobby = joined[i];
    law_deletions_take_what_they_name(rows, removals);
    lemma_planned_removals(account, owned, joined, Removal::Lobby(lobby.uuid));
    lemma_planned_removals(
        account,
        owned,
        joined,
        Removal::LobbyAccount { lobby: lobby.uuid, player: account },
    );
    lemma_planned_removals(
        account,
        owned,
        joined,
        Removal::LobbyAccount { lobby: lobby.uuid, player: other },
    );
    lemma_planned_removals(
        account,
        owned,
        joined,
        Removal::ChatRoomMember { chat_room: lobby.chat_room, member: account },
    );
    lemma_planned_removals(account, owned, joined, Removal::ChatRoom(lobby.chat_room));
    let after = delete_all(rows, removals);
    assert(shows(rows, joined[i]));
    assert(!removals.contains(Removal::Lobby(lobby.uuid)));
    assert(!removals.contains(Removal::ChatRoom(lobby.chat_room)));
    assert(!takes_lobby(rows, removals, lobby.uuid));
    assert(after.lobbies.contains_key(lobby.uuid));
    assert(removals.contains(Removal::LobbyAccount { lobby: lobby.uuid, player: account }));
    assert(!after.lobby_accounts.contains((lobby.uuid, account)));
    assert(removals.contains(
        Removal::ChatRoomMember { chat_room: lobby.chat_room, member: account },
    ));
    assert(!after.chat_room_members.contains((lobby.chat_room, account)));
    assert(!removals.contains(Removal::LobbyAccount { lobby: lobby.uuid, player: other }));
    assert(after.lobby_accounts.contains((lobby.uuid, other)) == rows.lobby_accounts.contains(
        (lobby.uuid, other),
    ));
}

} // verus!
