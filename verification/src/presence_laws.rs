//! What holds of the presence map over whole histories of commands.
//!
//! The registry processes its commands strictly one after the other, so a
//! history is a sequence of commands, run from the empty map.

use crate::event::WsMessage;
use crate::registry::{
    differs_from, dropped, listed, opened, step, total_connections, well_formed, without, Reaction,
    WsManagerMessage,
};
use vstd::prelude::*;

verus! {

/// The presence map after the commands `cmds` were processed in order,
/// starting with nobody online.
pub open spec fn run(cmds: Seq<WsManagerMessage>) -> Map<u128, Seq<u64>>
    decreases cmds.len(),
{
    if cmds.len() == 0 {
        Map::empty()
    } else {
        step(run(cmds.drop_last()), cmds.last())
    }
}

/// Whether `cmd` ends the connection `conn` of `account`: a forced close of
/// the account, or the loss of that connection.
pub open spec fn ends(cmd: WsManagerMessage, account: u128, conn: u64) -> bool {
    ||| cmd == WsManagerMessage::CloseSocket(account)
    ||| cmd == WsManagerMessage::WebsocketClosed(account, conn)
}

/// Whether `conn` of `account` is still considered open after `cmds`: it was
/// opened at some point, and nothing after that point ended it.
pub open spec fn still_open(cmds: Seq<WsManagerMessage>, account: u128, conn: u64) -> bool {
    exists|i: int|
        0 <= i < cmds.len() && #[trigger] cmds[i] == WsManagerMessage::OpenedSocket(account, conn)
            && forall|j: int| i < j < cmds.len() ==> !ends(#[trigger] cmds[j], account, conn)
}

/// A connection is in the shortened list exactly if it was in the list and is
/// not the one taken out.
pub proof fn lemma_without_contains(list: Seq<u64>, conn: u64, c: u64)
    ensures
        without(list, conn).contains(c) <==> list.contains(c) && c != conn,
{
    let keep = differs_from(conn);
    if without(list, conn).contains(c) {
        list.lemma_filter_contains_rev(keep, c);
        let i = choose|i: int| 0 <= i < list.filter(keep).len() && list.filter(keep)[i] == c;
        list.lemma_filter_pred(keep, i);
    }
    if list.contains(c) && c != conn {
        let i = choose|i: int| 0 <= i < list.len() && list[i] == c;
        list.lemma_filter_contains(keep, i);
    }
}

/// Every command keeps a well-formed presence map well formed.
pub proof fn lemma_step_well_formed(m: Map<u128, Seq<u64>>, msg: WsManagerMessage)
    requires
        well_formed(m),
    ensures
        well_formed(step(m, msg)),
{
}

/// How one more command changes whether a connection is still open.
proof fn lemma_still_open_step(cmds: Seq<WsManagerMessage>, account: u128, conn: u64)
    requires
        cmds.len() > 0,
    ensures
        still_open(cmds, account, conn) <==> (cmds.last() == WsManagerMessage::OpenedSocket(
            account,
            conn,
        ) || (still_open(cmds.drop_last(), account, conn) && !ends(cmds.last(), account, conn))),
{
    let prefix = cmds.drop_last();
    let last = cmds.last();
    let n = cmds.len() - 1;
    if still_open(cmds, account, conn) {
        let i = choose|i: int|
            0 <= i < cmds.len() && #[trigger] cmds[i] == WsManagerMessage::OpenedSocket(
                account,
                conn,
            ) && forall|j: int| i < j < cmds.len() ==> !ends(#[trigger] cmds[j], account, conn);
        if i < n {
            assert(prefix[i] == cmds[i]);
            assert forall|j: int| i < j < prefix.len() implies !ends(
                #[trigger] prefix[j],
                account,
                conn,
            ) by {
                assert(prefix[j] == cmds[j]);
            }
            assert(!ends(cmds[n], account, conn));
        }
    }
    if last == WsManagerMessage::OpenedSocket(account, conn) {
        assert(cmds[n] == last);
        assert(still_open(cmds, account, conn));
    }
    if still_open(prefix, account, conn) && !ends(last, account, conn) {
        let i = choose|i: int|
            0 <= i < prefix.len() && #[trigger] prefix[i] == WsManagerMessage::OpenedSocket(
                account,
                conn,
            ) && forall|j: int| i < j < prefix.len() ==> !ends(#[trigger] prefix[j], account, conn);
        assert(cmds[i] == prefix[i]);
        assert forall|j: int| i < j < cmds.len() implies !ends(
            #[trigger] cmds[j],
            account,
            conn,
        ) by {
            if j < n {
                assert(prefix[j] == cmds[j]);
            }
        }
        assert(still_open(cmds, account, conn));
    }
}

/// After any history, the connections listed for an account are exactly
/// those of its connections that are still open, and the map is well formed.
pub proof fn lemma_listed_iff_still_open(cmds: Seq<WsManagerMessage>, account: u128, conn: u64)
    ensures
        well_formed(run(cmds)),
        listed(run(cmds), account).contains(conn) <==> still_open(cmds, account, conn),
    decreases cmds.len(),
{
    if cmds.len() == 0 {
        assert(run(cmds).dom() =~= Set::<u128>::empty());
    } else {
        let prefix = cmds.drop_last();
        let last = cmds.last();
        let m = run(prefix);
        lemma_listed_iff_still_open(prefix, account, conn);
        lemma_step_well_formed(m, last);
        lemma_still_open_step(cmds, account, conn);
        let before = listed(m, account);
        match last {
            WsManagerMessage::OpenedSocket(a, c) => {
                if a == account {
                    let after = before.push(c);
                    assert(after[before.len() as int] == c);
                    if before.contains(conn) {
                        let i = choose|i: int| 0 <= i < before.len() && before[i] == conn;
                        assert(after[i] == conn);
                    }
                    if after.contains(conn) {
                        let i = choose|i: int| 0 <= i < after.len() && after[i] == conn;
                        if i < before.len() {
                            assert(before[i] == conn);
                        }
                    }
                }
            },
            WsManagerMessage::CloseSocket(a) => {},
            WsManagerMessage::WebsocketClosed(a, c) => {
                if a == account {
                    lemma_without_contains(before, c, conn);
                    let rest = without(before, c);
                    assert(listed(step(m, last), account) =~= rest);
                }
            },
            _ => {},
        }
    }
}

/// After any finite sequence of commands, an account is online exactly if at
/// least one of the connections opened for it in that sequence is still
/// open: no forced close of the account and no loss of that connection came
/// after it was opened.
pub proof fn law_presence_reflects_history(cmds: Seq<WsManagerMessage>, account: u128)
    ensures
        run(cmds).contains_key(account) <==> exists|conn: u64| still_open(cmds, account, conn),
{
    let m = run(cmds);
    lemma_listed_iff_still_open(cmds, account, 0);
    if m.contains_key(account) {
        let conn = m[account][0];
        assert(listed(m, account).contains(conn));
        lemma_listed_iff_still_open(cmds, account, conn);
    }
    if exists|conn: u64| still_open(cmds, account, conn) {
        let conn = choose|conn: u64| still_open(cmds, account, conn);
        lemma_listed_iff_still_open(cmds, account, conn);
    }
}

/// Two connections opened for one account are both listed, in the order in
/// which they were opened. A forced close that follows hands the sentinel to
/// the senders of all listed connections, these two among them, and leaves
/// the account without an entry.
pub proof fn law_two_opens_then_close(
    m: Map<u128, Seq<u64>>,
    account: u128,
    first: u64,
    second: u64,
    reaction: Reaction,
)
    requires
        reaction.answers(
            opened(opened(m, account, first), account, second),
            WsManagerMessage::CloseSocket(account),
        ),
    ensures
        listed(opened(opened(m, account, first), account, second), account) == listed(
            m,
            account,
        ).push(first).push(second),
        reaction matches Reaction::Deliver { connections, event } && event
            == WsMessage::ServerQuitSocket && connections@ == listed(m, account).push(first).push(
            second,
        ),
        !step(
            opened(opened(m, account, first), account, second),
            WsManagerMessage::CloseSocket(account),
        ).contains_key(account),
{
}

/// An event sent to an account that is offline is handed to no sender, and
/// the presence map stays as it is.
pub proof fn law_send_to_offline_account(
    m: Map<u128, Seq<u64>>,
    account: u128,
    event: WsMessage,
    reaction: Reaction,
)
    requires
        !m.contains_key(account),
        reaction.answers(m, WsManagerMessage::SendMessage(account, event)),
    ensures
        reaction matches Reaction::Deliver { connections, event: delivered } && connections@.len()
            == 0 && delivered == event,
        step(m, WsManagerMessage::SendMessage(account, event)) == m,
{
}

/// The answer to a count query is the sum of the lengths of all connection
/// lists, and a command changes that sum by what it lists or takes away.
pub proof fn law_count_follows_commands(m: Map<u128, Seq<u64>>, msg: WsManagerMessage)
    requires
        well_formed(m),
    ensures
        match msg {
            WsManagerMessage::OpenedSocket(_, _) => total_connections(step(m, msg))
                == total_connections(m) + 1,
            WsManagerMessage::CloseSocket(account) => total_connections(step(m, msg))
                + listed(m, account).len() == total_connections(m),
            WsManagerMessage::WebsocketClosed(account, conn) => total_connections(step(m, msg))
                + listed(m, account).len() == total_connections(m) + without(
                listed(m, account),
                conn,
            ).len(),
            _ => total_connections(step(m, msg)) == total_connections(m),
        },
{
    match msg {
        WsManagerMessage::OpenedSocket(account, conn) => {
            crate::registry::lemma_total_remove(m, account);
            crate::registry::lemma_total_insert(m, account, listed(m, account).push(conn));
        },
        WsManagerMessage::CloseSocket(account) => {
            crate::registry::lemma_total_remove(m, account);
        },
        WsManagerMessage::WebsocketClosed(account, conn) => {
            crate::registry::lemma_total_remove(m, account);
            crate::registry::lemma_total_insert(m, account, without(listed(m, account), conn));
        },
        _ => {},
    }
}

/// Reporting the loss of a connection a second time changes nothing, and
/// reporting one for an account that is offline changes nothing at all.
pub proof fn law_disconnect_is_idempotent(m: Map<u128, Seq<u64>>, account: u128, conn: u64)
    requires
        well_formed(m),
    ensures
        dropped(dropped(m, account, conn), account, conn) == dropped(m, account, conn),
        !m.contains_key(account) ==> dropped(m, account, conn) == m,
{
    let once = dropped(m, account, conn);
    let rest = without(listed(m, account), conn);
    assert(listed(once, account) =~= rest);
    assert(without(rest, conn) =~= rest) by {
        assert forall|i: int| 0 <= i < rest.len() implies differs_from(conn)(#[trigger] rest[i]) by {
            listed(m, account).lemma_filter_pred(differs_from(conn), i);
        }
        lemma_filter_all(rest, conn);
    }
    assert(dropped(once, account, conn) =~= once);
    if !m.contains_key(account) {
        reveal(Seq::filter);
        assert(rest =~= Seq::<u64>::empty());
        assert(once =~= m);
    }
}

/// Taking `conn` out of a list that does not hold it leaves the list as it
/// is.
proof fn lemma_filter_all(list: Seq<u64>, conn: u64)
    requires
        forall|i: int| 0 <= i < list.len() ==> differs_from(conn)(#[trigger] list[i]),
    ensures
        without(list, conn) == list,
    decreases list.len(),
{
    reveal(Seq::filter);
    if list.len() > 0 {
        let shorter = list.drop_last();
        assert forall|i: int| 0 <= i < shorter.len() implies differs_from(conn)(
            #[trigger] shorter[i],
        ) by {
            assert(shorter[i] == list[i]);
        }
        lemma_filter_all(shorter, conn);
        assert(differs_from(conn)(list[list.len() - 1]));
        assert(shorter.push(list.last()) =~= list);
    }
}

} // verus!
