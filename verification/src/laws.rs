//! What holds of the ledger whatever is done with it, proved of the state
//! machine against which the executable ledger is specified.

use vstd::prelude::*;
use crate::account::AccountId;
use crate::entry::AuditLogView;
use crate::error::Error;
use crate::model::{entry_of, LedgerState, Operation};
use crate::pagination::{page_end, page_of, page_start};

verus! {

/// The fields of one append: title, content and timestamp.
pub type Item = (Seq<u8>, Seq<u8>, Seq<u8>);

/// The ledger after `sender` has appended `items`, one after the other, under
/// `(name, date)`.
pub open spec fn append_each(
    s: LedgerState,
    sender: AccountId,
    name: Seq<u8>,
    date: Seq<u8>,
    items: Seq<Item>,
) -> LedgerState
    decreases items.len(),
{
    if items.len() == 0 {
        s
    } else {
        append_each(s, sender, name, date, items.drop_last()).append_log(
            sender,
            name,
            date,
            items.last().0,
            items.last().1,
            items.last().2,
        )
    }
}

/// The entries that appends of `items` by `sender` store, in the same order.
pub open spec fn entries_of(items: Seq<Item>, sender: AccountId) -> Seq<AuditLogView<AccountId>> {
    items.map_values(|item: Item| entry_of(item.0, item.1, item.2, sender))
}

/// Whether `shorter` is how `longer` begins.
pub open spec fn begins_with<T>(longer: Seq<T>, shorter: Seq<T>) -> bool {
    shorter.len() <= longer.len() && longer.subrange(0, shorter.len() as int) == shorter
}

/// The empty ledger is a valid one.
pub proof fn law_genesis_is_valid(now: u64)
    ensures
        LedgerState::genesis(now).inv(),
{
}

/// Whether a ledger is valid depends on its entries, owners and claims alone:
/// the logical time and the queue of notifications have no part in it.
pub proof fn law_validity_is_of_the_records(s: LedgerState, t: LedgerState)
    requires
        s.inv(),
        t.logs == s.logs,
        t.owners == s.owners,
        t.claims == s.claims,
    ensures
        t.inv(),
{
}

/// An append leaves a valid ledger valid, whether it succeeds or not.
pub proof fn law_append_keeps_valid(
    s: LedgerState,
    sender: AccountId,
    name: Seq<u8>,
    date: Seq<u8>,
    title: Seq<u8>,
    content: Seq<u8>,
    timestamp: Seq<u8>,
)
    requires
        s.inv(),
    ensures
        s.append_log(sender, name, date, title, content, timestamp).inv(),
{
    let t = s.append_log(sender, name, date, title, content, timestamp);
    if s.append_outcome(name, sender) is Ok {
        assert forall|k: (Seq<u8>, Seq<u8>), i: int|
            t.logs.contains_key(k) && 0 <= i < t.logs[k].len() implies t.is_owner(
            k.0,
            (#[trigger] t.logs[k][i]).reporter,
        ) by {
            if k == (name, date) && i == s.bucket(name, date).len() && !s.is_known(name) {
                assert(t.owners[name][0] == sender);
            }
        }
        assert forall|n: Seq<u8>| #[trigger] t.owners.contains_key(n) implies t.owners[n].len() > 0
            && exists|d: Seq<u8>| t.logs.contains_key((n, d)) by {
            if n == name {
                assert(t.logs.contains_key((n, date)));
            } else {
                let d = choose|d: Seq<u8>| s.logs.contains_key((n, d));
                assert(t.logs.contains_key((n, d)));
            }
        }
    }
}

/// Opening a name for a claim leaves a valid ledger valid.
pub proof fn law_open_keeps_valid(
    s: LedgerState,
    sender: AccountId,
    name: Seq<u8>,
    claimer: AccountId,
)
    requires
        s.inv(),
    ensures
        s.open_for_claim(sender, name, claimer).inv(),
{
    let t = s.open_for_claim(sender, name, claimer);
    if s.open_outcome(name, sender) is Ok {
        assert forall|n: Seq<u8>| #[trigger] t.owners.contains_key(n) implies t.owners[n].len() > 0
            && exists|d: Seq<u8>| t.logs.contains_key((n, d)) by {
            let d = choose|d: Seq<u8>| s.logs.contains_key((n, d));
            assert(t.logs.contains_key((n, d)));
        }
    }
}

/// Accepting a claim leaves a valid ledger valid.
pub proof fn law_accept_keeps_valid(s: LedgerState, claimer: AccountId, name: Seq<u8>)
    requires
        s.inv(),
    ensures
        s.accept_claim(claimer, name).inv(),
{
    let t = s.accept_claim(claimer, name);
    if s.accept_outcome(name, claimer) is Ok {
        assert forall|k: (Seq<u8>, Seq<u8>), i: int|
            t.logs.contains_key(k) && 0 <= i < t.logs[k].len() implies t.is_owner(
            k.0,
            (#[trigger] t.logs[k][i]).reporter,
        ) by {
            let who = s.logs[k][i].reporter;
            if k.0 == name {
                let at = choose|at: int| 0 <= at < s.owners[name].len() && s.owners[name][at] == who;
                assert(t.owners[name][at] == who);
            }
        }
        assert forall|n: Seq<u8>| #[trigger] t.owners.contains_key(n) implies t.owners[n].len() > 0
            && exists|d: Seq<u8>| t.logs.contains_key((n, d)) by {
            let d = choose|d: Seq<u8>| s.logs.contains_key((n, d));
            assert(t.logs.contains_key((n, d)));
        }
    }
}

/// Every step leaves a valid ledger valid.
pub proof fn law_step_keeps_valid(s: LedgerState, op: Operation)
    requires
        s.inv(),
    ensures
        s.apply(op).inv(),
{
    match op {
        Operation::Append { sender, name, date, title, content, timestamp } => {
            law_append_keeps_valid(s, sender, name, date, title, content, timestamp);
        },
        Operation::Open { sender, name, claimer } => {
            law_open_keeps_valid(s, sender, name, claimer);
        },
        Operation::Accept { claimer, name } => {
            law_accept_keeps_valid(s, claimer, name);
        },
        Operation::SetTime { now } => {
            law_validity_is_of_the_records(s, s.apply(op));
        },
        Operation::TakeEvents => {
            law_validity_is_of_the_records(s, s.apply(op));
        },
    }
}

/// Every ledger that is reached from an empty one, by whatever history, is valid.
pub proof fn law_reachable_is_valid(now: u64, history: Seq<Operation>)
    ensures
        LedgerState::genesis(now).run(history).inv(),
    decreases history.len(),
{
    if history.len() > 0 {
        law_reachable_is_valid(now, history.drop_last());
        law_step_keeps_valid(LedgerState::genesis(now).run(history.drop_last()), history.last());
    }
}

/// An operation that is refused changes nothing.
pub proof fn law_refusal_changes_nothing(
    s: LedgerState,
    sender: AccountId,
    name: Seq<u8>,
    date: Seq<u8>,
    title: Seq<u8>,
    content: Seq<u8>,
    timestamp: Seq<u8>,
    claimer: AccountId,
)
    ensures
        s.append_outcome(name, sender) is Err ==> s.append_log(
            sender,
            name,
            date,
            title,
            content,
            timestamp,
        ) == s,
        s.open_outcome(name, sender) is Err ==> s.open_for_claim(sender, name, claimer) == s,
        s.accept_outcome(name, claimer) is Err ==> s.accept_claim(claimer, name) == s,
{
}

/// The first append to a name that nobody has written yet succeeds, and makes
/// its sender the one owner of the name. On a valid ledger the entry is then
/// the only one in its bucket.
pub proof fn law_first_writer_owns(
    s: LedgerState,
    sender: AccountId,
    name: Seq<u8>,
    date: Seq<u8>,
    title: Seq<u8>,
    content: Seq<u8>,
    timestamp: Seq<u8>,
)
    requires
        !s.is_known(name),
    ensures
        s.append_outcome(name, sender) is Ok,
        s.append_log(sender, name, date, title, content, timestamp).owners[name] == seq![sender],
        s.append_log(sender, name, date, title, content, timestamp).is_owner(name, sender),
        s.inv() ==> s.append_log(sender, name, date, title, content, timestamp).bucket(name, date)
            == seq![entry_of(title, content, timestamp, sender)],
{
    let t = s.append_log(sender, name, date, title, content, timestamp);
    assert(t.owners[name][0] == sender);
}

/// An append to an owned name by an account that is not among its owners is
/// refused as `NotAnOwner`, and leaves every bucket, and all the rest, as it was.
pub proof fn law_ownership_gate(
    s: LedgerState,
    sender: AccountId,
    name: Seq<u8>,
    date: Seq<u8>,
    title: Seq<u8>,
    content: Seq<u8>,
    timestamp: Seq<u8>,
)
    requires
        s.is_known(name),
        !s.owners[name].contains(sender),
    ensures
        s.append_outcome(name, sender) == Err::<(), Error>(Error::NotAnOwner),
        s.append_log(sender, name, date, title, content, timestamp) == s,
        s.append_log(sender, name, date, title, content, timestamp).bucket(name, date) == s.bucket(
            name,
            date,
        ),
{
}

/// An append by an owner, or to a name that nobody has written yet, puts the
/// entry at the end of its bucket and leaves the entries before it as they were.
pub proof fn law_append_goes_last(
    s: LedgerState,
    sender: AccountId,
    name: Seq<u8>,
    date: Seq<u8>,
    title: Seq<u8>,
    content: Seq<u8>,
    timestamp: Seq<u8>,
)
    requires
        s.append_outcome(name, sender) is Ok,
    ensures
        s.append_log(sender, name, date, title, content, timestamp).bucket(name, date) == s.bucket(
            name,
            date,
        ).push(entry_of(title, content, timestamp, sender)),
        s.append_log(sender, name, date, title, content, timestamp).append_outcome(name, sender)
            is Ok,
{
    let t = s.append_log(sender, name, date, title, content, timestamp);
    if !s.is_known(name) {
        assert(t.owners[name][0] == sender);
    }
}

/// Once a name is owned, an append to it succeeds for its owners and for
/// nobody else.
pub proof fn law_append_is_for_owners(s: LedgerState, sender: AccountId, name: Seq<u8>)
    requires
        s.is_known(name),
    ensures
        s.append_outcome(name, sender) is Ok <==> s.is_owner(name, sender),
        s.append_outcome(name, sender) is Err ==> s.append_outcome(name, sender) == Err::<
            (),
            Error,
        >(Error::NotAnOwner),
{
}

/// Appends accumulate: after `k` appends under one `(name, date)` by an
/// account that may write there, the bucket holds what it held before and
/// then the `k` entries, in the order of the appends. A bucket that was not
/// there before holds exactly the `k` entries.
pub proof fn law_append_accumulates(
    s: LedgerState,
    sender: AccountId,
    name: Seq<u8>,
    date: Seq<u8>,
    items: Seq<Item>,
)
    requires
        s.append_outcome(name, sender) is Ok,
    ensures
        append_each(s, sender, name, date, items).append_outcome(name, sender) is Ok,
        append_each(s, sender, name, date, items).bucket(name, date) == s.bucket(name, date)
            + entries_of(items, sender),
        !s.logs.contains_key((name, date)) ==> append_each(s, sender, name, date, items).bucket(
            name,
            date,
        ) == entries_of(items, sender) && append_each(s, sender, name, date, items).bucket(
            name,
            date,
        ).len() == items.len(),
    decreases items.len(),
{
    if items.len() > 0 {
        let before = append_each(s, sender, name, date, items.drop_last());
        law_append_accumulates(s, sender, name, date, items.drop_last());
        law_append_goes_last(
            before,
            sender,
            name,
            date,
            items.last().0,
            items.last().1,
            items.last().2,
        );
        assert(entries_of(items, sender) =~= entries_of(items.drop_last(), sender).push(
            entry_of(items.last().0, items.last().1, items.last().2, sender),
        ));
        assert(append_each(s, sender, name, date, items).bucket(name, date) =~= s.bucket(name, date)
            + entries_of(items, sender));
    }
}

/// A name has at most one pending claim: while one is pending, an owner who
/// asks to open the name again is refused as `AlreadyOpenForClaim`, whoever
/// the new claimer would be, and the pending claim stays as it is.
pub proof fn law_claim_singleton(
    s: LedgerState,
    sender: AccountId,
    name: Seq<u8>,
    claimer: AccountId,
)
    requires
        s.claims.contains_key(name),
        s.is_owner(name, sender),
    ensures
        s.open_outcome(name, sender) == Err::<(), Error>(Error::AlreadyOpenForClaim),
        s.open_for_claim(sender, name, claimer) == s,
{
}

/// Whoever asks, opening a name that has a pending claim never succeeds, and
/// never replaces the claim.
pub proof fn law_pending_claim_stays(
    s: LedgerState,
    sender: AccountId,
    name: Seq<u8>,
    claimer: AccountId,
)
    requires
        s.claims.contains_key(name),
    ensures
        s.open_outcome(name, sender) is Err,
        s.open_for_claim(sender, name, claimer) == s,
{
}

/// A pending claim leaves the ledger in one way only: it is accepted by the
/// account that it designates. Every other step leaves it pending, as it is.
pub proof fn law_claim_stays_until_accepted(s: LedgerState, op: Operation, name: Seq<u8>)
    requires
        s.claims.contains_key(name),
    ensures
        op == (Operation::Accept { claimer: s.claims[name].assigned_claimer, name })
            ==> !s.apply(op).claims.contains_key(name),
        op != (Operation::Accept { claimer: s.claims[name].assigned_claimer, name }) ==> s.apply(
            op,
        ).claims.contains_key(name) && s.apply(op).claims[name] == s.claims[name],
{
}

/// Accepting a claim adds to the owners and takes none away: after a
/// successful accept the claimer owns the name, everyone who owned it before
/// still does, and the claim is no longer pending.
pub proof fn law_accept_is_additive(s: LedgerState, claimer: AccountId, name: Seq<u8>)
    requires
        s.accept_outcome(name, claimer) is Ok,
    ensures
        s.accept_claim(claimer, name).is_owner(name, claimer),
        forall|who: AccountId|
            s.is_owner(name, who) ==> #[trigger] s.accept_claim(claimer, name).is_owner(name, who),
        !s.accept_claim(claimer, name).claims.contains_key(name),
        s.accept_claim(claimer, name).logs == s.logs,
{
    let t = s.accept_claim(claimer, name);
    assert(t.owners[name][t.owners[name].len() - 1] == claimer);
    assert forall|who: AccountId| s.is_owner(name, who) implies #[trigger] t.is_owner(
        name,
        who,
    ) by {
        let at = choose|at: int| 0 <= at < s.owners[name].len() && s.owners[name][at] == who;
        assert(t.owners[name][at] == who);
    }
}

/// Nothing is ever taken back: whatever operation is applied, every owner
/// stays an owner and every bucket still begins with the entries that it held.
pub proof fn law_ledger_only_grows(
    s: LedgerState,
    sender: AccountId,
    name: Seq<u8>,
    date: Seq<u8>,
    title: Seq<u8>,
    content: Seq<u8>,
    timestamp: Seq<u8>,
    claimer: AccountId,
    t: LedgerState,
)
    requires
        t == s.append_log(sender, name, date, title, content, timestamp) || t == s.open_for_claim(
            sender,
            name,
            claimer,
        ) || t == s.accept_claim(claimer, name),
    ensures
        forall|n: Seq<u8>, who: AccountId| s.is_owner(n, who) ==> #[trigger] t.is_owner(n, who),
        forall|n: Seq<u8>, d: Seq<u8>| begins_with(#[trigger] t.bucket(n, d), s.bucket(n, d)),
{
    assert forall|n: Seq<u8>, who: AccountId| s.is_owner(n, who) implies #[trigger] t.is_owner(
        n,
        who,
    ) by {
        let at = choose|at: int| 0 <= at < s.owners[n].len() && s.owners[n][at] == who;
        if t.owners[n] != s.owners[n] {
            assert(t.owners[n][at] == who);
        }
    }
    assert forall|n: Seq<u8>, d: Seq<u8>| begins_with(#[trigger] t.bucket(n, d), s.bucket(n, d)) by {
        assert(t.bucket(n, d).subrange(0, s.bucket(n, d).len() as int) =~= s.bucket(n, d));
    }
}

/// Log names do not touch one another: an operation on one name leaves the
/// owners, the pending claim and the buckets of every other name as they were.
pub proof fn law_names_are_independent(
    s: LedgerState,
    sender: AccountId,
    name: Seq<u8>,
    date: Seq<u8>,
    title: Seq<u8>,
    content: Seq<u8>,
    timestamp: Seq<u8>,
    claimer: AccountId,
    t: LedgerState,
    other: Seq<u8>,
)
    requires
        t == s.append_log(sender, name, date, title, content, timestamp) || t == s.open_for_claim(
            sender,
            name,
            claimer,
        ) || t == s.accept_claim(claimer, name),
        other != name,
    ensures
        t.owners.contains_key(other) == s.owners.contains_key(other),
        t.owners.contains_key(other) ==> t.owners[other] == s.owners[other],
        t.claims.contains_key(other) == s.claims.contains_key(other),
        t.claims.contains_key(other) ==> t.claims[other] == s.claims[other],
        forall|d: Seq<u8>| #[trigger] t.bucket(other, d) == s.bucket(other, d),
        forall|d: Seq<u8>|
            #[trigger] t.logs.contains_key((other, d)) == s.logs.contains_key((other, d)),
{
}

/// A page never holds more entries than its size, and its entries are those
/// that stand at its place in the list, in their order.
pub proof fn law_page_contents<T>(entries: Seq<T>, page_size: u32, page_number: u32)
    ensures
        page_of(entries, page_size, page_number).len() <= page_size,
        page_start(page_size, page_number) < entries.len() ==> page_of(
            entries,
            page_size,
            page_number,
        ).len() == page_end(entries.len() as int, page_size, page_number) - page_start(
            page_size,
            page_number,
        ),
        forall|i: int|
            0 <= i < page_of(entries, page_size, page_number).len() ==> #[trigger] page_of(
                entries,
                page_size,
                page_number,
            )[i] == entries[page_start(page_size, page_number) + i],
{
    assert(page_start(page_size, page_number) >= 0) by (nonlinear_arith)
        requires
            page_start(page_size, page_number) == if page_number == 0 {
                0
            } else {
                page_size * (page_number - 1)
            },
            page_size >= 0,
            page_number >= 0,
    ;
}

/// Page 0 reads as page 1.
pub proof fn law_page_zero_is_page_one<T>(entries: Seq<T>, page_size: u32)
    ensures
        page_of(entries, page_size, 0) == page_of(entries, page_size, 1),
{
}

/// A bucket that was never written reads as empty on every page: a read does
/// not fail.
pub proof fn law_empty_read(
    s: LedgerState,
    name: Seq<u8>,
    date: Seq<u8>,
    page_size: u32,
    page_number: u32,
)
    requires
        !s.logs.contains_key((name, date)),
    ensures
        s.bucket(name, date) == Seq::<AuditLogView<AccountId>>::empty(),
        page_of(s.bucket(name, date), page_size, page_number) == Seq::<
            AuditLogView<AccountId>,
        >::empty(),
{
    law_page_contents(s.bucket(name, date), page_size, page_number);
    assert(page_of(s.bucket(name, date), page_size, page_number) =~= Seq::<
        AuditLogView<AccountId>,
    >::empty());
}

} // verus!
