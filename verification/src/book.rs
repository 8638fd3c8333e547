//! A vault and its branches over time.
//!
//! The operations act on the accounts of one call. This module follows a
//! vault through any sequence of them and proves what the records then add
//! up to. Nothing here runs: a `Book` is a picture of the records, and an
//! `Event` is one call of `open_branch`, `close_branch` or `pay` on them,
//! with whatever accounts the caller and the host hand in.

use vstd::prelude::*;
use crate::address::Address;
use crate::branch::{close_branch_outcome, open_branch_outcome, CloseBranch, OpenBranch};
use crate::error::LuloError;
use crate::ledger::{Reply, Step};
use crate::pay::{pay_outcome, Pay};
use crate::records::{Account, Branch, Vault};
use crate::vault::{opened_vault, OpenVault};

verus! {

/// A vault and every branch that was ever opened under it, the closed ones
/// included.
pub struct Book {
    pub vault: Account<Vault>,
    pub branches: Seq<Account<Branch>>,
}

/// One call on the records of a book.
pub enum Event {
    /// `open_branch` with these accounts, the book's vault in place of
    /// theirs. The record to open is the one that the accounts hold.
    Open { opening: OpenBranch, authority: Option<(Seq<u8>, u8)>, minted: Option<Reply> },
    /// `open_branch` with these accounts, the book's vault and the branch
    /// recorded at `index` in place of theirs: an attempt to open a branch
    /// again.
    Reopen {
        index: int,
        again: OpenBranch,
        authority: Option<(Seq<u8>, u8)>,
        minted: Option<Reply>,
    },
    /// `close_branch` by `signer` on the branch recorded at `index`.
    Close { index: int, signer: Address },
    /// `pay` with these accounts, the book's vault and the branch recorded at
    /// `index` in place of theirs, and this derivation and reply.
    Pay {
        index: int,
        paying: Pay,
        amount: u64,
        authority: Option<(Seq<u8>, u8)>,
        minted: Option<Reply>,
    },
}

/// 1 for an active branch and 0 for a closed one.
pub open spec fn counts(branch: Account<Branch>) -> nat {
    if branch.data.active {
        1
    } else {
        0
    }
}

/// How many of the branches are active.
pub open spec fn active_count(branches: Seq<Account<Branch>>) -> nat
    decreases branches.len(),
{
    if branches.len() == 0 {
        0
    } else {
        active_count(branches.drop_last()) + counts(branches.last())
    }
}

/// The debt of the branches together.
pub open spec fn total_debt(branches: Seq<Account<Branch>>) -> int
    decreases branches.len(),
{
    if branches.len() == 0 {
        0
    } else {
        total_debt(branches.drop_last()) + branches.last().data.balance
    }
}

impl Book {
    /// The book of a vault that `open_vault` has just written: no branch was
    /// opened yet.
    pub open spec fn opened(ctx: OpenVault) -> Book {
        Book {
            vault: Account { key: ctx.vault.key, data: opened_vault(ctx) },
            branches: Seq::empty(),
        }
    }

    /// Every recorded branch names a vault, as every record does that
    /// `open_branch` has written. Such a record is not blank.
    pub open spec fn wf(self) -> bool {
        forall|i: int|
            0 <= i < self.branches.len() ==> !(#[trigger] self.branches[i]).data.vault.is_zero()
    }

    /// The vault counts exactly the recorded branches that are active.
    pub open spec fn counted(self) -> bool {
        self.vault.data.active_branches == active_count(self.branches)
    }

    /// The vault owes exactly what its branches owe, the closed ones
    /// included.
    pub open spec fn balanced(self) -> bool {
        self.vault.data.balance == total_debt(self.branches)
    }

    /// The accounts of the call that an `Open` event makes on this book.
    pub open spec fn open_accounts(self, opening: OpenBranch) -> OpenBranch {
        OpenBranch { vault: self.vault, ..opening }
    }

    /// The accounts of the call that a `Reopen` event makes on this book.
    pub open spec fn reopen_accounts(self, index: int, again: OpenBranch) -> OpenBranch {
        OpenBranch { vault: self.vault, branch: self.branches[index], ..again }
    }

    /// The accounts of the call that a `Close` event makes on this book.
    pub open spec fn close_accounts(self, index: int, signer: Address) -> CloseBranch {
        CloseBranch { signer, vault: self.vault, branch: self.branches[index] }
    }

    /// The accounts of the call that a `Pay` event makes on this book.
    pub open spec fn pay_accounts(self, index: int, paying: Pay) -> Pay {
        Pay { vault: self.vault, branch: self.branches[index], ..paying }
    }

    /// The book after one event: the vault and the branch are what the call
    /// leaves in its accounts, and a branch that was opened is recorded. An
    /// event that names a branch which is not recorded changes nothing.
    pub open spec fn apply(self, event: Event) -> Book {
        match event {
            Event::Open { opening, authority, minted } => {
                let out = open_branch_outcome(self.open_accounts(opening), authority, minted);
                if out.0 == Ok::<Step, LuloError>(Step::Done) {
                    Book { vault: out.1.vault, branches: self.branches.push(out.1.branch) }
                } else {
                    Book { vault: out.1.vault, ..self }
                }
            },
            Event::Reopen { index, again, authority, minted } => {
                if 0 <= index < self.branches.len() {
                    let out = open_branch_outcome(
                        self.reopen_accounts(index, again),
                        authority,
                        minted,
                    );
                    Book {
                        vault: out.1.vault,
                        branches: self.branches.update(index, out.1.branch),
                    }
                } else {
                    self
                }
            },
            Event::Close { index, signer } => {
                if 0 <= index < self.branches.len() {
                    let out = close_branch_outcome(self.close_accounts(index, signer));
                    Book {
                        vault: out.1.vault,
                        branches: self.branches.update(index, out.1.branch),
                    }
                } else {
                    self
                }
            },
            Event::Pay { index, paying, amount, authority, minted } => {
                if 0 <= index < self.branches.len() {
                    let out = pay_outcome(
                        self.pay_accounts(index, paying),
                        amount,
                        authority,
                        minted,
                    );
                    Book {
                        vault: out.1.vault,
                        branches: self.branches.update(index, out.1.branch),
                    }
                } else {
                    self
                }
            },
        }
    }

    /// What one event pays out: the amount of a `pay` that completed, and
    /// nothing otherwise.
    pub open spec fn paid_by(self, event: Event) -> int {
        match event {
            Event::Pay { index, paying, amount, authority, minted } => {
                if 0 <= index < self.branches.len() && pay_outcome(
                    self.pay_accounts(index, paying),
                    amount,
                    authority,
                    minted,
                ).0 == Ok::<Step, LuloError>(Step::Done) {
                    amount as int
                } else {
                    0
                }
            },
            _ => 0,
        }
    }

    /// What one event pays out through the branch recorded at `through`.
    pub open spec fn paid_through_by(self, event: Event, through: int) -> int {
        match event {
            Event::Pay { index, .. } => if index == through {
                self.paid_by(event)
            } else {
                0
            },
            _ => 0,
        }
    }

    /// The book after the events, in their order.
    pub open spec fn run(self, events: Seq<Event>) -> Book
        decreases events.len(),
    {
        if events.len() == 0 {
            self
        } else {
            self.run(events.drop_last()).apply(events.last())
        }
    }

    /// What the events pay out together.
    pub open spec fn paid(self, events: Seq<Event>) -> int
        decreases events.len(),
    {
        if events.len() == 0 {
            0
        } else {
            self.paid(events.drop_last()) + self.run(events.drop_last()).paid_by(events.last())
        }
    }

    /// What the events pay out together through the branch recorded at
    /// `through`.
    pub open spec fn paid_through(self, events: Seq<Event>, through: int) -> int
        decreases events.len(),
    {
        if events.len() == 0 {
            0
        } else {
            self.paid_through(events.drop_last(), through) + self.run(
                events.drop_last(),
            ).paid_through_by(events.last(), through)
        }
    }
}

/// The count of the branches with one of them replaced.
pub proof fn lemma_count_update(
    branches: Seq<Account<Branch>>,
    index: int,
    branch: Account<Branch>,
)
    requires
        0 <= index < branches.len(),
    ensures
        active_count(branches.update(index, branch)) == active_count(branches) - counts(
            branches[index],
        ) + counts(branch),
    decreases branches.len(),
{
    let next = branches.update(index, branch);
    if index == branches.len() - 1 {
        assert(next.drop_last() =~= branches.drop_last());
    } else {
        lemma_count_update(branches.drop_last(), index, branch);
        assert(next.drop_last() =~= branches.drop_last().update(index, branch));
        assert(next.last() == branches.last());
    }
}

/// The debt of the branches with one of them replaced.
pub proof fn lemma_debt_update(
    branches: Seq<Account<Branch>>,
    index: int,
    branch: Account<Branch>,
)
    requires
        0 <= index < branches.len(),
    ensures
        total_debt(branches.update(index, branch)) == total_debt(branches)
            - branches[index].data.balance + branch.data.balance,
    decreases branches.len(),
{
    let next = branches.update(index, branch);
    if index == branches.len() - 1 {
        assert(next.drop_last() =~= branches.drop_last());
    } else {
        lemma_debt_update(branches.drop_last(), index, branch);
        assert(next.drop_last() =~= branches.drop_last().update(index, branch));
        assert(next.last() == branches.last());
    }
}

/// A vault that was just opened keeps the books: it counts no branch and
/// owes nothing.
pub proof fn lemma_opened_vault_keeps_books(ctx: OpenVault)
    ensures
        Book::opened(ctx).wf(),
        Book::opened(ctx).counted(),
        Book::opened(ctx).balanced(),
{
}

/// A recorded branch is never opened again, active or closed: the attempt
/// fails, whoever makes it and with whatever accounts, and the book is as it
/// was.
pub proof fn lemma_recorded_branch_is_not_reopened(
    book: Book,
    index: int,
    again: OpenBranch,
    authority: Option<(Seq<u8>, u8)>,
    minted: Option<Reply>,
)
    requires
        book.wf(),
        0 <= index < book.branches.len(),
    ensures
        open_branch_outcome(book.reopen_accounts(index, again), authority, minted).0 is Err,
        book.apply(Event::Reopen { index, again, authority, minted }) == book,
{
    let next = book.apply(Event::Reopen { index, again, authority, minted });
    assert(!book.branches[index].data.vault.is_zero());
    assert(next.branches =~= book.branches);
}

/// A closed branch is never closed again: the attempt fails and the book is
/// as it was.
pub proof fn lemma_closed_branch_is_not_closed_again(book: Book, index: int, signer: Address)
    requires
        0 <= index < book.branches.len(),
        !book.branches[index].data.active,
    ensures
        close_branch_outcome(book.close_accounts(index, signer)).0 is Err,
        book.apply(Event::Close { index, signer }) == book,
{
    let next = book.apply(Event::Close { index, signer });
    assert(next.branches =~= book.branches);
}

/// One event keeps the books: every recorded branch still names a vault, the
/// vault still counts the active ones, it still owes what the branches owe,
/// and its balance has grown by what the event paid out.
pub proof fn lemma_apply_keeps_books(book: Book, event: Event)
    ensures
        book.apply(event).vault.key == book.vault.key,
        book.apply(event).vault.data.balance == book.vault.data.balance + book.paid_by(event),
        book.wf() ==> book.apply(event).wf(),
        book.wf() && book.counted() ==> book.apply(event).counted(),
        book.wf() && book.balanced() ==> book.apply(event).balanced(),
{
    let next = book.apply(event);
    match event {
        Event::Open { opening, authority, minted } => {
            let out = open_branch_outcome(book.open_accounts(opening), authority, minted);
            if out.0 == Ok::<Step, LuloError>(Step::Done) {
                assert(next.branches.drop_last() =~= book.branches);
                assert(next.branches.last() == out.1.branch);
            }
        },
        Event::Reopen { index, again, authority, minted } => {
            if 0 <= index < book.branches.len() && book.wf() {
                lemma_recorded_branch_is_not_reopened(book, index, again, authority, minted);
            }
        },
        Event::Close { index, signer } => {
            if 0 <= index < book.branches.len() {
                let out = close_branch_outcome(book.close_accounts(index, signer));
                lemma_count_update(book.branches, index, out.1.branch);
                lemma_debt_update(book.branches, index, out.1.branch);
            }
        },
        Event::Pay { index, paying, amount, authority, minted } => {
            if 0 <= index < book.branches.len() {
                let out = pay_outcome(book.pay_accounts(index, paying), amount, authority, minted);
                lemma_count_update(book.branches, index, out.1.branch);
                lemma_debt_update(book.branches, index, out.1.branch);
            }
        },
    }
}

/// One event leaves every recorded branch in its place, and the debt of each
/// has grown by what the event paid out through it.
pub proof fn lemma_apply_keeps_branch_debt(book: Book, event: Event, through: int)
    requires
        book.wf(),
        0 <= through < book.branches.len(),
    ensures
        book.apply(event).branches.len() >= book.branches.len(),
        book.apply(event).branches[through].key == book.branches[through].key,
        book.apply(event).branches[through].data.balance == book.branches[through].data.balance
            + book.paid_through_by(event, through),
{
    match event {
        Event::Reopen { index, again, authority, minted } => {
            if 0 <= index < book.branches.len() {
                lemma_recorded_branch_is_not_reopened(book, index, again, authority, minted);
            }
        },
        _ => {},
    }
}

/// After any sequence of calls, the debt of a branch has grown by exactly the
/// sum of the amounts of the `pay` calls that completed on it.
pub proof fn lemma_branch_debt_conservation(book: Book, events: Seq<Event>, through: int)
    requires
        book.wf(),
        0 <= through < book.branches.len(),
    ensures
        book.run(events).wf(),
        book.run(events).branches.len() >= book.branches.len(),
        book.run(events).branches[through].key == book.branches[through].key,
        book.run(events).branches[through].data.balance == book.branches[through].data.balance
            + book.paid_through(events, through),
    decreases events.len(),
{
    if events.len() > 0 {
        lemma_branch_debt_conservation(book, events.drop_last(), through);
        lemma_apply_keeps_books(book.run(events.drop_last()), events.last());
        lemma_apply_keeps_branch_debt(book.run(events.drop_last()), events.last(), through);
    }
}

/// After any sequence of `open_branch`, `close_branch` and `pay` calls on a
/// vault, attempts to open a branch again or to close one twice included,
/// the vault's count of active branches is the number of its branches that
/// are active.
pub proof fn lemma_count_consistency(book: Book, events: Seq<Event>)
    requires
        book.wf(),
        book.counted(),
    ensures
        book.run(events).wf(),
        book.run(events).counted(),
        book.run(events).vault.data.active_branches == active_count(book.run(events).branches),
    decreases events.len(),
{
    if events.len() > 0 {
        lemma_count_consistency(book, events.drop_last());
        lemma_apply_keeps_books(book.run(events.drop_last()), events.last());
    }
}

/// After any sequence of calls, the vault's balance has grown by exactly the
/// sum of the amounts of the `pay` calls that completed.
pub proof fn lemma_debt_conservation(book: Book, events: Seq<Event>)
    ensures
        book.run(events).vault.data.balance == book.vault.data.balance + book.paid(events),
    decreases events.len(),
{
    if events.len() > 0 {
        lemma_debt_conservation(book, events.drop_last());
        lemma_apply_keeps_books(book.run(events.drop_last()), events.last());
    }
}

/// After any sequence of calls, the vault owes exactly what all the branches
/// ever opened under it owe, the closed ones included.
pub proof fn lemma_vault_owes_branch_debt(book: Book, events: Seq<Event>)
    requires
        book.wf(),
        book.balanced(),
    ensures
        book.run(events).wf(),
        book.run(events).balanced(),
    decreases events.len(),
{
    if events.len() > 0 {
        lemma_vault_owes_branch_debt(book, events.drop_last());
        lemma_apply_keeps_books(book.run(events.drop_last()), events.last());
    }
}

} // verus!
