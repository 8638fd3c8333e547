use lulo::authority::{Derived, Label};
use lulo::{
    close_branch, close_vault, derive_authority, initialize, initialize_with_authority, open_branch,
    open_branch_with_authority, open_vault, pay, pay_with_authority, swap, swap_with_authorities,
    Account, Address, Authority, Branch, Check, CloseBranch, CloseVault, Collateral,
    CollateralPosition, Initialize, LedgerCall, LedgerError, LuloError, OpenBranch, OpenVault, Pay,
    Positions, Reclaim, Seeds, State, Step, Swap, TokenAccount, Vault,
};

fn addr(byte: u8) -> Address {
    Address::new([byte; 32])
}

fn program() -> Address {
    addr(7)
}

fn admin() -> Address {
    addr(1)
}

fn vault_key() -> Address {
    addr(20)
}

fn branch_key() -> Address {
    addr(30)
}

fn pay_mint() -> Derived {
    derive_authority(Label::PayMint, None, &program()).unwrap()
}

fn capability_mint() -> Derived {
    derive_authority(Label::Mint, Some(branch_key()), &program()).unwrap()
}

fn reserve_mint() -> Address {
    addr(50)
}

fn controller() -> Derived {
    derive_authority(Label::Controller, Some(reserve_mint()), &program()).unwrap()
}

fn vault(balance: u64, active_branches: u64) -> Account<Vault> {
    Account {
        key: vault_key(),
        data: Vault { admin: admin(), bump: 0, balance, active_branches, positions: addr(21) },
    }
}

fn branch(active: bool, balance: u64) -> Account<Branch> {
    Account {
        key: branch_key(),
        data: Branch { active, vault: vault_key(), mint: capability_mint().address, balance },
    }
}

fn opening() -> OpenBranch {
    OpenBranch {
        signer: admin(),
        vault: vault(0, 0),
        branch: Account { key: branch_key(), data: Branch::default() },
        mint: capability_mint().address,
        mint_account: Account {
            key: addr(31),
            data: TokenAccount { mint: capability_mint().address, owner: admin(), amount: 0 },
        },
    }
}

fn paying() -> Pay {
    Pay {
        signer: admin(),
        pay_mint: pay_mint().address,
        vault: vault(0, 1),
        branch: branch(true, 0),
        branch_nft: TokenAccount { mint: capability_mint().address, owner: admin(), amount: 1 },
        recipient: Account {
            key: addr(40),
            data: TokenAccount { mint: pay_mint().address, owner: addr(41), amount: 0 },
        },
    }
}

fn swapping() -> Swap {
    Swap {
        signer: addr(60),
        pay_mint: pay_mint().address,
        controller_mint: reserve_mint(),
        controller: controller().address,
        settle: Account {
            key: addr(61),
            data: TokenAccount { mint: pay_mint().address, owner: addr(60), amount: 500 },
        },
        recipient: Account {
            key: addr(62),
            data: TokenAccount { mint: reserve_mint(), owner: addr(60), amount: 0 },
        },
    }
}

fn refused(code: u64) -> Option<Result<(), LedgerError>> {
    Some(Err(LedgerError { code }))
}

fn accepted() -> Option<Result<(), LedgerError>> {
    Some(Ok(()))
}

#[test]
fn initialize_creates_the_global_state() {
    let mut ctx = Initialize { signer: admin(), state: None, mint: pay_mint().address };
    assert_eq!(initialize(&mut ctx, &program()), Ok(()));
    assert_eq!(
        ctx.state,
        Some(State {
            admin: admin(),
            pay_mint: pay_mint().address,
            pay_mint_bump: pay_mint().bump,
        })
    );
    assert_eq!(ctx.signer, admin());
    assert_eq!(ctx.mint, pay_mint().address);
}

#[test]
fn initialize_leaves_an_existing_state_alone() {
    let first = State { admin: addr(99), pay_mint: pay_mint().address, pay_mint_bump: 3 };
    let mut ctx = Initialize { signer: admin(), state: Some(first), mint: pay_mint().address };
    let before = ctx;
    assert_eq!(initialize(&mut ctx, &program()), Ok(()));
    assert_eq!(ctx, before);
}

#[test]
fn initialize_refuses_a_mint_that_is_not_at_the_derived_address() {
    let mut ctx = Initialize { signer: admin(), state: None, mint: addr(8) };
    let before = ctx;
    assert_eq!(initialize(&mut ctx, &program()), Err(LuloError::Derivation(Label::PayMint)));
    assert_eq!(ctx, before);
    assert_eq!(
        initialize_with_authority(&mut ctx, None),
        Err(LuloError::Derivation(Label::PayMint))
    );
    assert_eq!(ctx, before);
}

#[test]
fn initialize_refuses_a_caller_at_the_zero_address() {
    let mut ctx = Initialize { signer: Address::default(), state: None, mint: pay_mint().address };
    let before = ctx;
    assert_eq!(
        initialize(&mut ctx, &program()),
        Err(LuloError::Constraint(Check::SignerAddress))
    );
    assert_eq!(ctx, before);
    // Where the state exists, nothing is created and nothing is asked of the caller.
    let first = State { admin: addr(99), pay_mint: pay_mint().address, pay_mint_bump: 3 };
    ctx.state = Some(first);
    assert_eq!(initialize(&mut ctx, &program()), Ok(()));
    assert_eq!(ctx.state, Some(first));
}

#[test]
fn a_stored_state_exists_once_it_names_an_admin() {
    let blank =
        State { admin: Address::default(), pay_mint: Address::default(), pay_mint_bump: 0 };
    assert_eq!(State::existing(blank), None);
    let unnamed = State { admin: Address::default(), pay_mint: addr(4), pay_mint_bump: 9 };
    assert_eq!(State::existing(unnamed), None);
    let named = State { admin: addr(1), pay_mint: addr(4), pay_mint_bump: 9 };
    assert_eq!(State::existing(named), Some(named));
}

#[test]
fn a_created_state_reads_as_existing() {
    let mut ctx = Initialize { signer: admin(), state: None, mint: pay_mint().address };
    assert_eq!(initialize(&mut ctx, &program()), Ok(()));
    let stored = ctx.state.unwrap();
    assert_eq!(State::existing(stored), Some(stored));
    let mut again = Initialize {
        signer: addr(2),
        state: State::existing(stored),
        mint: pay_mint().address,
    };
    assert_eq!(initialize(&mut again, &program()), Ok(()));
    assert_eq!(again.state, Some(stored));
}

#[test]
fn initialize_records_the_bump_it_is_given() {
    let mut ctx = Initialize { signer: admin(), state: None, mint: addr(8) };
    let authority = Some(Derived { address: addr(8), bump: 250 });
    assert_eq!(initialize_with_authority(&mut ctx, authority), Ok(()));
    assert_eq!(ctx.state.unwrap().pay_mint_bump, 250);
    assert_eq!(ctx.state.unwrap().pay_mint, addr(8));
    assert_eq!(ctx.state.unwrap().admin, admin());
}

#[test]
fn open_vault_writes_the_vault_and_its_registry() {
    let mut ctx = OpenVault {
        signer: admin(),
        vault: Account {
            key: vault_key(),
            data: Vault {
                admin: addr(0),
                bump: 9,
                balance: 77,
                active_branches: 5,
                positions: addr(0),
            },
        },
        positions: Account {
            key: addr(21),
            data: Positions { vault: addr(0), num_positions: 4, positions: [addr(3); 5] },
        },
    };
    assert_eq!(open_vault(&mut ctx), Ok(()));
    assert_eq!(
        ctx.vault.data,
        Vault { admin: admin(), bump: 9, balance: 0, active_branches: 0, positions: addr(21) }
    );
    assert_eq!(
        ctx.positions.data,
        Positions { vault: vault_key(), num_positions: 0, positions: [Address::default(); 5] }
    );
    assert_eq!(ctx.vault.key, vault_key());
    assert_eq!(ctx.positions.key, addr(21));
    assert_eq!(ctx.signer, admin());
}

#[test]
fn close_vault_always_succeeds() {
    assert_eq!(close_vault(&CloseVault {}), Ok(()));
}

#[test]
fn open_branch_asks_for_one_capability_token_first() {
    let mut ctx = opening();
    let before = ctx;
    let step = open_branch(&mut ctx, &program(), None);
    assert_eq!(
        step,
        Ok(Step::Invoke(LedgerCall::MintTo {
            mint: capability_mint().address,
            to: addr(31),
            authority: Authority::Derived {
                address: capability_mint().address,
                seeds: Seeds {
                    label: Label::Mint,
                    parent: Some(branch_key()),
                    bump: capability_mint().bump,
                },
            },
            amount: 1,
        }))
    );
    assert_eq!(ctx, before);
}

#[test]
fn open_branch_writes_the_branch_once_the_token_is_minted() {
    let mut ctx = opening();
    ctx.vault.data.active_branches = 2;
    ctx.vault.data.balance = 10;
    assert!(ctx.branch.data.is_blank());
    assert_eq!(open_branch(&mut ctx, &program(), accepted()), Ok(Step::Done));
    assert_eq!(
        ctx.branch.data,
        Branch { active: true, vault: vault_key(), mint: capability_mint().address, balance: 0 }
    );
    assert_eq!(ctx.vault.data.active_branches, 3);
    assert_eq!(ctx.vault.data.balance, 10);
    assert_eq!(ctx.vault.data.admin, admin());
    assert_eq!(ctx.mint_account, opening().mint_account);
}

#[test]
fn open_branch_passes_a_ledger_refusal_on_and_changes_nothing() {
    let mut ctx = opening();
    let before = ctx;
    assert_eq!(
        open_branch(&mut ctx, &program(), refused(17)),
        Err(LuloError::Ledger(LedgerError { code: 17 }))
    );
    assert_eq!(ctx, before);
}

#[test]
fn open_branch_is_for_the_admin_only() {
    let mut ctx = opening();
    ctx.signer = addr(2);
    ctx.mint_account.data.owner = addr(2);
    let before = ctx;
    for minted in [None, accepted(), refused(1)] {
        assert_eq!(
            open_branch(&mut ctx, &program(), minted),
            Err(LuloError::Constraint(Check::Admin))
        );
        assert_eq!(ctx, before);
    }
}

#[test]
fn open_branch_checks_the_capability_account() {
    let mut ctx = opening();
    ctx.mint_account.data.mint = addr(5);
    let before = ctx;
    assert_eq!(
        open_branch(&mut ctx, &program(), accepted()),
        Err(LuloError::Constraint(Check::CapabilityMint))
    );
    assert_eq!(ctx, before);

    let mut ctx = opening();
    ctx.mint_account.data.owner = addr(5);
    let before = ctx;
    assert_eq!(
        open_branch(&mut ctx, &program(), accepted()),
        Err(LuloError::Constraint(Check::CapabilityOwner))
    );
    assert_eq!(ctx, before);
}

#[test]
fn open_branch_checks_the_derived_mint() {
    let mut ctx = opening();
    ctx.mint = addr(5);
    ctx.mint_account.data.mint = addr(5);
    let before = ctx;
    assert_eq!(
        open_branch(&mut ctx, &program(), accepted()),
        Err(LuloError::Derivation(Label::Mint))
    );
    assert_eq!(ctx, before);
    assert_eq!(
        open_branch_with_authority(&mut ctx, None, accepted()),
        Err(LuloError::Derivation(Label::Mint))
    );
    // The mint of another branch is not this branch's mint.
    let other = derive_authority(Label::Mint, Some(addr(33)), &program());
    let mut ctx = opening();
    assert_eq!(
        open_branch_with_authority(&mut ctx, other, accepted()),
        Err(LuloError::Derivation(Label::Mint))
    );
}

#[test]
fn open_branch_refuses_an_active_branch() {
    let mut ctx = opening();
    ctx.vault = vault(500, 1);
    ctx.branch = branch(true, 500);
    let before = ctx;
    for minted in [None, accepted(), refused(1)] {
        assert_eq!(open_branch(&mut ctx, &program(), minted), Err(LuloError::BranchExists));
        assert_eq!(ctx, before);
    }
    assert_eq!(ctx.branch.data.balance, 500);
    assert_eq!(ctx.vault.data.balance, 500);
    assert_eq!(ctx.vault.data.active_branches, 1);
}

#[test]
fn open_branch_refuses_a_closed_branch() {
    let mut opened = opening();
    assert_eq!(open_branch(&mut opened, &program(), accepted()), Ok(Step::Done));
    let mut closing =
        CloseBranch { signer: admin(), vault: opened.vault, branch: opened.branch };
    assert!(close_branch(&mut closing).is_ok());
    assert!(!closing.branch.data.active);
    assert!(!closing.branch.data.is_blank());

    let mut again = opening();
    again.vault = closing.vault;
    again.branch = closing.branch;
    let before = again;
    for minted in [None, accepted()] {
        assert_eq!(open_branch(&mut again, &program(), minted), Err(LuloError::BranchExists));
        assert_eq!(again, before);
    }
    assert_eq!(again.vault.data.active_branches, 0);
}

#[test]
fn open_branch_refuses_any_record_that_is_not_blank() {
    let records = [
        Branch { active: true, ..Branch::default() },
        Branch { vault: vault_key(), ..Branch::default() },
        Branch { mint: addr(5), ..Branch::default() },
        Branch { balance: 1, ..Branch::default() },
    ];
    for record in records {
        assert!(!record.is_blank());
        let mut ctx = opening();
        ctx.branch.data = record;
        let before = ctx;
        assert_eq!(open_branch(&mut ctx, &program(), accepted()), Err(LuloError::BranchExists));
        assert_eq!(ctx, before);
    }
    assert!(Branch::default().is_blank());
}

#[test]
fn open_branch_needs_a_vault_with_an_address() {
    let mut ctx = opening();
    ctx.vault.key = Address::default();
    let before = ctx;
    assert_eq!(
        open_branch(&mut ctx, &program(), accepted()),
        Err(LuloError::Constraint(Check::VaultAddress))
    );
    assert_eq!(ctx, before);
}

#[test]
fn an_opened_branch_is_never_blank() {
    let mut ctx = opening();
    assert_eq!(open_branch(&mut ctx, &program(), accepted()), Ok(Step::Done));
    assert!(ctx.branch.data.active);
    assert!(!ctx.branch.data.is_blank());
    assert!(!ctx.branch.data.vault.is_zero());
}

#[test]
fn open_branch_checks_the_admin_before_the_rest() {
    let mut ctx = opening();
    ctx.signer = addr(2);
    ctx.mint = addr(5);
    ctx.vault.data.active_branches = u64::MAX;
    assert_eq!(
        open_branch(&mut ctx, &program(), None),
        Err(LuloError::Constraint(Check::Admin))
    );
}

#[test]
fn open_branch_fails_when_the_count_is_full() {
    let mut ctx = opening();
    ctx.vault.data.active_branches = u64::MAX;
    let before = ctx;
    for minted in [None, accepted()] {
        assert_eq!(open_branch(&mut ctx, &program(), minted), Err(LuloError::Overflow));
        assert_eq!(ctx, before);
    }
    ctx.vault.data.active_branches = u64::MAX - 1;
    assert_eq!(open_branch(&mut ctx, &program(), accepted()), Ok(Step::Done));
    assert_eq!(ctx.vault.data.active_branches, u64::MAX);
}

#[test]
fn close_branch_marks_the_branch_and_counts_it_out() {
    let mut ctx = CloseBranch { signer: admin(), vault: vault(900, 3), branch: branch(true, 400) };
    assert_eq!(
        close_branch(&mut ctx),
        Ok(Reclaim { record: branch_key(), refund_to: admin() })
    );
    assert!(!ctx.branch.data.active);
    assert_eq!(ctx.branch.data.balance, 400);
    assert_eq!(ctx.branch.data.vault, vault_key());
    assert_eq!(ctx.vault.data.active_branches, 2);
    // The debt of the closed branch stays with the vault.
    assert_eq!(ctx.vault.data.balance, 900);
}

#[test]
fn close_branch_closes_a_branch_once() {
    let mut ctx = CloseBranch { signer: admin(), vault: vault(900, 2), branch: branch(true, 400) };
    assert!(close_branch(&mut ctx).is_ok());
    assert_eq!(ctx.vault.data.active_branches, 1);
    let before = ctx;
    assert_eq!(close_branch(&mut ctx), Err(LuloError::InactiveBranch));
    assert_eq!(ctx, before);
    assert_eq!(ctx.vault.data.active_branches, 1);
}

#[test]
fn close_branch_refuses_an_inactive_branch() {
    for count in [0, 1, 7, u64::MAX] {
        let mut ctx =
            CloseBranch { signer: admin(), vault: vault(3, count), branch: branch(false, 3) };
        let before = ctx;
        assert_eq!(close_branch(&mut ctx), Err(LuloError::InactiveBranch));
        assert_eq!(ctx, before);
    }
}

#[test]
fn close_branch_is_for_the_admin_only() {
    let mut ctx = CloseBranch { signer: addr(2), vault: vault(0, 1), branch: branch(true, 0) };
    let before = ctx;
    assert_eq!(close_branch(&mut ctx), Err(LuloError::Constraint(Check::Admin)));
    assert_eq!(ctx, before);
}

#[test]
fn close_branch_needs_a_branch_of_the_vault() {
    let mut ctx = CloseBranch { signer: admin(), vault: vault(0, 1), branch: branch(true, 0) };
    ctx.branch.data.vault = addr(22);
    let before = ctx;
    assert_eq!(close_branch(&mut ctx), Err(LuloError::Constraint(Check::BranchVault)));
    assert_eq!(ctx, before);
}

#[test]
fn close_branch_cannot_count_below_zero() {
    let mut ctx = CloseBranch { signer: admin(), vault: vault(0, 0), branch: branch(true, 0) };
    let before = ctx;
    assert_eq!(close_branch(&mut ctx), Err(LuloError::Overflow));
    assert_eq!(ctx, before);
}

#[test]
fn pay_asks_for_the_minting_first() {
    let mut ctx = paying();
    let before = ctx;
    assert_eq!(
        pay(&mut ctx, 1000, &program(), None),
        Ok(Step::Invoke(LedgerCall::MintTo {
            mint: pay_mint().address,
            to: addr(40),
            authority: Authority::Derived {
                address: pay_mint().address,
                seeds: Seeds { label: Label::PayMint, parent: None, bump: pay_mint().bump },
            },
            amount: 1000,
        }))
    );
    assert_eq!(ctx, before);
}

#[test]
fn pay_adds_the_amount_to_branch_and_vault() {
    let mut ctx = paying();
    ctx.vault.data.balance = 250;
    ctx.branch.data.balance = 50;
    assert_eq!(pay(&mut ctx, 1000, &program(), accepted()), Ok(Step::Done));
    assert_eq!(ctx.branch.data.balance, 1050);
    assert_eq!(ctx.vault.data.balance, 1250);
    assert!(ctx.branch.data.active);
    assert_eq!(ctx.vault.data.active_branches, 1);
    assert_eq!(ctx.recipient, paying().recipient);
    assert_eq!(ctx.branch_nft, paying().branch_nft);
}

#[test]
fn pay_of_nothing_changes_no_balance() {
    let mut ctx = paying();
    ctx.vault.data.balance = 250;
    ctx.branch.data.balance = 50;
    let before = ctx;
    assert_eq!(pay(&mut ctx, 0, &program(), accepted()), Ok(Step::Done));
    assert_eq!(ctx, before);
}

#[test]
fn pay_can_fill_the_balances_to_the_brim() {
    let mut ctx = paying();
    ctx.vault.data.balance = 1;
    ctx.branch.data.balance = 1;
    assert_eq!(pay(&mut ctx, u64::MAX - 1, &program(), accepted()), Ok(Step::Done));
    assert_eq!(ctx.vault.data.balance, u64::MAX);
    assert_eq!(ctx.branch.data.balance, u64::MAX);
}

#[test]
fn pay_fails_on_overflow_before_asking_the_ledger() {
    let mut ctx = paying();
    ctx.vault.data.balance = 2;
    ctx.branch.data.balance = 1;
    let before = ctx;
    for minted in [None, accepted(), refused(4)] {
        assert_eq!(pay(&mut ctx, u64::MAX - 1, &program(), minted), Err(LuloError::Overflow));
        assert_eq!(ctx, before);
    }
    let mut ctx = paying();
    ctx.vault.data.balance = 5;
    ctx.branch.data.balance = 6;
    let before = ctx;
    assert_eq!(pay(&mut ctx, u64::MAX - 5, &program(), accepted()), Err(LuloError::Overflow));
    assert_eq!(ctx, before);
}

#[test]
fn pay_passes_a_ledger_refusal_on_and_changes_nothing() {
    let mut ctx = paying();
    let before = ctx;
    assert_eq!(
        pay(&mut ctx, 1000, &program(), refused(3)),
        Err(LuloError::Ledger(LedgerError { code: 3 }))
    );
    assert_eq!(ctx, before);
}

#[test]
fn pay_on_a_closed_branch_always_fails() {
    for amount in [0, 1, 1000, u64::MAX] {
        for minted in [None, accepted(), refused(9)] {
            let mut ctx = paying();
            ctx.branch.data.active = false;
            ctx.branch.data.balance = 12;
            ctx.vault.data.balance = 12;
            let before = ctx;
            assert_eq!(pay(&mut ctx, amount, &program(), minted), Err(LuloError::InactiveBranch));
            assert_eq!(ctx, before);
        }
    }
}

#[test]
fn pay_on_a_closed_branch_fails_whatever_else_is_wrong() {
    let mut ctx = paying();
    ctx.branch.data.active = false;
    ctx.branch.data.vault = addr(22);
    ctx.branch_nft.amount = 0;
    ctx.branch_nft.owner = addr(2);
    ctx.recipient.data.mint = addr(3);
    ctx.pay_mint = addr(4);
    let before = ctx;
    assert_eq!(pay(&mut ctx, u64::MAX, &program(), accepted()), Err(LuloError::InactiveBranch));
    assert_eq!(pay_with_authority(&mut ctx, 5, None, None), Err(LuloError::InactiveBranch));
    assert_eq!(ctx, before);
}

#[test]
fn pay_names_the_rule_that_is_broken() {
    let mut ctx = paying();
    ctx.branch.data.vault = addr(22);
    assert_eq!(
        pay(&mut ctx, 1, &program(), accepted()),
        Err(LuloError::Constraint(Check::BranchVault))
    );

    for amount in [0, 2] {
        let mut ctx = paying();
        ctx.branch_nft.amount = amount;
        assert_eq!(
            pay(&mut ctx, 1, &program(), accepted()),
            Err(LuloError::Constraint(Check::CapabilityAmount))
        );
    }

    let mut ctx = paying();
    ctx.branch_nft.mint = addr(5);
    assert_eq!(
        pay(&mut ctx, 1, &program(), accepted()),
        Err(LuloError::Constraint(Check::CapabilityMint))
    );

    let mut ctx = paying();
    ctx.branch_nft.owner = addr(5);
    assert_eq!(
        pay(&mut ctx, 1, &program(), accepted()),
        Err(LuloError::Constraint(Check::CapabilityOwner))
    );

    let mut ctx = paying();
    ctx.recipient.data.mint = addr(5);
    let before = ctx;
    assert_eq!(
        pay(&mut ctx, 1, &program(), accepted()),
        Err(LuloError::Constraint(Check::RecipientMint))
    );
    assert_eq!(ctx, before);
}

#[test]
fn pay_holds_the_rules_in_their_order() {
    let mut ctx = paying();
    ctx.branch.data.vault = addr(22);
    ctx.branch_nft.amount = 2;
    assert_eq!(
        pay(&mut ctx, 1, &program(), None),
        Err(LuloError::Constraint(Check::BranchVault))
    );
    ctx.branch.data.vault = vault_key();
    ctx.branch_nft.mint = addr(5);
    assert_eq!(
        pay(&mut ctx, 1, &program(), None),
        Err(LuloError::Constraint(Check::CapabilityAmount))
    );
    ctx.branch_nft.amount = 1;
    ctx.branch_nft.owner = addr(5);
    assert_eq!(
        pay(&mut ctx, 1, &program(), None),
        Err(LuloError::Constraint(Check::CapabilityMint))
    );
    ctx.branch_nft.mint = capability_mint().address;
    ctx.recipient.data.mint = addr(5);
    assert_eq!(
        pay(&mut ctx, 1, &program(), None),
        Err(LuloError::Constraint(Check::CapabilityOwner))
    );
    ctx.branch_nft.owner = admin();
    ctx.pay_mint = addr(5);
    ctx.vault.data.balance = u64::MAX;
    assert_eq!(pay(&mut ctx, 1, &program(), None), Err(LuloError::Derivation(Label::PayMint)));
    ctx.pay_mint = pay_mint().address;
    ctx.recipient.data.mint = pay_mint().address;
    assert_eq!(pay(&mut ctx, 1, &program(), None), Err(LuloError::Overflow));
}

#[test]
fn pay_checks_the_derived_pay_mint() {
    let mut ctx = paying();
    ctx.pay_mint = addr(5);
    ctx.recipient.data.mint = addr(5);
    let before = ctx;
    assert_eq!(
        pay(&mut ctx, 1, &program(), accepted()),
        Err(LuloError::Derivation(Label::PayMint))
    );
    assert_eq!(ctx, before);
    // Under another program the same mint is not the derived one.
    let mut ctx = paying();
    assert_eq!(
        pay(&mut ctx, 1, &addr(8), accepted()),
        Err(LuloError::Derivation(Label::PayMint))
    );
}

#[test]
fn swap_burns_then_transfers() {
    let ctx = swapping();
    let burn = LedgerCall::Burn {
        mint: pay_mint().address,
        from: addr(61),
        authority: Authority::Signer(addr(60)),
        amount: 300,
    };
    let transfer = LedgerCall::Transfer {
        from: controller().address,
        to: addr(62),
        authority: Authority::Derived {
            address: controller().address,
            seeds: Seeds {
                label: Label::Controller,
                parent: Some(reserve_mint()),
                bump: controller().bump,
            },
        },
        amount: 300,
    };
    assert_eq!(swap(&ctx, 300, &program(), None, None), Ok(Step::Invoke(burn)));
    assert_eq!(swap(&ctx, 300, &program(), accepted(), None), Ok(Step::Invoke(transfer)));
    assert_eq!(swap(&ctx, 300, &program(), accepted(), accepted()), Ok(Step::Done));
    // A reply to the transfer is not read before the burn was answered.
    assert_eq!(swap(&ctx, 300, &program(), None, accepted()), Ok(Step::Invoke(burn)));
}

#[test]
fn swap_passes_ledger_refusals_on() {
    let ctx = swapping();
    assert_eq!(
        swap(&ctx, 300, &program(), refused(1), None),
        Err(LuloError::Ledger(LedgerError { code: 1 }))
    );
    assert_eq!(
        swap(&ctx, 300, &program(), refused(1), accepted()),
        Err(LuloError::Ledger(LedgerError { code: 1 }))
    );
    assert_eq!(
        swap(&ctx, 300, &program(), accepted(), refused(2)),
        Err(LuloError::Ledger(LedgerError { code: 2 }))
    );
}

#[test]
fn swap_names_the_rule_that_is_broken() {
    let mut ctx = swapping();
    ctx.settle.data.mint = addr(5);
    ctx.settle.data.owner = addr(5);
    assert_eq!(
        swap(&ctx, 1, &program(), None, None),
        Err(LuloError::Constraint(Check::SettleMint))
    );
    ctx.settle.data.mint = pay_mint().address;
    ctx.recipient.data.mint = addr(5);
    assert_eq!(
        swap(&ctx, 1, &program(), accepted(), accepted()),
        Err(LuloError::Constraint(Check::SettleOwner))
    );
    ctx.settle.data.owner = addr(60);
    ctx.pay_mint = addr(5);
    ctx.settle.data.mint = addr(5);
    assert_eq!(
        swap(&ctx, 1, &program(), accepted(), None),
        Err(LuloError::Constraint(Check::RecipientMint))
    );
    ctx.recipient.data.mint = reserve_mint();
    ctx.controller = addr(6);
    assert_eq!(
        swap(&ctx, 1, &program(), None, None),
        Err(LuloError::Derivation(Label::PayMint))
    );
    ctx.pay_mint = pay_mint().address;
    ctx.settle.data.mint = pay_mint().address;
    assert_eq!(
        swap(&ctx, 1, &program(), None, None),
        Err(LuloError::Derivation(Label::Controller))
    );
    ctx.controller = controller().address;
    assert!(swap(&ctx, 1, &program(), None, None).is_ok());
}

#[test]
fn swap_needs_the_reserve_of_the_named_mint() {
    let mut ctx = swapping();
    ctx.controller_mint = addr(51);
    ctx.recipient.data.mint = addr(51);
    assert_eq!(
        swap(&ctx, 1, &program(), None, None),
        Err(LuloError::Derivation(Label::Controller))
    );
    assert_eq!(
        swap_with_authorities(&ctx, 1, Some(pay_mint()), None, None, None),
        Err(LuloError::Derivation(Label::Controller))
    );
    assert_eq!(
        swap_with_authorities(&ctx, 1, None, Some(controller()), None, None),
        Err(LuloError::Derivation(Label::PayMint))
    );
}

#[test]
fn swap_uses_the_bump_it_is_given() {
    let mut ctx = swapping();
    ctx.controller = addr(70);
    ctx.pay_mint = addr(71);
    ctx.settle.data.mint = addr(71);
    let step = swap_with_authorities(
        &ctx,
        9,
        Some(Derived { address: addr(71), bump: 1 }),
        Some(Derived { address: addr(70), bump: 200 }),
        accepted(),
        None,
    );
    assert_eq!(
        step,
        Ok(Step::Invoke(LedgerCall::Transfer {
            from: addr(70),
            to: addr(62),
            authority: Authority::Derived {
                address: addr(70),
                seeds: Seeds {
                    label: Label::Controller,
                    parent: Some(reserve_mint()),
                    bump: 200
                },
            },
            amount: 9,
        }))
    );
}

#[test]
fn defaults_are_empty_records() {
    let zero = Address::new([0u8; 32]);
    assert_eq!(Address::default(), zero);
    assert_eq!(
        Positions::default(),
        Positions { vault: zero, num_positions: 0, positions: [zero; 5] }
    );
    assert_eq!(CollateralPosition::default(), CollateralPosition { amount: 0, mint: zero });
    assert_eq!(Branch::default(), Branch { active: false, vault: zero, mint: zero, balance: 0 });
    assert_eq!(
        Collateral::default(),
        Collateral { initialized: false, mint: zero, fee: 0, equity_value: 0 }
    );
}
