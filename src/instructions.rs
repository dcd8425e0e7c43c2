use vstd::prelude::*;

use crate::address::{
    base_account_seeds, base_account_signer_seeds, create_program_address, program_address, record_seeds, seeds_view, signer_seeds, try_find_program_address,
};
use crate::base_account::{BaseAccount, WHITELIST_CAPACITY};
use crate::errors::Errors;
use crate::key::Key;

verus! {

/// The first rule that a creation request breaks, if any.
pub open spec fn initialize_error(owner: Key, transfer: Key, deactivate: Key, count: nat) -> Option<
    Errors,
> {
    if owner == transfer || owner == deactivate || transfer == deactivate {
        Some(Errors::SameAccounts)
    } else if count == 0 {
        Some(Errors::EmptyWhiteList)
    } else if count > WHITELIST_CAPACITY {
        Some(Errors::WhiteListTooLong)
    } else {
        None
    }
}

/// `account` is the fresh, active record made from these arguments.
pub open spec fn is_created(
    account: BaseAccount,
    owner: Key,
    transfer: Key,
    deactivate: Key,
    candidates: Seq<Key>,
    bump: u8,
) -> bool {
    &&& account.active
    &&& account.bump == bump
    &&& account.owner == owner
    &&& account.transfer_authority == transfer
    &&& account.deactivation_authority == deactivate
    &&& account.holds_whitelist(candidates)
}

/// Checks a creation request: the three identities apart, and a whitelist of
/// one to ten destinations.
pub fn check_initialize(owner: &Key, transfer: &Key, deactivate: &Key, count: usize) -> (r: Result<
    (),
    Errors,
>)
    ensures
        match initialize_error(*owner, *transfer, *deactivate, count as nat) {
            Some(e) => r == Err::<(), Errors>(e),
            None => r is Ok,
        },
{
    if *owner == *transfer || *owner == *deactivate || *transfer == *deactivate {
        Err(Errors::SameAccounts)
    } else if count < 1 {
        Err(Errors::EmptyWhiteList)
    } else if count > WHITELIST_CAPACITY {
        Err(Errors::WhiteListTooLong)
    } else {
        Ok(())
    }
}

/// Builds the record of a valid creation request, with `bump` as the bump of
/// its address.
pub fn create_base_account(
    owner: &Key,
    transfer: &Key,
    deactivate: &Key,
    candidates: &Vec<Key>,
    bump: u8,
) -> (r: Result<BaseAccount, Errors>)
    ensures
        match initialize_error(*owner, *transfer, *deactivate, candidates@.len()) {
            Some(e) => r == Err::<BaseAccount, Errors>(e),
            None => r is Ok && is_created(
                r->Ok_0,
                *owner,
                *transfer,
                *deactivate,
                candidates@,
                bump,
            ),
        },
{
    check_initialize(owner, transfer, deactivate, candidates.len())?;
    let sentinel = Key::sentinel();
    let mut whitelist: [Key; 10] = [sentinel; 10];
    let mut i: usize = 0;
    while i < candidates.len()
        invariant
            candidates@.len() <= WHITELIST_CAPACITY,
            i <= candidates@.len(),
            forall|j: int|
                0 <= j < WHITELIST_CAPACITY ==> if j < i {
                    #[trigger] whitelist@[j] == candidates@[j]
                } else {
                    whitelist@[j].is_sentinel()
                },
        decreases candidates@.len() - i,
    {
        whitelist[i] = candidates[i];
        i = i + 1;
    }
    Ok(
        BaseAccount {
            active: true,
            bump,
            whitelist_len: candidates.len() as u8,
            owner: *owner,
            transfer_authority: *transfer,
            deactivation_authority: *deactivate,
            whitelisted_targets: whitelist,
        },
    )
}

/// A request to create the record of a transfer authority: the owner who
/// signs it, the program whose addresses records live at, and the whitelist.
#[derive(Debug)]
pub struct Initialize {
    pub owner: Key,
    pub program_id: Key,
    pub remaining_accounts: Vec<Key>,
}

/// Creates the record of `transfer`, returning the address it lives at and
/// its contents.
pub fn initialize(ctx: &Initialize, transfer: Key, deactivate: Key) -> (r: Result<
    (Key, BaseAccount),
    Errors,
>)
    ensures
        initialize_error(ctx.owner, transfer, deactivate, ctx.remaining_accounts@.len()) is Some
            ==> r == Err::<(Key, BaseAccount), Errors>(
            initialize_error(ctx.owner, transfer, deactivate, ctx.remaining_accounts@.len())->0,
        ),
        initialize_error(ctx.owner, transfer, deactivate, ctx.remaining_accounts@.len()) is None
            ==> (r is Ok <==> exists|b: u8|
            1 <= b && #[trigger] program_address(signer_seeds(transfer@, b), ctx.program_id@) is Some),
        r is Err && initialize_error(ctx.owner, transfer, deactivate, ctx.remaining_accounts@.len()) is None
            ==> r == Err::<(Key, BaseAccount), Errors>(Errors::WrongParameters),
        match r {
            Ok((address, account)) => {
                &&& 1 <= account.bump
                &&& program_address(signer_seeds(transfer@, account.bump), ctx.program_id@)
                    == Some(address@)
                &&& forall|b: u8|
                    account.bump < b ==> #[trigger] program_address(
                        signer_seeds(transfer@, b),
                        ctx.program_id@,
                    ) is None
                &&& is_created(
                    account,
                    ctx.owner,
                    transfer,
                    deactivate,
                    ctx.remaining_accounts@,
                    account.bump,
                )
            },
            Err(_) => true,
        },
{
    check_initialize(&ctx.owner, &transfer, &deactivate, ctx.remaining_accounts.len())?;
    let seeds = base_account_seeds(&transfer);
    match try_find_program_address(&seeds, &ctx.program_id) {
        None => {
            proof {
                assert forall|b: u8|
                    1 <= b implies !(#[trigger] program_address(
                        signer_seeds(transfer@, b),
                        ctx.program_id@,
                    ) is Some) by {
                    assert(seeds_view(seeds@).push(seq![b]) == signer_seeds(transfer@, b));
                }
            }
            Err(Errors::WrongParameters)
        },
        Some((address, bump)) => {
            proof {
                assert(seeds_view(seeds@).push(seq![bump]) == signer_seeds(transfer@, bump));
                assert forall|b: u8|
                    bump < b implies #[trigger] program_address(
                        signer_seeds(transfer@, b),
                        ctx.program_id@,
                    ) is None by {
                    assert(seeds_view(seeds@).push(seq![b]) == signer_seeds(transfer@, b));
                }
            }
            let account = create_base_account(
                &ctx.owner,
                &transfer,
                &deactivate,
                &ctx.remaining_accounts,
                bump,
            )?;
            Ok((address, account))
        },
    }
}

/// A token account as the transfer sees it: its address and its mint.
#[derive(Clone, Copy, Debug)]
pub struct TokenAccountInfo {
    pub key: Key,
    pub mint: Key,
}

/// A transfer request: the transfer authority who signs it, the record and
/// the address it was loaded from, and the two token accounts.
#[derive(Clone, Copy, Debug)]
pub struct SafeTransfer {
    pub program_id: Key,
    pub transfer_authority: Key,
    pub base_account_key: Key,
    pub base_account: BaseAccount,
    pub from: TokenAccountInfo,
    pub to: TokenAccountInfo,
}

/// The token transfer to perform, signed by the record's own address.
#[derive(Debug)]
pub struct TransferOrder {
    pub from: Key,
    pub to: Key,
    pub authority: Key,
    pub signer_seeds: Vec<Vec<u8>>,
    pub amount: u64,
}

pub open spec fn key_view(k: Option<Key>) -> Option<Seq<u8>> {
    match k {
        Some(k) => Some(k@),
        None => None,
    }
}

/// The address that the record of the signing transfer authority, with the
/// record's bump, derives to.
pub open spec fn record_address(ctx: SafeTransfer) -> Option<Seq<u8>> {
    program_address(
        signer_seeds(ctx.transfer_authority@, ctx.base_account.bump),
        ctx.program_id@,
    )
}

/// The first check that a transfer request fails, given the address that its
/// seeds derive to, if any.
pub open spec fn transfer_error(ctx: SafeTransfer, derived: Option<Seq<u8>>) -> Option<Errors> {
    if derived != Some(ctx.base_account_key@) || ctx.base_account.transfer_authority
        != ctx.transfer_authority {
        Some(Errors::UnknownAccount)
    } else if !ctx.base_account.whitelists(ctx.to.key) {
        Some(Errors::UnknownAccount)
    } else if !ctx.base_account.active {
        Some(Errors::DeactivatedAccount)
    } else if ctx.from.mint != ctx.to.mint {
        Some(Errors::MintsMismatch)
    } else {
        None
    }
}

/// `order` moves `amount` between the request's token accounts, signed by the
/// record's address and seeds.
pub open spec fn is_order_for(order: TransferOrder, ctx: SafeTransfer, amount: u64) -> bool {
    &&& order.from == ctx.from.key
    &&& order.to == ctx.to.key
    &&& order.authority == ctx.base_account_key
    &&& seeds_view(order.signer_seeds@) == signer_seeds(
        ctx.base_account.transfer_authority@,
        ctx.base_account.bump,
    )
    &&& order.amount == amount
}

/// Decides a transfer request once the address its seeds derive to is known.
pub fn authorize_transfer(ctx: &SafeTransfer, derived: Option<Key>, amount: u64) -> (r: Result<
    TransferOrder,
    Errors,
>)
    ensures
        match r {
            Ok(order) => transfer_error(*ctx, key_view(derived)) is None && is_order_for(
                order,
                *ctx,
                amount,
            ),
            Err(e) => transfer_error(*ctx, key_view(derived)) == Some(e),
        },
{
    let address_matches = match derived {
        Some(address) => {
            proof {
                if address@ == ctx.base_account_key@ {
                    Key::lemma_view_injective(address, ctx.base_account_key);
                }
            }
            address == ctx.base_account_key
        },
        None => false,
    };
    if !address_matches || ctx.base_account.transfer_authority != ctx.transfer_authority {
        return Err(Errors::UnknownAccount);
    }
    if !ctx.base_account.is_whitelisted(&ctx.to.key) {
        return Err(Errors::UnknownAccount);
    }
    if !ctx.base_account.active {
        return Err(Errors::DeactivatedAccount);
    }
    if ctx.from.mint != ctx.to.mint {
        return Err(Errors::MintsMismatch);
    }
    let seeds = base_account_signer_seeds(
        &ctx.base_account.transfer_authority,
        ctx.base_account.bump,
    );
    Ok(
        TransferOrder {
            from: ctx.from.key,
            to: ctx.to.key,
            authority: ctx.base_account_key,
            signer_seeds: seeds,
            amount,
        },
    )
}

/// Checks a transfer request against its record and, where it passes,
/// returns the transfer to perform.
pub fn safe_transfer(ctx: &SafeTransfer, amount: u64) -> (r: Result<TransferOrder, Errors>)
    ensures
        match r {
            Ok(order) => transfer_error(*ctx, record_address(*ctx)) is None && is_order_for(
                order,
                *ctx,
                amount,
            ),
            Err(e) => transfer_error(*ctx, record_address(*ctx)) == Some(e),
        },
{
    let seeds = base_account_signer_seeds(&ctx.transfer_authority, ctx.base_account.bump);
    let derived = create_program_address(&seeds, &ctx.program_id);
    authorize_transfer(ctx, derived, amount)
}

/// What deactivation by `signer` makes of `account`.
pub open spec fn deactivated(account: BaseAccount, signer: Key) -> Result<BaseAccount, Errors> {
    if signer == account.deactivation_authority || signer == account.owner {
        Ok(BaseAccount { active: false, ..account })
    } else {
        Err(Errors::WrongDeactivateAccount)
    }
}

/// What activation by `signer` makes of `account`.
pub open spec fn activated(account: BaseAccount, signer: Key) -> Result<BaseAccount, Errors> {
    if signer == account.owner {
        Ok(BaseAccount { active: true, ..account })
    } else {
        Err(Errors::WrongOwnerAccount)
    }
}

/// A request to switch a record off, by its owner or its deactivation
/// authority.
#[derive(Clone, Copy, Debug)]
pub struct Deactivate {
    pub signer: Key,
    pub base_account: BaseAccount,
}

/// A request to switch a record on, by its owner.
#[derive(Clone, Copy, Debug)]
pub struct Activate {
    pub signer: Key,
    pub base_account: BaseAccount,
}

/// Switches the record off; any change but `active` is refused.
pub fn deactivate(ctx: &mut Deactivate) -> (r: Result<(), Errors>)
    ensures
        final(ctx).signer == old(ctx).signer,
        match deactivated(old(ctx).base_account, old(ctx).signer) {
            Ok(account) => r is Ok && final(ctx).base_account == account,
            Err(e) => r == Err::<(), Errors>(e) && final(ctx).base_account == old(
                ctx,
            ).base_account,
        },
{
    if ctx.base_account.deactivation_authority == ctx.signer || ctx.base_account.owner
        == ctx.signer {
        ctx.base_account.active = false;
        Ok(())
    } else {
        Err(Errors::WrongDeactivateAccount)
    }
}

/// Switches the record on.
pub fn activate(ctx: &mut Activate) -> (r: Result<(), Errors>)
    ensures
        final(ctx).signer == old(ctx).signer,
        match activated(old(ctx).base_account, old(ctx).signer) {
            Ok(account) => r is Ok && final(ctx).base_account == account,
            Err(e) => r == Err::<(), Errors>(e) && final(ctx).base_account == old(
                ctx,
            ).base_account,
        },
{
    if ctx.base_account.owner == ctx.signer {
        ctx.base_account.active = true;
        Ok(())
    } else {
        Err(Errors::WrongOwnerAccount)
    }
}

} // verus!
