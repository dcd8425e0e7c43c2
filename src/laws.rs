use vstd::prelude::*;

use crate::base_account::BaseAccount;
use crate::errors::Errors;
use crate::address::seeds_view;
use crate::instructions::{
    activated, deactivated, is_created, is_order_for, record_address, transfer_error,
    SafeTransfer, TokenAccountInfo, TransferOrder,
};
use crate::key::Key;

verus! {

/// The same transfer request, made against `account`.
pub open spec fn with_account(ctx: SafeTransfer, account: BaseAccount) -> SafeTransfer {
    SafeTransfer { base_account: account, ..ctx }
}

/// The transfer request from `from` to `to` that the transfer authority signs
/// against the record stored at `address`.
pub open spec fn transfer_request(
    program_id: Key,
    transfer: Key,
    address: Key,
    account: BaseAccount,
    from: TokenAccountInfo,
    to: TokenAccountInfo,
) -> SafeTransfer {
    SafeTransfer {
        program_id,
        transfer_authority: transfer,
        base_account_key: address,
        base_account: account,
        from,
        to,
    }
}

/// A freshly created record refuses, with `UnknownAccount`, a transfer to a
/// destination that was not among its candidates, so no transfer order
/// comes out.
pub proof fn lemma_unlisted_destination_refused(
    ctx: SafeTransfer,
    owner: Key,
    deactivate: Key,
    candidates: Seq<Key>,
    derived: Option<Seq<u8>>,
)
    requires
        is_created(
            ctx.base_account,
            owner,
            ctx.base_account.transfer_authority,
            deactivate,
            candidates,
            ctx.base_account.bump,
        ),
        !candidates.contains(ctx.to.key),
    ensures
        transfer_error(ctx, derived) == Some(Errors::UnknownAccount),
{
    if ctx.base_account.whitelists(ctx.to.key) {
        let i = choose|i: int|
            0 <= i < ctx.base_account.whitelist_len && i < 10
                && #[trigger] ctx.base_account.whitelisted_targets@[i] == ctx.to.key;
        assert(candidates[i] == ctx.to.key);
    }
}

/// Deactivation by the owner or the deactivation authority makes a transfer
/// that went through fail with `DeactivatedAccount`; activation by the owner
/// restores the record, and the same transfer goes through again. Repeating
/// either step in the state it leads to succeeds and changes nothing.
pub proof fn lemma_deactivation_gates_transfer(ctx: SafeTransfer, derived: Option<Seq<u8>>, by: Key)
    requires
        transfer_error(ctx, derived) is None,
        by == ctx.base_account.owner || by == ctx.base_account.deactivation_authority,
    ensures
        deactivated(ctx.base_account, by) is Ok,
        transfer_error(with_account(ctx, deactivated(ctx.base_account, by)->Ok_0), derived)
            == Some(Errors::DeactivatedAccount),
        deactivated(deactivated(ctx.base_account, by)->Ok_0, by) == deactivated(
            ctx.base_account,
            by,
        ),
        activated(deactivated(ctx.base_account, by)->Ok_0, ctx.base_account.owner) == Ok::<
            BaseAccount,
            Errors,
        >(ctx.base_account),
        activated(ctx.base_account, ctx.base_account.owner) == Ok::<BaseAccount, Errors>(
            ctx.base_account,
        ),
        transfer_error(with_account(ctx, ctx.base_account), derived) is None,
{
    let off = deactivated(ctx.base_account, by)->Ok_0;
    assert(off.whitelisted_targets == ctx.base_account.whitelisted_targets);
    assert(with_account(ctx, ctx.base_account) == ctx);
}

/// Round trip on one record: created with the whitelist `[a, b]` at its
/// derived address, it lets a transfer to `a` through and refuses one to `c`
/// with `UnknownAccount`; once the owner deactivates it the transfer to `a`
/// fails with `DeactivatedAccount`, and once the owner activates it again
/// that transfer goes through.
pub proof fn lemma_round_trip(
    program_id: Key,
    owner: Key,
    transfer: Key,
    deactivate: Key,
    a: Key,
    b: Key,
    c: Key,
    bump: u8,
    address: Key,
    account: BaseAccount,
    from: TokenAccountInfo,
    to_a: TokenAccountInfo,
    to_c: TokenAccountInfo,
)
    requires
        is_created(account, owner, transfer, deactivate, seq![a, b], bump),
        crate::address::program_address(
            crate::address::signer_seeds(transfer@, bump),
            program_id@,
        ) == Some(address@),
        to_a.key == a,
        to_c.key == c,
        c != a,
        c != b,
        from.mint == to_a.mint,
    ensures
        transfer_error(
            transfer_request(program_id, transfer, address, account, from, to_a),
            record_address(transfer_request(program_id, transfer, address, account, from, to_a)),
        ) is None,
        transfer_error(
            transfer_request(program_id, transfer, address, account, from, to_c),
            record_address(transfer_request(program_id, transfer, address, account, from, to_c)),
        ) == Some(Errors::UnknownAccount),
        deactivated(account, owner) is Ok,
        transfer_error(
            transfer_request(
                program_id,
                transfer,
                address,
                deactivated(account, owner)->Ok_0,
                from,
                to_a,
            ),
            record_address(
                transfer_request(
                    program_id,
                    transfer,
                    address,
                    deactivated(account, owner)->Ok_0,
                    from,
                    to_a,
                ),
            ),
        ) == Some(Errors::DeactivatedAccount),
        activated(deactivated(account, owner)->Ok_0, owner) == Ok::<BaseAccount, Errors>(account),
{
    let req_a = transfer_request(program_id, transfer, address, account, from, to_a);
    let req_c = transfer_request(program_id, transfer, address, account, from, to_c);
    assert(account.whitelisted_targets@[0] == a);
    assert(account.whitelists(a));
    assert(!seq![a, b].contains(c)) by {
        if seq![a, b].contains(c) {
            let i = choose|i: int| 0 <= i < 2 && seq![a, b][i] == c;
        }
    }
    lemma_unlisted_destination_refused(req_c, owner, deactivate, seq![a, b], record_address(req_c));
    lemma_deactivation_gates_transfer(req_a, record_address(req_a), owner);
}

/// Transfers against two distinct records of one program do not interfere:
/// when both go through, each order signs as its own record, and the seeds
/// that each carries differ from the other's, so neither request can sign
/// for the other record.
pub proof fn lemma_records_independent(
    first: SafeTransfer,
    second: SafeTransfer,
    first_order: TransferOrder,
    second_order: TransferOrder,
    first_amount: u64,
    second_amount: u64,
)
    requires
        first.program_id == second.program_id,
        first.base_account_key != second.base_account_key,
        transfer_error(first, record_address(first)) is None,
        transfer_error(second, record_address(second)) is None,
        is_order_for(first_order, first, first_amount),
        is_order_for(second_order, second, second_amount),
    ensures
        first_order.authority != second_order.authority,
        seeds_view(first_order.signer_seeds@) != seeds_view(second_order.signer_seeds@),
{
    if seeds_view(first_order.signer_seeds@) == seeds_view(second_order.signer_seeds@) {
        assert(first.base_account_key@ == second.base_account_key@);
        Key::lemma_view_injective(first.base_account_key, second.base_account_key);
    }
}

} // verus!
