//! Cross-chain bridging: move tokens into the bridge's custody and submit a
//! transfer message to the external messaging program.
//!
//! Both steps are delegated calls, so `bridge_tokens` returns them as a
//! plan: the custody transfer for the token program, and the message
//! instruction with the accounts it is to be invoked with. Either call
//! failing aborts the whole request on the ledger's side; the plan itself
//! is built unconditionally.

use vstd::prelude::*;
use crate::liquidate::Instruction;
use crate::liquidate::TokenAccount;
use crate::liquidate::Transfer;
use crate::state::PorgError;
use crate::state::Pubkey;

verus! {

/// The accounts handed to `bridge_tokens`: the calling user, the source of
/// the funds, the bridge's custody account, and the messaging program's
/// configuration, message, emitter, sequence and fee-collector accounts,
/// with the token program, system program, clock and rent accounts the
/// delegated call is invoked with.
#[derive(Clone, Copy, PartialEq, Eq, Structural, Debug)]
pub struct BridgeTokens {
    pub user: Pubkey,
    pub source_token_account: TokenAccount,
    pub bridge_token_account: Pubkey,
    pub wormhole_config: Pubkey,
    pub wormhole_message: Pubkey,
    pub wormhole_emitter: Pubkey,
    pub wormhole_sequence: Pubkey,
    pub wormhole_fee_collector: Pubkey,
    pub token_program: Pubkey,
    pub system_program: Pubkey,
    pub clock: Pubkey,
    pub rent: Pubkey,
}

/// The two delegated calls a bridge request turns into: the transfer that
/// moves the funds into custody, and the message instruction with the
/// accounts it touches, in the order they are passed.
#[derive(Debug)]
pub struct BridgePlan {
    pub transfer: Transfer,
    pub message: Instruction,
    pub message_accounts: Vec<Pubkey>,
}

/// The messaging program's id as the stub encodes it: all zero bytes.
pub open spec fn wormhole_program_id_spec() -> Pubkey {
    Pubkey { w0: 0, w1: 0, w2: 0, w3: 0 }
}

/// Build the bridge-transfer message for the messaging program. The
/// deployed stub does not encode the transfer: it targets the all-zero
/// program id with no accounts and an empty payload, whatever the
/// arguments say, and never fails.
pub fn create_wormhole_transfer_instruction(
    token_account: Pubkey,
    amount: u64,
    target_chain: u16,
    recipient_address: [u8; 32],
    nonce: u64,
) -> (r: Result<Instruction, PorgError>)
    ensures
        r matches Ok(ins) && ins@.program_id == wormhole_program_id_spec() && ins@.accounts.len()
            == 0 && ins@.data.len() == 0,
{
    Ok(
        Instruction {
            program_id: Pubkey { w0: 0, w1: 0, w2: 0, w3: 0 },
            accounts: Vec::new(),
            data: Vec::new(),
        },
    )
}

/// Plan a bridge request: a transfer of `amount` from the user's source
/// account into the bridge's custody account under the user's signature,
/// followed by the transfer message invoked with the custody account, the
/// messaging program's five accounts, the clock, the rent and the system
/// program, in that order.
pub fn bridge_tokens(
    ctx: &BridgeTokens,
    amount: u64,
    target_chain: u16,
    recipient_address: [u8; 32],
    nonce: u64,
) -> (r: Result<BridgePlan, PorgError>)
    ensures
        r matches Ok(p) ==> p.transfer == (Transfer {
            from: ctx.source_token_account.key,
            to: ctx.bridge_token_account,
            authority: ctx.user,
            amount: amount,
        }),
        r matches Ok(p) ==> p.message@.program_id == wormhole_program_id_spec()
            && p.message@.accounts.len() == 0 && p.message@.data.len() == 0,
        r matches Ok(p) ==> p.message_accounts@ == seq![
            ctx.bridge_token_account,
            ctx.wormhole_config,
            ctx.wormhole_message,
            ctx.wormhole_emitter,
            ctx.wormhole_sequence,
            ctx.wormhole_fee_collector,
            ctx.clock,
            ctx.rent,
            ctx.system_program,
        ],
        r matches Ok(_),
{
    let transfer = Transfer {
        from: ctx.source_token_account.key,
        to: ctx.bridge_token_account,
        authority: ctx.user,
        amount: amount,
    };
    let message = match create_wormhole_transfer_instruction(
        ctx.bridge_token_account,
        amount,
        target_chain,
        recipient_address,
        nonce,
    ) {
        Ok(ins) => ins,
        Err(e) => {
            return Err(e);
        },
    };
    let mut message_accounts: Vec<Pubkey> = Vec::new();
    message_accounts.push(ctx.bridge_token_account);
    message_accounts.push(ctx.wormhole_config);
    message_accounts.push(ctx.wormhole_message);
    message_accounts.push(ctx.wormhole_emitter);
    message_accounts.push(ctx.wormhole_sequence);
    message_accounts.push(ctx.wormhole_fee_collector);
    message_accounts.push(ctx.clock);
    message_accounts.push(ctx.rent);
    message_accounts.push(ctx.system_program);
    proof {
        assert(message_accounts@ =~= seq![
            ctx.bridge_token_account,
            ctx.wormhole_config,
            ctx.wormhole_message,
            ctx.wormhole_emitter,
            ctx.wormhole_sequence,
            ctx.wormhole_fee_collector,
            ctx.clock,
            ctx.rent,
            ctx.system_program,
        ]);
    }
    Ok(BridgePlan { transfer, message, message_accounts })
}

} // verus!
