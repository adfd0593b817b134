//! Batch liquidation: turn a user's token holdings into one target token.
//!
//! The orchestrator validates the target account, filters the candidate
//! accounts, and builds one router instruction per surviving token. The
//! swaps themselves are delegated calls, so `batch_liquidate` returns them
//! as a plan for the host to submit; once the host has executed the swaps
//! and observed the target balance, `settle_liquidation` computes the fee,
//! the transfer that collects it, and the output floor check.

use vstd::prelude::*;
use crate::fees::calculate_fee;
use crate::fees::fee_of;
use crate::state::PorgError;
use crate::state::PorgState;
use crate::state::Pubkey;

verus! {

/// A token account as the program sees it: its address, its owner, the mint
/// it holds, its balance, and the signer/writable flags the transaction
/// supplied it with.
#[derive(Clone, Copy, PartialEq, Eq, Structural, Debug)]
pub struct TokenAccount {
    pub key: Pubkey,
    pub owner: Pubkey,
    pub mint: Pubkey,
    pub amount: u64,
    pub is_signer: bool,
    pub is_writable: bool,
}

/// One account reference inside a delegated instruction.
#[derive(Clone, Copy, PartialEq, Eq, Structural, Debug)]
pub struct AccountMeta {
    pub pubkey: Pubkey,
    pub is_signer: bool,
    pub is_writable: bool,
}

/// An instruction for a delegated call into another on-chain program.
#[derive(Debug)]
pub struct Instruction {
    pub program_id: Pubkey,
    pub accounts: Vec<AccountMeta>,
    pub data: Vec<u8>,
}

/// The mathematical value of an `Instruction`.
#[verifier::ext_equal]
pub struct InstructionView {
    pub program_id: Pubkey,
    pub accounts: Seq<AccountMeta>,
    pub data: Seq<u8>,
}

impl View for Instruction {
    type V = InstructionView;

    open spec fn view(&self) -> InstructionView {
        InstructionView {
            program_id: self.program_id,
            accounts: self.accounts@,
            data: self.data@,
        }
    }
}

/// A request to move `amount` tokens from `from` to `to`, authorized by
/// `authority`'s signature. The host hands it to the token program.
#[derive(Clone, Copy, PartialEq, Eq, Structural, Debug)]
pub struct Transfer {
    pub from: Pubkey,
    pub to: Pubkey,
    pub authority: Pubkey,
    pub amount: u64,
}

/// The accounts handed to `batch_liquidate`: the program state, the calling
/// user, the account that is to receive the liquidated funds, and the
/// account that is to receive the fee.
#[derive(Clone, Copy, PartialEq, Eq, Structural, Debug)]
pub struct BatchLiquidate {
    pub porg_state: PorgState,
    pub user: Pubkey,
    pub target_token_account: TokenAccount,
    pub fee_account: TokenAccount,
}

/// The outcome of the fee-collection step: the computed fee, and the
/// transfer that collects it when one is owed.
#[derive(Clone, Copy, Debug)]
pub struct Settlement {
    pub fee_amount: u64,
    pub fee_transfer: Option<Transfer>,
}

/// The views of a sequence's elements.
pub open spec fn seq_of_views<T: View>(s: Seq<T>) -> Seq<T::V> {
    Seq::new(s.len(), |i: int| s[i]@)
}

/// The router program's fixed 32-byte id, held little-endian in four words.
pub open spec fn jupiter_program_id_spec() -> Pubkey {
    Pubkey {
        w0: 0xf1659f7a1b72834b,
        w1: 0x7f1c8e495caa956e,
        w2: 0x3c8f2c5c12487301,
        w3: 0x6a3d5f651110f635,
    }
}

/// Get the router program id.
pub fn jupiter_program_id() -> (r: Pubkey)
    ensures
        r == jupiter_program_id_spec(),
{
    Pubkey {
        w0: 0xf1659f7a1b72834b,
        w1: 0x7f1c8e495caa956e,
        w2: 0x3c8f2c5c12487301,
        w3: 0x6a3d5f651110f635,
    }
}

/// What a holding is worth, in USD cents. The deployed stub prices every
/// holding at one dollar; a real oracle would replace this one function.
pub open spec fn token_value_usd_spec(token_account: TokenAccount) -> u64 {
    100
}

/// Get a token account's value in USD cents.
pub fn get_token_value_usd(token_account: &TokenAccount) -> (r: Result<u64, PorgError>)
    ensures
        r == Ok::<u64, PorgError>(token_value_usd_spec(*token_account)),
{
    Ok(100)
}

/// Whether a candidate survives the scan: it is not the target account, it
/// belongs to the user, and it is either above the dust threshold or dust
/// was asked for.
pub open spec fn selects(
    t: TokenAccount,
    target_key: Pubkey,
    user: Pubkey,
    include_dust: bool,
    min_token_value_usd: u64,
) -> bool {
    &&& t.key != target_key
    &&& t.owner == user
    &&& (include_dust || token_value_usd_spec(t) >= min_token_value_usd)
}

/// The candidates that survive the scan, in the order they were supplied.
pub open spec fn selected_candidates(
    context: Seq<TokenAccount>,
    target_key: Pubkey,
    user: Pubkey,
    include_dust: bool,
    min_token_value_usd: u64,
) -> Seq<TokenAccount>
    decreases context.len(),
{
    if context.len() == 0 {
        Seq::empty()
    } else {
        let rest = selected_candidates(
            context.drop_last(),
            target_key,
            user,
            include_dust,
            min_token_value_usd,
        );
        if selects(context.last(), target_key, user, include_dust, min_token_value_usd) {
            rest.push(context.last())
        } else {
            rest
        }
    }
}

/// Whether some supplied account has the given address.
pub open spec fn has_account(context: Seq<TokenAccount>, key: Pubkey) -> bool {
    exists|j: int| 0 <= j < context.len() && context[j].key == key
}

/// The position of the first supplied account with the given address,
/// scanning from `i`; the length of the context when there is none.
pub open spec fn account_index(context: Seq<TokenAccount>, key: Pubkey, i: int) -> int
    decreases context.len() - i,
{
    if i < 0 || i >= context.len() {
        context.len() as int
    } else if context[i].key == key {
        i
    } else {
        account_index(context, key, i + 1)
    }
}

/// The account reference an instruction carries for a supplied account.
pub open spec fn meta_of(a: TokenAccount) -> AccountMeta {
    AccountMeta { pubkey: a.key, is_signer: a.is_signer, is_writable: a.is_writable }
}

/// Whether the swap position `i` has both a payload and an account list.
pub open spec fn route_available(i: int, instrs: Seq<Seq<u8>>, accts: Seq<Seq<Pubkey>>) -> bool {
    i < instrs.len() && i < accts.len()
}

/// Whether every address a route names is present in the supplied context.
pub open spec fn route_resolvable(keys: Seq<Pubkey>, context: Seq<TokenAccount>) -> bool {
    forall|k: int| 0 <= k < keys.len() ==> has_account(context, keys[k])
}

/// Whether the swap position `i` is fully serviceable.
pub open spec fn route_fine(
    i: int,
    instrs: Seq<Seq<u8>>,
    accts: Seq<Seq<Pubkey>>,
    context: Seq<TokenAccount>,
) -> bool {
    route_available(i, instrs, accts) && route_resolvable(accts[i], context)
}

/// Whether every one of the `n` swap positions is serviceable.
pub open spec fn all_routes_fine(
    n: int,
    instrs: Seq<Seq<u8>>,
    accts: Seq<Seq<Pubkey>>,
    context: Seq<TokenAccount>,
) -> bool {
    forall|i: int| 0 <= i < n ==> route_fine(i, instrs, accts, context)
}

/// The first swap position, from `i` on, that is not serviceable; `n` when
/// all of them are.
pub open spec fn first_bad_route(
    i: int,
    n: int,
    instrs: Seq<Seq<u8>>,
    accts: Seq<Seq<Pubkey>>,
    context: Seq<TokenAccount>,
) -> int
    decreases n - i,
{
    if i >= n {
        n
    } else if !route_fine(i, instrs, accts, context) {
        i
    } else {
        first_bad_route(i + 1, n, instrs, accts, context)
    }
}

/// The router instruction for swap position `i`: the router program, the
/// route's payload verbatim, and for each named address the reference of
/// the first supplied account that carries it.
pub open spec fn swap_instruction_spec(
    i: int,
    instrs: Seq<Seq<u8>>,
    keys: Seq<Pubkey>,
    context: Seq<TokenAccount>,
) -> InstructionView {
    InstructionView {
        program_id: jupiter_program_id_spec(),
        accounts: Seq::new(keys.len(), |k: int| meta_of(context[account_index(context, keys[k], 0)])),
        data: instrs[i],
    }
}

proof fn lemma_account_index_finds(s: Seq<TokenAccount>, key: Pubkey, i: int, j: int)
    requires
        0 <= i <= j < s.len(),
        forall|jj: int| i <= jj < j ==> s[jj].key != key,
        s[j].key == key,
    ensures
        account_index(s, key, i) == j,
    decreases j - i,
{
    if i < j {
        lemma_account_index_finds(s, key, i + 1, j);
    }
}

/// Find the first supplied account with the given address.
fn find_account(context: &Vec<TokenAccount>, key: Pubkey) -> (r: Option<TokenAccount>)
    ensures
        r matches Some(a) ==> has_account(context@, key) && 0 <= account_index(context@, key, 0)
            < context@.len() && a == context@[account_index(context@, key, 0)],
        r is None ==> !has_account(context@, key),
{
    let mut j: usize = 0;
    while j < context.len()
        invariant
            j <= context.len(),
            forall|jj: int| 0 <= jj < j ==> context@[jj].key != key,
        decreases context.len() - j,
    {
        if context[j].key == key {
            proof {
                lemma_account_index_finds(context@, key, 0, j as int);
            }
            return Some(context[j]);
        }
        j += 1;
    }
    proof {
        assert(!has_account(context@, key)) by {
            if has_account(context@, key) {
                let jj = choose|jj: int| 0 <= jj < context@.len() && context@[jj].key == key;
                assert(context@[jj].key != key);
            }
        }
    }
    None
}

/// Scan the supplied accounts and keep the ones to liquidate: not the
/// target itself, owned by the user, and above the dust threshold unless
/// dust was asked for.
pub fn select_candidates(
    context: &Vec<TokenAccount>,
    target_key: Pubkey,
    user: Pubkey,
    include_dust: bool,
    min_token_value_usd: u64,
) -> (selected: Vec<TokenAccount>)
    ensures
        selected@ == selected_candidates(context@, target_key, user, include_dust, min_token_value_usd),
{
    let mut selected: Vec<TokenAccount> = Vec::new();
    let mut i: usize = 0;
    while i < context.len()
        invariant
            i <= context.len(),
            selected@ == selected_candidates(
                context@.take(i as int),
                target_key,
                user,
                include_dust,
                min_token_value_usd,
            ),
        decreases context.len() - i,
    {
        let candidate = context[i];
        proof {
            assert(context@.take(i as int + 1).drop_last() =~= context@.take(i as int));
            assert(context@.take(i as int + 1).last() == candidate);
        }
        if candidate.key != target_key && candidate.owner == user {
            let value = get_token_value_usd(&candidate).unwrap();
            if include_dust || value >= min_token_value_usd {
                selected.push(candidate);
            }
        }
        i += 1;
    }
    proof {
        assert(context@.take(context@.len() as int) =~= context@);
    }
    selected
}

/// Validate the liquidation request and build its swap plan.
///
/// The target account must belong to the user and hold the declared mint.
/// The surviving candidates are counted off against the parallel route
/// lists, in order: the first position without a payload or account list
/// stops the request with `InvalidJupiterRoute`, and the first route
/// address absent from the supplied context stops it with
/// `AccountNotFound`. On success the plan holds one router instruction per
/// surviving candidate, payload and resolved account references passed
/// through verbatim.
pub fn batch_liquidate(
    ctx: &BatchLiquidate,
    target_token_mint: Pubkey,
    include_dust: bool,
    min_token_value_usd: u64,
    jupiter_route_instructions: &Vec<Vec<u8>>,
    jupiter_route_accounts: &Vec<Vec<Pubkey>>,
    remaining_accounts: &Vec<TokenAccount>,
) -> (r: Result<Vec<Instruction>, PorgError>)
    ensures
        ({
            let context = remaining_accounts@;
            let target = ctx.target_token_account;
            let sel = selected_candidates(
                context,
                target.key,
                ctx.user,
                include_dust,
                min_token_value_usd,
            );
            let n = sel.len() as int;
            let instrs = seq_of_views(jupiter_route_instructions@);
            let accts = seq_of_views(jupiter_route_accounts@);
            let bad = first_bad_route(0, n, instrs, accts, context);
            &&& (r == Err::<Vec<Instruction>, PorgError>(PorgError::InvalidTargetAccount)
                <==> target.owner != ctx.user)
            &&& (r == Err::<Vec<Instruction>, PorgError>(PorgError::InvalidTargetMint) <==> (
            target.owner == ctx.user && target.mint != target_token_mint))
            &&& (target.owner == ctx.user && target.mint == target_token_mint ==> {
                &&& (r matches Ok(_) <==> all_routes_fine(n, instrs, accts, context))
                &&& (r == Err::<Vec<Instruction>, PorgError>(PorgError::InvalidJupiterRoute) <==> (
                bad < n && !route_available(bad, instrs, accts)))
                &&& (r == Err::<Vec<Instruction>, PorgError>(PorgError::AccountNotFound) <==> (bad
                    < n && route_available(bad, instrs, accts) && !route_resolvable(
                    accts[bad],
                    context,
                )))
            })
            &&& (r matches Ok(swaps) ==> {
                &&& swaps@.len() == n
                &&& forall|i: int|
                    0 <= i < n ==> (#[trigger] swaps@[i])@ == swap_instruction_spec(
                        i,
                        instrs,
                        accts[i],
                        context,
                    )
            })
        }),
{
    let ghost context = remaining_accounts@;
    let ghost instrs = seq_of_views(jupiter_route_instructions@);
    let ghost accts = seq_of_views(jupiter_route_accounts@);

    if ctx.target_token_account.owner != ctx.user {
        return Err(PorgError::InvalidTargetAccount);
    }
    if ctx.target_token_account.mint != target_token_mint {
        return Err(PorgError::InvalidTargetMint);
    }

    let selected = select_candidates(
        remaining_accounts,
        ctx.target_token_account.key,
        ctx.user,
        include_dust,
        min_token_value_usd,
    );
    let ghost n = selected@.len() as int;

    let mut swaps: Vec<Instruction> = Vec::new();
    let mut i: usize = 0;
    while i < selected.len()
        invariant
            i <= selected.len(),
            n == selected@.len() as int,
            instrs == seq_of_views(jupiter_route_instructions@),
            accts == seq_of_views(jupiter_route_accounts@),
            context == remaining_accounts@,
            ctx.target_token_account.owner == ctx.user,
            ctx.target_token_account.mint == target_token_mint,
            selected@ == selected_candidates(
                context,
                ctx.target_token_account.key,
                ctx.user,
                include_dust,
                min_token_value_usd,
            ),
            swaps@.len() == i,
            forall|j: int| 0 <= j < i ==> route_fine(j, instrs, accts, context),
            forall|j: int|
                0 <= j < i ==> (#[trigger] swaps@[j])@ == swap_instruction_spec(
                    j,
                    instrs,
                    accts[j],
                    context,
                ),
            first_bad_route(0, n, instrs, accts, context) == first_bad_route(
                i as int,
                n,
                instrs,
                accts,
                context,
            ),
        decreases selected.len() - i,
    {
        if i >= jupiter_route_instructions.len() || i >= jupiter_route_accounts.len() {
            proof {
                assert(!route_available(i as int, instrs, accts));
                assert(!route_fine(i as int, instrs, accts, context));
                assert(first_bad_route(i as int, n, instrs, accts, context) == i as int);
                assert(!all_routes_fine(n, instrs, accts, context));
            }
            return Err(PorgError::InvalidJupiterRoute);
        }
        let route_accounts = &jupiter_route_accounts[i];
        proof {
            assert(accts[i as int] == route_accounts@);
        }

        let mut account_infos: Vec<AccountMeta> = Vec::new();
        let mut k: usize = 0;
        while k < route_accounts.len()
            invariant
                k <= route_accounts.len(),
                i < selected.len(),
                n == selected@.len() as int,
                i < jupiter_route_instructions.len(),
                i < jupiter_route_accounts.len(),
                instrs == seq_of_views(jupiter_route_instructions@),
                accts == seq_of_views(jupiter_route_accounts@),
                accts[i as int] == route_accounts@,
                context == remaining_accounts@,
                ctx.target_token_account.owner == ctx.user,
                ctx.target_token_account.mint == target_token_mint,
                selected@ == selected_candidates(
                    context,
                    ctx.target_token_account.key,
                    ctx.user,
                    include_dust,
                    min_token_value_usd,
                ),
                swaps@.len() == i,
                forall|j: int| 0 <= j < i ==> route_fine(j, instrs, accts, context),
                forall|j: int|
                    0 <= j < i ==> (#[trigger] swaps@[j])@ == swap_instruction_spec(
                        j,
                        instrs,
                        accts[j],
                        context,
                    ),
                first_bad_route(0, n, instrs, accts, context) == first_bad_route(
                    i as int,
                    n,
                    instrs,
                    accts,
                    context,
                ),
                account_infos@.len() == k,
                forall|kk: int| 0 <= kk < k ==> has_account(context, #[trigger] route_accounts@[kk]),
                forall|kk: int|
                    0 <= kk < k ==> #[trigger] account_infos@[kk] == meta_of(
                        context[account_index(context, route_accounts@[kk], 0)],
                    ),
            decreases route_accounts.len() - k,
        {
            match find_account(remaining_accounts, route_accounts[k]) {
                Some(a) => {
                    account_infos.push(
                        AccountMeta { pubkey: a.key, is_signer: a.is_signer, is_writable: a.is_writable },
                    );
                },
                None => {
                    proof {
                        assert(!has_account(context, accts[i as int][k as int]));
                        assert(!route_resolvable(accts[i as int], context));
                        assert(!route_fine(i as int, instrs, accts, context));
                        assert(first_bad_route(i as int, n, instrs, accts, context) == i as int);
                        assert(!all_routes_fine(n, instrs, accts, context));
                        assert(route_available(i as int, instrs, accts));
                    }
                    return Err(PorgError::AccountNotFound);
                },
            }
            k += 1;
        }
        proof {
            assert(route_resolvable(accts[i as int], context)) by {
                assert forall|kk: int|
                    0 <= kk < accts[i as int].len() implies has_account(
                    context,
                    accts[i as int][kk],
                ) by {
                    assert(has_account(context, route_accounts@[kk]));
                }
            }
            assert(route_fine(i as int, instrs, accts, context));
            assert(first_bad_route(i as int, n, instrs, accts, context) == first_bad_route(
                i as int + 1,
                n,
                instrs,
                accts,
                context,
            ));
        }

        let data = jupiter_route_instructions[i].clone();
        proof {
            assert(data@ =~= jupiter_route_instructions@[i as int]@);
            assert(data@ == instrs[i as int]);
        }
        let instruction = Instruction {
            program_id: jupiter_program_id(),
            accounts: account_infos,
            data,
        };
        proof {
            assert(instruction@.accounts =~= swap_instruction_spec(
                i as int,
                instrs,
                accts[i as int],
                context,
            ).accounts);
            assert(instruction@ =~= swap_instruction_spec(i as int, instrs, accts[i as int], context));
        }
        swaps.push(instruction);
        i += 1;
    }
    proof {
        assert(first_bad_route(n, n, instrs, accts, context) == n);
        assert(all_routes_fine(n, instrs, accts, context));
    }
    Ok(swaps)
}

/// Compute the fee on the target balance the host observed after the swaps,
/// and check the output floor.
///
/// The fee is the program's basis-point rate applied to `target_balance`;
/// when it is nonzero the settlement carries the transfer that moves it
/// from the target account to the fee account under the user's signature.
/// The request fails with `InsufficientOutput` whenever the balance cannot
/// cover the requested minimum plus the fee, and with `ArithmeticOverflow`
/// when the fee product leaves the 64-bit range.
pub fn settle_liquidation(ctx: &BatchLiquidate, target_balance: u64, min_output_amount: u64) -> (r:
    Result<Settlement, PorgError>)
    ensures
        ({
            let product = (target_balance as int) * (ctx.porg_state.fee_basis_points as int);
            let fee = fee_of(target_balance, ctx.porg_state.fee_basis_points);
            &&& (r == Err::<Settlement, PorgError>(PorgError::ArithmeticOverflow) <==> product
                > u64::MAX)
            &&& (product <= u64::MAX ==> {
                &&& (r == Err::<Settlement, PorgError>(PorgError::InsufficientOutput) <==> (
                target_balance as int) < min_output_amount + fee)
                &&& (r matches Ok(_) <==> (target_balance as int) >= min_output_amount + fee)
            })
            &&& (r matches Ok(s) ==> {
                &&& s.fee_amount == fee
                &&& (fee > 0 ==> (s.fee_transfer matches Some(t) && t.from
                    == ctx.target_token_account.key && t.to == ctx.fee_account.key && t.authority
                    == ctx.user && t.amount == fee))
                &&& (fee == 0 ==> s.fee_transfer is None)
            })
        }),
{
    let fee_amount = match calculate_fee(target_balance, ctx.porg_state.fee_basis_points) {
        Ok(f) => f,
        Err(e) => {
            return Err(e);
        },
    };
    if (target_balance as u128) < (min_output_amount as u128) + (fee_amount as u128) {
        return Err(PorgError::InsufficientOutput);
    }
    let fee_transfer = if fee_amount > 0 {
        Some(
            Transfer {
                from: ctx.target_token_account.key,
                to: ctx.fee_account.key,
                authority: ctx.user,
                amount: fee_amount,
            },
        )
    } else {
        None
    };
    Ok(Settlement { fee_amount, fee_transfer })
}

/// Every selected candidate passes the scan's predicate.
pub proof fn lemma_selected_sound(
    context: Seq<TokenAccount>,
    target_key: Pubkey,
    user: Pubkey,
    include_dust: bool,
    min_token_value_usd: u64,
)
    ensures
        ({
            let sel = selected_candidates(context, target_key, user, include_dust, min_token_value_usd);
            forall|i: int|
                0 <= i < sel.len() ==> selects(
                    #[trigger] sel[i],
                    target_key,
                    user,
                    include_dust,
                    min_token_value_usd,
                )
        }),
    decreases context.len(),
{
    if context.len() > 0 {
        lemma_selected_sound(context.drop_last(), target_key, user, include_dust, min_token_value_usd);
        let rest = selected_candidates(
            context.drop_last(),
            target_key,
            user,
            include_dust,
            min_token_value_usd,
        );
        let sel = selected_candidates(context, target_key, user, include_dust, min_token_value_usd);
        assert forall|i: int|
            0 <= i < sel.len() implies selects(
            #[trigger] sel[i],
            target_key,
            user,
            include_dust,
            min_token_value_usd,
        ) by {
            if selects(context.last(), target_key, user, include_dust, min_token_value_usd) {
                assert(sel == rest.push(context.last()));
                if i < rest.len() {
                    assert(sel[i] == rest[i]);
                } else {
                    assert(sel[i] == context.last());
                }
            } else {
                assert(sel == rest);
                assert(sel[i] == rest[i]);
            }
        }
    }
}

/// Law: the target account is never among the selected candidates, and
/// appending the target to the candidate list leaves the selection
/// unchanged — supplying it as its own candidate has no effect.
pub proof fn lemma_target_excluded(
    context: Seq<TokenAccount>,
    target: TokenAccount,
    user: Pubkey,
    include_dust: bool,
    min_token_value_usd: u64,
)
    ensures
        ({
            let sel = selected_candidates(context, target.key, user, include_dust, min_token_value_usd);
            forall|i: int| 0 <= i < sel.len() ==> (#[trigger] sel[i]).key != target.key
        }),
        selected_candidates(
            context.push(target),
            target.key,
            user,
            include_dust,
            min_token_value_usd,
        ) == selected_candidates(context, target.key, user, include_dust, min_token_value_usd),
{
    lemma_selected_sound(context, target.key, user, include_dust, min_token_value_usd);
    let sel = selected_candidates(context, target.key, user, include_dust, min_token_value_usd);
    assert forall|i: int| 0 <= i < sel.len() implies (#[trigger] sel[i]).key != target.key by {
        assert(selects(sel[i], target.key, user, include_dust, min_token_value_usd));
    }
    assert(context.push(target).drop_last() =~= context);
    assert(context.push(target).last() == target);
}

/// Law: with dust excluded, a candidate valued below the threshold is never
/// selected, so no swap position is allocated for it.
pub proof fn lemma_dust_excluded(
    context: Seq<TokenAccount>,
    target_key: Pubkey,
    user: Pubkey,
    min_token_value_usd: u64,
    candidate: TokenAccount,
)
    requires
        token_value_usd_spec(candidate) < min_token_value_usd,
    ensures
        !selected_candidates(context, target_key, user, false, min_token_value_usd).contains(
            candidate,
        ),
{
    lemma_selected_sound(context, target_key, user, false, min_token_value_usd);
    let sel = selected_candidates(context, target_key, user, false, min_token_value_usd);
    if sel.contains(candidate) {
        let i = choose|i: int| 0 <= i < sel.len() && sel[i] == candidate;
        assert(selects(sel[i], target_key, user, false, min_token_value_usd));
    }
}

} // verus!
