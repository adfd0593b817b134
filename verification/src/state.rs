//! Program state, its invariant, and the authorization-checked mutations.

use vstd::prelude::*;

verus! {

/// A 32-byte on-chain account address, held as four 64-bit words.
#[derive(Clone, Copy, PartialEq, Eq, Structural, Debug)]
pub struct Pubkey {
    pub w0: u64,
    pub w1: u64,
    pub w2: u64,
    pub w3: u64,
}

/// The highest fee the authority may set, in basis points (5%).
pub const MAX_FEE_BASIS_POINTS: u16 = 500;

/// The fee installed at initialization, in basis points (1%).
pub const INITIAL_FEE_BASIS_POINTS: u16 = 100;

/// The singleton program state: who administers the program, what fee it
/// charges, and where collected fees go.
#[derive(Clone, Copy, PartialEq, Eq, Structural, Debug)]
pub struct PorgState {
    /// The administrator; the only identity allowed to change the fee.
    pub authority: Pubkey,
    /// The fee in basis points (1/100th of a percent).
    pub fee_basis_points: u16,
    /// The account that receives collected fees.
    pub fee_account: Pubkey,
}

impl PorgState {
    /// Well-formed state: the stored fee never exceeds the cap.
    pub open spec fn wf(self) -> bool {
        self.fee_basis_points <= MAX_FEE_BASIS_POINTS
    }
}

/// Every way a request can fail.
#[derive(Clone, Copy, PartialEq, Eq, Structural, Debug)]
pub enum PorgError {
    /// The caller is not the stored authority.
    Unauthorized,
    /// A requested fee exceeds the cap.
    FeeTooHigh,
    /// The liquidation target account is not owned by the caller.
    InvalidTargetAccount,
    /// The liquidation target account holds a different mint than declared.
    InvalidTargetMint,
    /// A selected token has no swap route at its position.
    InvalidJupiterRoute,
    /// A swap route names an account absent from the supplied context.
    AccountNotFound,
    /// The target balance cannot cover the requested minimum plus the fee.
    InsufficientOutput,
    /// Fee arithmetic overflowed the 64-bit range.
    ArithmeticOverflow,
}

/// The accounts handed to `initialize`: the administrator-to-be and the
/// account that is to receive fees.
#[derive(Clone, Copy, PartialEq, Eq, Structural, Debug)]
pub struct Initialize {
    pub authority: Pubkey,
    pub fee_account: Pubkey,
}

/// The accounts handed to `update_fee`: the identity that signed the request.
#[derive(Clone, Copy, PartialEq, Eq, Structural, Debug)]
pub struct UpdateFee {
    pub authority: Pubkey,
}

/// Create the program state. The caller becomes the authority and the fee
/// starts at `INITIAL_FEE_BASIS_POINTS`; whether a state account already
/// exists is the ledger's concern, not decided here.
pub fn initialize(ctx: &Initialize) -> (state: PorgState)
    ensures
        state.authority == ctx.authority,
        state.fee_basis_points == INITIAL_FEE_BASIS_POINTS,
        state.fee_account == ctx.fee_account,
        state.wf(),
{
    PorgState {
        authority: ctx.authority,
        fee_basis_points: INITIAL_FEE_BASIS_POINTS,
        fee_account: ctx.fee_account,
    }
}

/// Change the stored fee. A fee over the cap is refused whoever asks; an
/// authorized request under the cap overwrites the fee and nothing else;
/// a failed request leaves the state untouched.
pub fn update_fee(state: &mut PorgState, ctx: &UpdateFee, new_fee_basis_points: u16) -> (r: Result<
    (),
    PorgError,
>)
    ensures
        r == Ok::<(), PorgError>(()) <==> (new_fee_basis_points <= MAX_FEE_BASIS_POINTS
            && ctx.authority == old(state).authority),
        r == Err::<(), PorgError>(PorgError::FeeTooHigh) <==> new_fee_basis_points
            > MAX_FEE_BASIS_POINTS,
        r == Err::<(), PorgError>(PorgError::Unauthorized) <==> (new_fee_basis_points
            <= MAX_FEE_BASIS_POINTS && ctx.authority != old(state).authority),
        final(state).authority == old(state).authority,
        final(state).fee_account == old(state).fee_account,
        r matches Ok(_) ==> final(state).fee_basis_points == new_fee_basis_points,
        r matches Err(_) ==> final(state).fee_basis_points == old(state).fee_basis_points,
        r matches Ok(_) ==> final(state).wf(),
        old(state).wf() ==> final(state).wf(),
{
    if new_fee_basis_points > MAX_FEE_BASIS_POINTS {
        return Err(PorgError::FeeTooHigh);
    }
    if ctx.authority != state.authority {
        return Err(PorgError::Unauthorized);
    }
    state.fee_basis_points = new_fee_basis_points;
    Ok(())
}

} // verus!
