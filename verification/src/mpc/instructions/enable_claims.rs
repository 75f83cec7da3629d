use vstd::prelude::*;

use crate::mpc::errors::{fail, Error, ErrorCode};
use crate::mpc::state::{Sale, SaleStatus};
use crate::program_error::ProgramError;
use crate::pubkey::Pubkey;

verus! {

/// The accounts of enabling claims: the sale and the signing authority.
pub struct EnableClaims {
    pub sale: Sale,
    pub authority: Pubkey,
}

/// Why claims cannot be enabled, checked in this order; `None` when they can.
pub open spec fn enable_claims_failure(sale: Sale, authority: Pubkey) -> Option<Error> {
    if sale.authority@ != authority@ {
        Some(ProgramError::ConstraintHasOne)
    } else if sale.status != SaleStatus::Settled && sale.status != SaleStatus::CheckingBids {
        Some(fail(ErrorCode::InvalidSaleStatus))
    } else if sale.claims_enabled {
        Some(fail(ErrorCode::AlreadyProcessed))
    } else {
        None
    }
}

/// The authority opens claims on a settled sale, which finalizes it.
pub fn handler_enable_claims(ctx: &mut EnableClaims) -> (r: Result<(), Error>)
    ensures
        final(ctx).authority == old(ctx).authority,
        match r {
            Ok(()) => enable_claims_failure(old(ctx).sale, old(ctx).authority) is None && final(ctx).sale == (Sale { claims_enabled: true, status: SaleStatus::Finalized, ..old(ctx).sale }),
            Err(e) => enable_claims_failure(old(ctx).sale, old(ctx).authority) == Some(e) && final(ctx).sale == old(ctx).sale,
        },
{
    if !ctx.sale.authority.same_as(&ctx.authority) {
        return Err(ProgramError::ConstraintHasOne);
    }
    if ctx.sale.status != SaleStatus::Settled && ctx.sale.status != SaleStatus::CheckingBids {
        return Err(ProgramError::Custom(ErrorCode::InvalidSaleStatus));
    }
    if ctx.sale.claims_enabled {
        return Err(ProgramError::Custom(ErrorCode::AlreadyProcessed));
    }
    ctx.sale.claims_enabled = true;
    ctx.sale.status = SaleStatus::Finalized;
    Ok(())
}

} // verus!
