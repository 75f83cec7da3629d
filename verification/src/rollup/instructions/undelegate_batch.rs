use vstd::prelude::*;

use crate::program_error::ProgramError;
use crate::pubkey::Pubkey;
use crate::rollup::errors::{fail, Error, ErrorCode};
use crate::rollup::events::BatchUndelegated;
use crate::rollup::state::{Sale, SaleStatus};

verus! {

/// Most bid accounts returned to the base chain in one batch.
pub const MAX_UNDELEGATE_BATCH_SIZE: usize = 10;

/// The accounts of returning bids to the base chain: the sale and its address.
pub struct UndelegateBatch {
    pub sale: Sale,
    pub sale_key: Pubkey,
}

/// Why a batch of `count` bid accounts cannot leave the rollup; `None` when it can.
pub open spec fn undelegate_batch_failure(sale: Sale, count: usize) -> Option<Error> {
    if sale.status != SaleStatus::Allocated {
        Some(fail(ErrorCode::InvalidSaleStatus))
    } else if !sale.bids_zeroed {
        Some(fail(ErrorCode::BidsNotZeroed))
    } else if count == 0 {
        Some(fail(ErrorCode::BatchEmpty))
    } else if count > MAX_UNDELEGATE_BATCH_SIZE {
        Some(fail(ErrorCode::BatchSizeTooLarge))
    } else {
        None
    }
}

/// Checks that `count` bid accounts, all allocated and erased, may be committed back to the
/// base chain.
pub fn handler_undelegate_batch(ctx: &UndelegateBatch, count: usize) -> (r: Result<
    BatchUndelegated,
    Error,
>)
    ensures
        match r {
            Ok(event) => undelegate_batch_failure(ctx.sale, count) is None && event == (
            BatchUndelegated { sale: ctx.sale_key, batch_size: count as u32 }),
            Err(e) => undelegate_batch_failure(ctx.sale, count) == Some(e),
        },
{
    if ctx.sale.status != SaleStatus::Allocated {
        return Err(ProgramError::Custom(ErrorCode::InvalidSaleStatus));
    }
    if !ctx.sale.bids_zeroed {
        return Err(ProgramError::Custom(ErrorCode::BidsNotZeroed));
    }
    if count == 0 {
        return Err(ProgramError::Custom(ErrorCode::BatchEmpty));
    }
    if count > MAX_UNDELEGATE_BATCH_SIZE {
        return Err(ProgramError::Custom(ErrorCode::BatchSizeTooLarge));
    }
    Ok(BatchUndelegated { sale: ctx.sale_key, batch_size: count as u32 })
}

} // verus!
