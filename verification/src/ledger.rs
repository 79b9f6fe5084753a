//! ICP transfers through the ledger canister.

use vstd::prelude::*;
use crate::crypto::{
    PrincipalId, ledger_account_identifier, account_identifier_bytes, subaccount_or_default,
};
use crate::text::{decimal, decimal_string};

verus! {

/// The fee of every ICP transfer, in e8s.
pub const ICP_TRANSFER_FEE_E8S: u64 = 10_000;

/// A transfer of ICP that a wallet asks for.
#[derive(Debug)]
pub struct IcpTransferArgs {
    pub amount_e8s: u64,
    pub to_principal: PrincipalId,
    pub to_subaccount: Option<[u8; 32]>,
}

/// The arguments of the ledger's `transfer` call, as plain values.
#[derive(Clone, Copy, Debug)]
pub struct LedgerTransferArgs {
    pub memo: u64,
    pub amount_e8s: u64,
    pub fee_e8s: u64,
    pub from_subaccount: Option<[u8; 32]>,
    pub to: [u8; 32],
    pub created_at_time: Option<u64>,
}

/// The ledger call for a transfer: memo zero, the standard fee, from the
/// default subaccount, to the account of the principal and subaccount (the
/// default one where none is given), stamped by the ledger.
pub fn ledger_transfer_args(args: &IcpTransferArgs) -> (res: LedgerTransferArgs)
    ensures
        res.memo == 0,
        res.amount_e8s == args.amount_e8s,
        res.fee_e8s == ICP_TRANSFER_FEE_E8S,
        res.from_subaccount is None,
        res.to@ == account_identifier_bytes(args.to_principal@, subaccount_or_default(args.to_subaccount)),
        res.created_at_time is None,
{
    let to_subaccount: [u8; 32] = match args.to_subaccount {
        Some(s) => s,
        None => [0u8; 32],
    };
    assert(to_subaccount@ =~= subaccount_or_default(args.to_subaccount));
    let owner = args.to_principal.as_bytes();
    let to = ledger_account_identifier(owner, &to_subaccount);
    LedgerTransferArgs {
        memo: 0,
        amount_e8s: args.amount_e8s,
        fee_e8s: ICP_TRANSFER_FEE_E8S,
        from_subaccount: None,
        to,
        created_at_time: None,
    }
}

pub open spec fn block_outcome(r: Result<u64, String>) -> Result<Seq<char>, Seq<char>> {
    match r {
        Ok(b) => Ok(decimal(b as nat)),
        Err(e) => Err(e@),
    }
}

/// The outcome of an ICP transfer as text: the block index in decimal, or the error.
pub fn block_index_outcome(r: Result<u64, String>) -> (res: Result<String, String>)
    ensures
        block_outcome(r) == (match res {
            Ok(s) => Ok::<Seq<char>, Seq<char>>(s@),
            Err(e) => Err::<Seq<char>, Seq<char>>(e@),
        }),
{
    match r {
        Ok(b) => Ok(decimal_string(b)),
        Err(e) => Err(e),
    }
}

} // verus!
