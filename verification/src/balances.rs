//! Balances of a wallet: its ICP ledger account, its native EVM currency and
//! its ERC-20 tokens, and the portfolio that gathers them.

use vstd::prelude::*;
use crate::crypto::{PrincipalId, principal_to_account_id, account_identifier_bytes, default_subaccount};
use crate::hexcodec::{hex_encode, hex_lower};
use crate::json::{json_members, json_members_of, opt_text, JsonMember};
use crate::evm::get_native_symbol;
use crate::text::{push_str, string_from_chars};

verus! {

/// The balance of one ERC-20 token, or why it could not be read.
#[derive(Clone, Debug)]
pub struct TokenBalance {
    pub symbol: String,
    pub contract_address: String,
    pub balance: String,
    pub success: bool,
    pub error: Option<String>,
}

/// The ICP balance of a ledger account.
#[derive(Clone, Debug)]
pub struct ICPBalance {
    pub balance_e8s: u64,
    pub balance_icp: String,
    pub account_id: String,
}

/// Every balance of a wallet on one EVM chain.
#[derive(Clone, Debug)]
pub struct PortfolioBalance {
    pub icp_balance: ICPBalance,
    pub native_balance: String,
    pub native_symbol: String,
    pub token_balances: Vec<TokenBalance>,
    pub wallet_address: String,
    pub chain_id: u64,
}

/// The argument of the ledger's `account_balance` query.
#[derive(Clone, Debug)]
pub struct AccountBalanceArgs {
    pub account: Vec<u8>,
}

/// An amount of ICP in e8s, as the ledger answers a balance query.
#[derive(Clone, Copy, Debug, PartialEq, Eq, Structural)]
pub struct Tokens {
    pub e8s: u64,
}

fn text_after(lead: &str, rest: &str) -> (res: String)
    ensures
        res@ == lead@ + rest@,
{
    let mut out: Vec<char> = Vec::new();
    push_str(&mut out, lead);
    push_str(&mut out, rest);
    string_from_chars(&out)
}

/// The native balance that a raw JSON-RPC answer gives: a failed call is an
/// RPC error; an unparsable reply a parse error; an `error` member an RPC
/// error with its JSON text; else the `result` member where it is a string.
pub open spec fn native_balance_result(call: Result<Seq<char>, Seq<char>>) -> Result<Seq<char>, Seq<char>> {
    match call {
        Err(err) => Err("RPC error: "@ + err),
        Ok(response) => match json_members_of(response, "error"@, "result"@) {
            Err(pe) => Err("JSON parse error: "@ + pe),
            Ok((Some((error, _)), _)) => Err("RPC error: "@ + error),
            Ok((None, Some((_, Some(balance))))) => Ok(balance),
            Ok((None, _)) => Err("No result in response"@),
        },
    }
}

pub open spec fn call_text(call: Result<String, String>) -> Result<Seq<char>, Seq<char>> {
    match call {
        Ok(s) => Ok(s@),
        Err(e) => Err(e@),
    }
}

/// Reads the native balance out of the answer to `eth_getBalance`.
pub fn native_balance_from_reply(call: Result<String, String>) -> (res: Result<String, String>)
    ensures
        native_balance_result(call_text(call)) == call_text(res),
{
    proof {
        reveal_strlit("error");
        reveal_strlit("result");
    }
    match call {
        Err(err) => Err(text_after("RPC error: ", err.as_str())),
        Ok(response) => {
            match json_members(response.as_str(), "error", "result") {
                Err(pe) => Err(text_after("JSON parse error: ", pe.as_str())),
                Ok((Some(error), _)) => Err(text_after("RPC error: ", error.text.as_str())),
                Ok((None, Some(JsonMember { text: _, as_str: Some(balance) }))) => Ok(balance),
                Ok((None, _)) => Err(String::from_str("No result in response")),
            }
        },
    }
}

/// What a raw `eth_call` answer says of a token balance: (balance, success,
/// error). A failed call or an `error` member gives balance `0`, no success and
/// the error; an unparsable reply fails; else the `result` member where it is
/// a string, `0x0` where it is not.
pub open spec fn token_balance_outcome(call: Result<Seq<char>, Seq<char>>) -> Result<(Seq<char>, bool, Option<Seq<char>>), Seq<char>> {
    match call {
        Err(err) => Ok(("0"@, false, Some(err))),
        Ok(response) => match json_members_of(response, "error"@, "result"@) {
            Err(pe) => Err("JSON parse error: "@ + pe),
            Ok((Some((error, _)), _)) => Ok(("0"@, false, Some("RPC error: "@ + error))),
            Ok((None, Some((_, Some(balance))))) => Ok((balance, true, None)),
            Ok((None, _)) => Ok(("0x0"@, true, None)),
        },
    }
}

pub open spec fn token_balance_view(t: TokenBalance) -> (Seq<char>, bool, Option<Seq<char>>) {
    (t.balance@, t.success, opt_text(t.error))
}

/// Reads the balance of token `symbol` at `contract` out of the answer to its
/// `balanceOf` call.
pub fn token_balance_from_reply(symbol: String, contract: String, call: Result<String, String>) -> (res: Result<TokenBalance, String>)
    ensures
        res matches Ok(t) ==> t.symbol@ == symbol@ && t.contract_address@ == contract@
            && token_balance_outcome(call_text(call)) == Ok::<
            (Seq<char>, bool, Option<Seq<char>>),
            Seq<char>,
        >(token_balance_view(t)),
        res matches Err(e) ==> token_balance_outcome(call_text(call)) == Err::<
            (Seq<char>, bool, Option<Seq<char>>),
            Seq<char>,
        >(e@),
{
    proof {
        reveal_strlit("error");
        reveal_strlit("result");
    }
    match call {
        Err(err) => Ok(
            TokenBalance {
                symbol,
                contract_address: contract,
                balance: String::from_str("0"),
                success: false,
                error: Some(err),
            },
        ),
        Ok(response) => {
            match json_members(response.as_str(), "error", "result") {
                Err(pe) => Err(text_after("JSON parse error: ", pe.as_str())),
                Ok((Some(error), _)) => Ok(
                    TokenBalance {
                        symbol,
                        contract_address: contract,
                        balance: String::from_str("0"),
                        success: false,
                        error: Some(text_after("RPC error: ", error.text.as_str())),
                    },
                ),
                Ok((None, Some(JsonMember { text: _, as_str: Some(balance) }))) => Ok(
                    TokenBalance { symbol, contract_address: contract, balance, success: true, error: None },
                ),
                Ok((None, _)) => Ok(
                    TokenBalance {
                        symbol,
                        contract_address: contract,
                        balance: String::from_str("0x0"),
                        success: true,
                        error: None,
                    },
                ),
            }
        },
    }
}

/// The token balance to report: the one read, or an `ERROR` entry that
/// carries the failure.
pub fn token_balance_or_error(read: Result<TokenBalance, String>) -> (res: TokenBalance)
    ensures
        read matches Ok(t) ==> res == t,
        read matches Err(e) ==> res.symbol@ == "ERROR"@ && res.contract_address@ == ""@
            && res.balance@ == "0"@ && !res.success && opt_text(res.error) == Some(e@),
{
    match read {
        Ok(t) => t,
        Err(e) => TokenBalance {
            symbol: String::from_str("ERROR"),
            contract_address: String::from_str(""),
            balance: String::from_str("0"),
            success: false,
            error: Some(e),
        },
    }
}

/// The query of the ICP balance of `owner`'s default account.
pub fn icp_balance_query(owner: &PrincipalId) -> (res: AccountBalanceArgs)
    ensures
        res.account@ == account_identifier_bytes(owner@, default_subaccount()),
{
    let account = principal_to_account_id(owner, None);
    AccountBalanceArgs { account: vstd::slice::slice_to_vec(account.as_slice()) }
}

/// The report of an ICP balance of `balance_e8s`, shown as `balance_icp`, of
/// the account with identifier `account`.
pub fn icp_balance_report(balance_e8s: u64, balance_icp: String, account: &[u8]) -> (res: ICPBalance)
    ensures
        res.balance_e8s == balance_e8s,
        res.balance_icp@ == balance_icp@,
        res.account_id@ == hex_lower(account@),
{
    ICPBalance { balance_e8s, balance_icp, account_id: hex_encode(account) }
}

/// Whether `b` is the balance shown where the ICP balance could not be read.
pub open spec fn is_unknown_icp_balance(b: ICPBalance) -> bool {
    &&& b.balance_e8s == 0
    &&& b.balance_icp@ == "0.00000000"@
    &&& b.account_id@ == ""@
}

/// Gathers a wallet's portfolio: the ICP balance where it was read (zero and
/// no account otherwise), the native balance where it was read (`0x0`
/// otherwise), ETH as native symbol, and no token balances.
pub fn assemble_portfolio(
    icp: Result<ICPBalance, String>,
    native: Result<String, String>,
    wallet_address: String,
    chain_id: u64,
) -> (res: PortfolioBalance)
    ensures
        icp matches Ok(b) ==> res.icp_balance == b,
        icp is Err ==> is_unknown_icp_balance(res.icp_balance),
        native matches Ok(n) ==> res.native_balance@ == n@,
        native is Err ==> res.native_balance@ == "0x0"@,
        res.native_symbol@ == "ETH"@,
        res.token_balances@.len() == 0,
        res.wallet_address@ == wallet_address@,
        res.chain_id == chain_id,
{
    let icp_balance = match icp {
        Ok(b) => b,
        Err(_) => ICPBalance {
            balance_e8s: 0,
            balance_icp: String::from_str("0.00000000"),
            account_id: String::from_str(""),
        },
    };
    let native_balance = match native {
        Ok(n) => n,
        Err(_) => String::from_str("0x0"),
    };
    let token_balances: Vec<TokenBalance> = Vec::new();
    PortfolioBalance {
        icp_balance,
        native_balance,
        native_symbol: get_native_symbol(chain_id),
        token_balances,
        wallet_address,
        chain_id,
    }
}

} // verus!
