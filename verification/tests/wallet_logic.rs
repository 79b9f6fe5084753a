use q3x_backend::balances::{
    assemble_portfolio, icp_balance_query, icp_balance_report, native_balance_from_reply,
    token_balance_from_reply, token_balance_or_error, ICPBalance, TokenBalance,
};
use q3x_backend::crypto::{ledger_canister_id, principal_to_account_id, PrincipalId};
use q3x_backend::hexcodec::{hex_error_message, HexError};
use q3x_backend::json::{native_balance_request, token_balance_request};
use q3x_backend::ledger::{block_index_outcome, ledger_transfer_args, IcpTransferArgs};
use q3x_backend::text::decimal_string;

fn unhex(s: &str) -> Vec<u8> {
    (0..s.len()).step_by(2).map(|i| u8::from_str_radix(&s[i..i + 2], 16).unwrap()).collect()
}

fn principal(bytes: &[u8]) -> PrincipalId {
    PrincipalId::from_bytes(bytes.to_vec()).unwrap()
}

#[test]
fn decimal_rendering() {
    assert_eq!(decimal_string(0), "0");
    assert_eq!(decimal_string(7), "7");
    assert_eq!(decimal_string(10), "10");
    assert_eq!(decimal_string(18446744073709551615), "18446744073709551615");
}

#[test]
fn hex_error_messages() {
    assert_eq!(hex_error_message(&HexError::OddLength), "Odd number of digits");
    assert_eq!(hex_error_message(&HexError::InvalidStringLength), "Invalid string length");
    assert_eq!(
        hex_error_message(&HexError::InvalidHexCharacter { c: 'g', index: 12 }),
        "Invalid character 'g' at position 12"
    );
}

#[test]
fn principal_length_is_bounded() {
    assert!(PrincipalId::from_bytes(vec![1u8; 29]).is_some());
    assert!(PrincipalId::from_bytes(vec![1u8; 30]).is_none());
    assert_eq!(principal(&[1, 2]).duplicate().as_bytes(), &[1u8, 2][..]);
}

#[test]
fn account_id_of_anonymous_principal() {
    let account = principal_to_account_id(&principal(&[4]), None);
    assert_eq!(
        account.to_vec(),
        unhex("1c7a48ba6a562aa9eaa2481a9049cdf0433b9738c992d698c31d8abf89cadc79")
    );
}

#[test]
fn account_id_with_subaccount() {
    let account = principal_to_account_id(&principal(&[1, 2, 3]), Some([7u8; 32]));
    assert_eq!(
        account.to_vec(),
        unhex("7eeabaf9c1622be2795c232f2b058b19b3610cdd6f06f234df56b8fa02b6a277")
    );
}

#[test]
fn ledger_canister_id_decodes() {
    assert_eq!(ledger_canister_id().unwrap().as_bytes().to_vec(), unhex("00000000000000020101"));
}

#[test]
fn ledger_transfer_goes_to_computed_account() {
    let args = IcpTransferArgs {
        amount_e8s: 123,
        to_principal: principal(&[1, 2, 3]),
        to_subaccount: Some([7u8; 32]),
    };
    let call = ledger_transfer_args(&args);
    assert_eq!(call.memo, 0);
    assert_eq!(call.amount_e8s, 123);
    assert_eq!(call.fee_e8s, 10_000);
    assert!(call.from_subaccount.is_none());
    assert!(call.created_at_time.is_none());
    assert_eq!(call.to, principal_to_account_id(&principal(&[1, 2, 3]), Some([7u8; 32])));
}

#[test]
fn ledger_transfer_default_subaccount() {
    let args = IcpTransferArgs { amount_e8s: 1, to_principal: principal(&[4]), to_subaccount: None };
    assert_eq!(
        ledger_transfer_args(&args).to.to_vec(),
        unhex("1c7a48ba6a562aa9eaa2481a9049cdf0433b9738c992d698c31d8abf89cadc79")
    );
}

#[test]
fn block_index_as_text() {
    assert_eq!(block_index_outcome(Ok(42)), Ok("42".to_string()));
    assert_eq!(block_index_outcome(Err("no funds".to_string())), Err("no funds".to_string()));
}

fn json_text(pairs: Vec<(&str, serde_json::Value)>) -> String {
    let mut map = serde_json::Map::new();
    for (k, v) in pairs {
        map.insert(k.to_string(), v);
    }
    serde_json::Value::Object(map).to_string()
}

#[test]
fn native_balance_request_matches_serde_json() {
    let expected = json_text(vec![
        ("jsonrpc", serde_json::Value::from("2.0")),
        ("method", serde_json::Value::from("eth_getBalance")),
        (
            "params",
            serde_json::Value::Array(vec![
                serde_json::Value::from("0xab\"c\n"),
                serde_json::Value::from("latest"),
            ]),
        ),
        ("id", serde_json::Value::from(1)),
    ]);
    assert_eq!(native_balance_request("0xab\"c\n"), expected);
    assert_eq!(
        native_balance_request("0x1"),
        "{\"id\":1,\"jsonrpc\":\"2.0\",\"method\":\"eth_getBalance\",\"params\":[\"0x1\",\"latest\"]}"
    );
}

#[test]
fn token_balance_request_matches_serde_json() {
    let call = json_text(vec![
        ("to", serde_json::Value::from("0xC0\u{1}")),
        ("data", serde_json::Value::from("0x70a0\\")),
    ]);
    let expected = json_text(vec![
        ("jsonrpc", serde_json::Value::from("2.0")),
        ("method", serde_json::Value::from("eth_call")),
        (
            "params",
            serde_json::Value::Array(vec![
                serde_json::from_str(&call).unwrap(),
                serde_json::Value::from("latest"),
            ]),
        ),
        ("id", serde_json::Value::from(1)),
    ]);
    assert_eq!(token_balance_request("0xC0\u{1}", "0x70a0\\"), expected);
}

#[test]
fn native_balance_replies() {
    assert_eq!(
        native_balance_from_reply(Ok("{\"jsonrpc\":\"2.0\",\"id\":1,\"result\":\"0x1bc16d674ec80000\"}".to_string())),
        Ok("0x1bc16d674ec80000".to_string())
    );
    assert_eq!(
        native_balance_from_reply(Ok("{\"error\":{\"code\":-32000,\"message\":\"bad\"}}".to_string())),
        Err("RPC error: {\"code\":-32000,\"message\":\"bad\"}".to_string())
    );
    assert_eq!(
        native_balance_from_reply(Ok("{\"result\":7}".to_string())),
        Err("No result in response".to_string())
    );
    assert_eq!(
        native_balance_from_reply(Err("canister busy".to_string())),
        Err("RPC error: canister busy".to_string())
    );
    let parse_error = serde_json::from_str::<serde_json::Value>("not json").unwrap_err().to_string();
    assert_eq!(
        native_balance_from_reply(Ok("not json".to_string())),
        Err(format!("JSON parse error: {}", parse_error))
    );
}

fn balance(symbol: &str, contract: &str, call: Result<&str, &str>) -> Result<TokenBalance, String> {
    token_balance_from_reply(
        symbol.to_string(),
        contract.to_string(),
        call.map(|s| s.to_string()).map_err(|e| e.to_string()),
    )
}

#[test]
fn token_balance_replies() {
    let ok = balance("USDC", "0xA0", Ok("{\"result\":\"0x05\"}")).unwrap();
    assert_eq!((ok.symbol.as_str(), ok.contract_address.as_str()), ("USDC", "0xA0"));
    assert_eq!((ok.balance.as_str(), ok.success, ok.error), ("0x05", true, None));

    let missing = balance("USDC", "0xA0", Ok("{}")).unwrap();
    assert_eq!((missing.balance.as_str(), missing.success), ("0x0", true));

    let rpc = balance("USDC", "0xA0", Ok("{\"error\":\"nope\"}")).unwrap();
    assert_eq!((rpc.balance.as_str(), rpc.success), ("0", false));
    assert_eq!(rpc.error, Some("RPC error: \"nope\"".to_string()));

    let failed = balance("LINK", "0xB0", Err("rejected")).unwrap();
    assert_eq!((failed.balance.as_str(), failed.success), ("0", false));
    assert_eq!(failed.error, Some("rejected".to_string()));

    assert!(balance("LINK", "0xB0", Ok("{")).unwrap_err().starts_with("JSON parse error: "));
}

#[test]
fn token_balance_error_entry() {
    let entry = token_balance_or_error(Err("boom".to_string()));
    assert_eq!(entry.symbol, "ERROR");
    assert_eq!(entry.contract_address, "");
    assert_eq!(entry.balance, "0");
    assert!(!entry.success);
    assert_eq!(entry.error, Some("boom".to_string()));
}

#[test]
fn icp_balance_query_and_report() {
    let query = icp_balance_query(&principal(&[4]));
    assert_eq!(
        query.account,
        unhex("1c7a48ba6a562aa9eaa2481a9049cdf0433b9738c992d698c31d8abf89cadc79")
    );
    let report = icp_balance_report(150_000_000, "1.50000000".to_string(), &query.account);
    assert_eq!(report.balance_e8s, 150_000_000);
    assert_eq!(report.balance_icp, "1.50000000");
    assert_eq!(report.account_id, "1c7a48ba6a562aa9eaa2481a9049cdf0433b9738c992d698c31d8abf89cadc79");
}

#[test]
fn portfolio_with_failures_uses_defaults() {
    let p = assemble_portfolio(Err("x".to_string()), Err("y".to_string()), "0xabc".to_string(), 1);
    assert_eq!(p.icp_balance.balance_e8s, 0);
    assert_eq!(p.icp_balance.balance_icp, "0.00000000");
    assert_eq!(p.icp_balance.account_id, "");
    assert_eq!(p.native_balance, "0x0");
    assert_eq!(p.native_symbol, "ETH");
    assert!(p.token_balances.is_empty());
    assert_eq!(p.wallet_address, "0xabc");
    assert_eq!(p.chain_id, 1);
}

#[test]
fn portfolio_with_balances() {
    let icp = ICPBalance {
        balance_e8s: 5,
        balance_icp: "0.00000005".to_string(),
        account_id: "ab".to_string(),
    };
    let p = assemble_portfolio(Ok(icp), Ok("0x10".to_string()), "0xdef".to_string(), 42161);
    assert_eq!(p.icp_balance.balance_e8s, 5);
    assert_eq!(p.icp_balance.account_id, "ab");
    assert_eq!(p.native_balance, "0x10");
    assert_eq!(p.chain_id, 42161);
}
