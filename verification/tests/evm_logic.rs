use q3x_backend::crypto::{derive_evm_address, evm_address_from_public_key, evm_canister_id};
use q3x_backend::evm::{
    encode_balance_of, get_native_symbol, get_rpc_service, get_rpc_services, get_token_contracts,
    nonce_failure_message, nonce_plan, parse_recipient, NoncePlan, raw_transaction_hex, send_transaction_request,
    signed_transaction_bytes, transaction_count_from_reply, transaction_count_request,
    transaction_sent_message, unsigned_transaction, BlockTag, EthMainnetService, EthSepoliaService,
    L2MainnetService, RpcService, RpcServices, TransactionCountReply, TransferEvmArgs,
};

fn unhex(s: &str) -> Vec<u8> {
    (0..s.len()).step_by(2).map(|i| u8::from_str_radix(&s[i..i + 2], 16).unwrap()).collect()
}

fn generator_public_key() -> [u8; 65] {
    let mut key = [0u8; 65];
    key[0] = 4;
    let xy = unhex(
        "79be667ef9dcbbac55a06295ce870b07029bfcdb2dce28d959f2815b16f81798\
         483ada7726a3c4655da4fbfc0e1108a8fd17b448a68554199c47d08ffb10d4b8",
    );
    key[1..].copy_from_slice(&xy);
    key
}

#[test]
fn derive_evm_address_of_generator_key() {
    let address = derive_evm_address(generator_public_key());
    assert_eq!(address.to_vec(), unhex("7e5f4552091a69125d5dfcb7b8c2659029395bdf"));
}

#[test]
fn evm_address_text_is_prefixed_lower_hex() {
    assert_eq!(
        evm_address_from_public_key(generator_public_key()),
        "0x7e5f4552091a69125d5dfcb7b8c2659029395bdf"
    );
}

#[test]
fn evm_canister_id_decodes() {
    let p = evm_canister_id().unwrap();
    assert_eq!(p.as_bytes().to_vec(), unhex("00000000023000cc0101"));
}

#[test]
fn rpc_service_per_chain() {
    assert!(matches!(get_rpc_service(1), Ok(RpcService::EthMainnet(EthMainnetService::PublicNode))));
    assert!(matches!(
        get_rpc_service(11155111),
        Ok(RpcService::EthSepolia(EthSepoliaService::PublicNode))
    ));
    assert!(matches!(
        get_rpc_service(42161),
        Ok(RpcService::ArbitrumOne(L2MainnetService::PublicNode))
    ));
    match get_rpc_service(421614) {
        Ok(RpcService::Custom(api)) => {
            assert_eq!(api.url, "https://sepolia-rollup.arbitrum.io/rpc");
            assert!(api.headers.is_none());
        }
        _ => panic!("expected a custom endpoint"),
    }
}

#[test]
fn rpc_service_unsupported_chain() {
    assert_eq!(get_rpc_service(5).unwrap_err(), "Unsupported chain: 5");
}

#[test]
fn rpc_services_per_chain() {
    match get_rpc_services(1) {
        Ok(RpcServices::EthMainnet(Some(v))) => assert_eq!(v, vec![EthMainnetService::PublicNode]),
        _ => panic!("expected mainnet providers"),
    }
    match get_rpc_services(421614) {
        Ok(RpcServices::Custom { chain_id, services }) => {
            assert_eq!(chain_id, 421614);
            assert_eq!(services.len(), 1);
            assert_eq!(services[0].url, "https://sepolia-rollup.arbitrum.io/rpc");
        }
        _ => panic!("expected a custom endpoint"),
    }
    assert_eq!(get_rpc_services(137).unwrap_err(), "Unsupported chain_id: 137");
}

#[test]
fn token_contracts_per_chain() {
    let mainnet = get_token_contracts(1);
    assert_eq!(mainnet.len(), 3);
    assert_eq!(mainnet[0].0, "USDC");
    assert_eq!(mainnet[0].1, "0xA0b86991c6218b36c1d19D4a2e9Eb0cE3606eB48");
    assert_eq!(mainnet[2].0, "WBTC");
    let sepolia = get_token_contracts(11155111);
    assert_eq!(sepolia[2].0, "SepoliaMNT");
    let arbitrum = get_token_contracts(42161);
    assert_eq!(arbitrum.len(), 2);
    assert_eq!(arbitrum[1].1, "0x912CE59144191C1204E64559FE8253a0e49E6548");
    assert!(get_token_contracts(421614).is_empty());
}

#[test]
fn native_symbol_is_eth_everywhere() {
    assert_eq!(get_native_symbol(1), "ETH");
    assert_eq!(get_native_symbol(42161), "ETH");
    assert_eq!(get_native_symbol(999), "ETH");
}

#[test]
fn encode_balance_of_pads_the_address() {
    let address = "0x7e5f4552091a69125d5dfcb7b8c2659029395bdf";
    assert_eq!(
        encode_balance_of(address).unwrap(),
        "0x70a082310000000000000000000000007e5f4552091a69125d5dfcb7b8c2659029395bdf"
    );
    assert_eq!(
        encode_balance_of("7e5f4552091a69125d5dfcb7b8c2659029395bdf").unwrap(),
        encode_balance_of(address).unwrap()
    );
}

#[test]
fn encode_balance_of_strips_repeated_prefixes() {
    assert_eq!(
        encode_balance_of("0x0x7e5f4552091a69125d5dfcb7b8c2659029395bdf").unwrap(),
        "0x70a082310000000000000000000000007e5f4552091a69125d5dfcb7b8c2659029395bdf"
    );
}

#[test]
fn encode_balance_of_rejects_wrong_length() {
    assert_eq!(encode_balance_of("0xabc").unwrap_err(), "Invalid address length: 3");
    assert_eq!(encode_balance_of("").unwrap_err(), "Invalid address length: 0");
}

#[test]
fn parse_recipient_reads_hex() {
    let to = parse_recipient("0x4545454545454545454545454545454545454545").unwrap();
    assert_eq!(to, [0x45u8; 20]);
    let upper = parse_recipient("ABABABABABABABABABABABABABABABABABABABAB").unwrap();
    assert_eq!(upper, [0xabu8; 20]);
}

#[test]
fn parse_recipient_errors() {
    assert_eq!(
        parse_recipient("0xzz45454545454545454545454545454545454545").unwrap_err(),
        "Invalid to address: Invalid character 'z' at position 0"
    );
    assert_eq!(
        parse_recipient("0x454").unwrap_err(),
        "Invalid to address: Odd number of digits"
    );
    assert_eq!(
        parse_recipient("0x4545").unwrap_err(),
        "Invalid address length: expected 20 bytes, got 2"
    );
}

fn transfer_args() -> TransferEvmArgs {
    TransferEvmArgs {
        wallet_id: "w".to_string(),
        to: "0x4545454545454545454545454545454545454545".to_string(),
        value: 1000,
        chain_id: 1,
        gas_price: 20_000_000_000,
        gas_limit: 21000,
    }
}

#[test]
fn unsigned_transaction_fields_and_digest() {
    let args = transfer_args();
    let (tx, digest) = unsigned_transaction(&args, [0x45u8; 20], 5);
    assert_eq!(tx.chain, 1);
    assert_eq!(tx.nonce, 5);
    assert_eq!(tx.to, Some([0x45u8; 20]));
    assert_eq!(tx.value, 1000);
    assert_eq!(tx.gas_price, 20_000_000_000);
    assert_eq!(tx.gas, 21000);
    assert!(tx.data.is_empty());
    assert_eq!(
        digest.to_vec(),
        unhex("1c46fe375c978bb65ba4ea3e33d37099327569f1b641fb58215e34cb2a0b016c")
    );
}

#[test]
fn signed_transaction_uses_eip155_v() {
    let (tx, _) = unsigned_transaction(&transfer_args(), [0x45u8; 20], 5);
    let mut signature = vec![1u8; 32];
    signature.extend(vec![2u8; 32]);
    signature.push(1);
    let raw = signed_transaction_bytes(&tx, &signature).unwrap();
    assert_eq!(
        raw,
        unhex(
            "f866058504a817c8008252089445454545454545454545454545454545454545458203e88026\
             a00101010101010101010101010101010101010101010101010101010101010101\
             a00202020202020202020202020202020202020202020202020202020202020202"
        )
    );
}

#[test]
fn signed_transaction_rejects_short_signature() {
    let (tx, _) = unsigned_transaction(&transfer_args(), [0x45u8; 20], 5);
    assert_eq!(
        signed_transaction_bytes(&tx, &[1u8; 64]).unwrap_err(),
        "Invalid signature length"
    );
}

#[test]
fn raw_transaction_hex_text() {
    assert_eq!(raw_transaction_hex(&[0xf8, 0x01, 0xab]), "0xf801ab");
    assert_eq!(raw_transaction_hex(&[]), "0x");
}

#[test]
fn send_transaction_request_for_supported_chain() {
    let request = send_transaction_request(&[0xde, 0xad], 11155111).unwrap();
    assert_eq!(request.raw_hex, "0xdead");
    assert_eq!(request.config.response_size_estimate, Some(1000));
    assert!(matches!(request.services, RpcServices::EthSepolia(Some(_))));
    assert_eq!(
        send_transaction_request(&[0xde, 0xad], 7).unwrap_err(),
        "Unsupported chain_id: 7"
    );
}

#[test]
fn transaction_count_request_reads_latest_block() {
    let request = transaction_count_request("0xabc".to_string(), 42161).unwrap();
    assert_eq!(request.address, "0xabc");
    assert_eq!(request.block, BlockTag::Latest);
    assert!(matches!(request.services, RpcServices::ArbitrumOne(Some(_))));
    assert!(transaction_count_request("0xabc".to_string(), 2).is_err());
}

#[test]
fn transaction_count_replies() {
    assert_eq!(transaction_count_from_reply(TransactionCountReply::Count(Some(9))), Ok(9));
    assert_eq!(
        transaction_count_from_reply(TransactionCountReply::Count(None)).unwrap_err(),
        "Nonce too large for u64"
    );
    assert_eq!(
        transaction_count_from_reply(TransactionCountReply::RpcError("X".to_string())).unwrap_err(),
        "RPC error: X"
    );
    assert_eq!(
        transaction_count_from_reply(TransactionCountReply::Inconsistent("[..]".to_string()))
            .unwrap_err(),
        "Inconsistent results: [..]"
    );
}

#[test]
fn fixed_messages() {
    assert_eq!(nonce_failure_message("timeout"), "Failed to get nonce: timeout");
    assert_eq!(transaction_sent_message(), "Transaction sent successfully");
}

#[test]
fn recipient_reads_the_same_with_or_without_prefix() {
    assert_eq!(
        parse_recipient("0x0x4545454545454545454545454545454545454545"),
        parse_recipient("4545454545454545454545454545454545454545")
    );
    assert_eq!(
        parse_recipient("0xabcd").unwrap_err(),
        parse_recipient("abcd").unwrap_err()
    );
}

#[test]
fn nonce_plan_uses_given_nonce_or_fetches() {
    assert_eq!(nonce_plan(Some(4), 1), NoncePlan::Use(4));
    assert_eq!(nonce_plan(None, 42161), NoncePlan::Fetch { chain_id: 42161 });
}
