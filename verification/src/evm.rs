//! EVM chains: the RPC providers of each supported chain, its known tokens,
//! call data for ERC-20 balance queries, and the assembly of signed legacy
//! transactions.

use vstd::prelude::*;
use vstd::utf8::encode_utf8;
use crate::text::{decimal, push_str, push_chars, push_decimal, string_from_chars, chars_of};
use crate::hexcodec::{hex_decode, hex_decode_spec, hex_error_message, hex_error_text, hex_encode, hex_lower, lemma_hex_round_trip, lemma_hex_lower_shape, lemma_nibble_char};
use vstd::utf8::{is_ascii_chars, is_ascii_chars_encode_utf8};
use ethereum_tx_sign::Transaction;

verus! {

/// Chain id of Ethereum mainnet.
pub const ETH_MAINNET_CHAIN_ID: u64 = 1;

/// Chain id of the Sepolia test network.
pub const SEPOLIA_CHAIN_ID: u64 = 11155111;

/// Chain id of Arbitrum One.
pub const ARBITRUM_ONE_CHAIN_ID: u64 = 42161;

/// Chain id of the Arbitrum Sepolia test network.
pub const ARBITRUM_SEPOLIA_CHAIN_ID: u64 = 421614;

/// Providers of Ethereum mainnet known to the EVM RPC canister.
#[derive(Clone, Copy, Debug, PartialEq, Eq, Structural)]
pub enum EthMainnetService {
    Alchemy,
    Ankr,
    BlockPi,
    PublicNode,
    Cloudflare,
    Llama,
}

/// Providers of the Sepolia test network known to the EVM RPC canister.
#[derive(Clone, Copy, Debug, PartialEq, Eq, Structural)]
pub enum EthSepoliaService {
    Alchemy,
    Ankr,
    BlockPi,
    PublicNode,
    Sepolia,
}

/// Providers of layer-2 mainnets known to the EVM RPC canister.
#[derive(Clone, Copy, Debug, PartialEq, Eq, Structural)]
pub enum L2MainnetService {
    Alchemy,
    Ankr,
    BlockPi,
    PublicNode,
    Llama,
}

/// An HTTP header sent to a custom RPC endpoint.
#[derive(Clone, Debug)]
pub struct HttpHeader {
    pub name: String,
    pub value: String,
}

/// A custom JSON-RPC endpoint.
#[derive(Clone, Debug)]
pub struct RpcApi {
    pub url: String,
    pub headers: Option<Vec<HttpHeader>>,
}

/// One RPC provider.
#[derive(Clone, Debug)]
pub enum RpcService {
    EthMainnet(EthMainnetService),
    EthSepolia(EthSepoliaService),
    ArbitrumOne(L2MainnetService),
    Custom(RpcApi),
}

/// A set of RPC providers of one chain.
#[derive(Clone, Debug)]
pub enum RpcServices {
    EthMainnet(Option<Vec<EthMainnetService>>),
    EthSepolia(Option<Vec<EthSepoliaService>>),
    ArbitrumOne(Option<Vec<L2MainnetService>>),
    Custom { chain_id: u64, services: Vec<RpcApi> },
}

/// The chains that have RPC providers here.
pub open spec fn chain_supported(chain_id: u64) -> bool {
    chain_id == ETH_MAINNET_CHAIN_ID || chain_id == SEPOLIA_CHAIN_ID || chain_id
        == ARBITRUM_ONE_CHAIN_ID || chain_id == ARBITRUM_SEPOLIA_CHAIN_ID
}

/// The public endpoint of Arbitrum Sepolia.
pub open spec fn arbitrum_sepolia_url() -> Seq<char> {
    "https://sepolia-rollup.arbitrum.io/rpc"@
}

fn arbitrum_sepolia_api() -> (res: RpcApi)
    ensures
        res.url@ == arbitrum_sepolia_url(),
        res.headers is None,
{
    RpcApi { url: String::from_str("https://sepolia-rollup.arbitrum.io/rpc"), headers: None }
}

/// The message for a chain without providers, with the given lead text.
fn unsupported_chain_message(lead: &str, chain_id: u64) -> (res: String)
    ensures
        res@ == lead@ + decimal(chain_id as nat),
{
    let mut out: Vec<char> = Vec::new();
    push_str(&mut out, lead);
    push_decimal(&mut out, chain_id);
    string_from_chars(&out)
}

/// `s` is the single RPC provider used for raw JSON-RPC requests on
/// `chain_id`: the public node of each supported chain, or the public
/// Arbitrum Sepolia endpoint.
pub open spec fn is_rpc_service_of(chain_id: u64, s: RpcService) -> bool {
    if chain_id == ETH_MAINNET_CHAIN_ID {
        s == RpcService::EthMainnet(EthMainnetService::PublicNode)
    } else if chain_id == SEPOLIA_CHAIN_ID {
        s == RpcService::EthSepolia(EthSepoliaService::PublicNode)
    } else if chain_id == ARBITRUM_ONE_CHAIN_ID {
        s == RpcService::ArbitrumOne(L2MainnetService::PublicNode)
    } else if chain_id == ARBITRUM_SEPOLIA_CHAIN_ID {
        &&& s matches RpcService::Custom(api)
        &&& api.url@ == arbitrum_sepolia_url()
        &&& api.headers is None
    } else {
        false
    }
}

/// `s` is the set of RPC providers used for the typed calls on `chain_id`:
/// the public node of each supported chain, or the public Arbitrum Sepolia
/// endpoint under its chain id.
pub open spec fn is_rpc_services_of(chain_id: u64, s: RpcServices) -> bool {
    if chain_id == ETH_MAINNET_CHAIN_ID {
        s matches RpcServices::EthMainnet(Some(v)) && v@ == seq![EthMainnetService::PublicNode]
    } else if chain_id == SEPOLIA_CHAIN_ID {
        s matches RpcServices::EthSepolia(Some(v)) && v@ == seq![EthSepoliaService::PublicNode]
    } else if chain_id == ARBITRUM_ONE_CHAIN_ID {
        s matches RpcServices::ArbitrumOne(Some(v)) && v@ == seq![L2MainnetService::PublicNode]
    } else if chain_id == ARBITRUM_SEPOLIA_CHAIN_ID {
        &&& s matches RpcServices::Custom { chain_id: c, services }
        &&& c == chain_id
        &&& services@.len() == 1
        &&& services@[0].url@ == arbitrum_sepolia_url()
        &&& services@[0].headers is None
    } else {
        false
    }
}

/// The RPC provider for raw JSON-RPC requests on a chain; a chain without one
/// fails with `Unsupported chain: <id>`.
pub fn get_rpc_service(chain_id: u64) -> (res: Result<RpcService, String>)
    ensures
        res matches Ok(s) ==> chain_supported(chain_id) && is_rpc_service_of(chain_id, s),
        res matches Err(e) ==> !chain_supported(chain_id) && e@ == "Unsupported chain: "@ + decimal(
            chain_id as nat,
        ),
{
    if chain_id == ETH_MAINNET_CHAIN_ID {
        Ok(RpcService::EthMainnet(EthMainnetService::PublicNode))
    } else if chain_id == SEPOLIA_CHAIN_ID {
        Ok(RpcService::EthSepolia(EthSepoliaService::PublicNode))
    } else if chain_id == ARBITRUM_ONE_CHAIN_ID {
        Ok(RpcService::ArbitrumOne(L2MainnetService::PublicNode))
    } else if chain_id == ARBITRUM_SEPOLIA_CHAIN_ID {
        Ok(RpcService::Custom(arbitrum_sepolia_api()))
    } else {
        Err(unsupported_chain_message("Unsupported chain: ", chain_id))
    }
}

/// The RPC providers for the typed calls on a chain; a chain without them
/// fails with `Unsupported chain_id: <id>`.
pub fn get_rpc_services(chain_id: u64) -> (res: Result<RpcServices, String>)
    ensures
        res matches Ok(s) ==> chain_supported(chain_id) && is_rpc_services_of(chain_id, s),
        res matches Err(e) ==> !chain_supported(chain_id) && e@ == "Unsupported chain_id: "@
            + decimal(chain_id as nat),
{
    if chain_id == ETH_MAINNET_CHAIN_ID {
        let v = vec![EthMainnetService::PublicNode];
        assert(v@ =~= seq![EthMainnetService::PublicNode]);
        Ok(RpcServices::EthMainnet(Some(v)))
    } else if chain_id == SEPOLIA_CHAIN_ID {
        let v = vec![EthSepoliaService::PublicNode];
        assert(v@ =~= seq![EthSepoliaService::PublicNode]);
        Ok(RpcServices::EthSepolia(Some(v)))
    } else if chain_id == ARBITRUM_ONE_CHAIN_ID {
        let v = vec![L2MainnetService::PublicNode];
        assert(v@ =~= seq![L2MainnetService::PublicNode]);
        Ok(RpcServices::ArbitrumOne(Some(v)))
    } else if chain_id == ARBITRUM_SEPOLIA_CHAIN_ID {
        let services = vec![arbitrum_sepolia_api()];
        assert(services@.len() == 1);
        Ok(RpcServices::Custom { chain_id, services })
    } else {
        Err(unsupported_chain_message("Unsupported chain_id: ", chain_id))
    }
}

/// Options of a typed call to the EVM RPC canister.
#[derive(Clone, Copy, Debug, PartialEq, Eq, Structural)]
pub struct RpcConfig {
    pub response_size_estimate: Option<u64>,
}

/// The options of every typed call here: a response estimate of 1000 bytes.
pub open spec fn standard_rpc_config() -> RpcConfig {
    RpcConfig { response_size_estimate: Some(1000) }
}

/// The block that a query reads.
#[derive(Clone, Copy, Debug, PartialEq, Eq, Structural)]
pub enum BlockTag {
    Earliest,
    Safe,
    Finalized,
    Latest,
    Pending,
}

/// The `eth_sendRawTransaction` call for a signed transaction.
#[derive(Clone, Debug)]
pub struct SendRawTransactionRequest {
    pub services: RpcServices,
    pub config: RpcConfig,
    pub raw_hex: String,
}

/// Prepares `eth_sendRawTransaction` for a signed transaction on a chain: its
/// `0x`-prefixed hexadecimal text, the chain's providers, the standard options.
pub fn send_transaction_request(raw_tx: &[u8], chain_id: u64) -> (res: Result<SendRawTransactionRequest, String>)
    ensures
        res matches Ok(r) ==> chain_supported(chain_id) && is_rpc_services_of(chain_id, r.services)
            && r.config == standard_rpc_config() && r.raw_hex@ == "0x"@ + hex_lower(raw_tx@),
        res matches Err(e) ==> !chain_supported(chain_id) && e@ == "Unsupported chain_id: "@
            + decimal(chain_id as nat),
{
    let raw_hex = raw_transaction_hex(raw_tx);
    let services = get_rpc_services(chain_id)?;
    Ok(SendRawTransactionRequest { services, config: RpcConfig { response_size_estimate: Some(1000) }, raw_hex })
}

/// The `eth_getTransactionCount` call for an address.
#[derive(Clone, Debug)]
pub struct TransactionCountRequest {
    pub services: RpcServices,
    pub config: RpcConfig,
    pub address: String,
    pub block: BlockTag,
}

/// Prepares `eth_getTransactionCount` for `address` at the latest block.
pub fn transaction_count_request(address: String, chain_id: u64) -> (res: Result<TransactionCountRequest, String>)
    ensures
        res matches Ok(r) ==> chain_supported(chain_id) && is_rpc_services_of(chain_id, r.services)
            && r.config == standard_rpc_config() && r.address@ == address@ && r.block == BlockTag::Latest,
        res matches Err(e) ==> !chain_supported(chain_id) && e@ == "Unsupported chain_id: "@
            + decimal(chain_id as nat),
{
    let services = get_rpc_services(chain_id)?;
    Ok(TransactionCountRequest { services, config: RpcConfig { response_size_estimate: Some(1000) }, address, block: BlockTag::Latest })
}

/// What the EVM RPC canister answered to `eth_getTransactionCount`: agreeing
/// providers with a count (`None` where it exceeds 64 bits), agreeing
/// providers with an error, or disagreeing providers; errors as debug text.
#[derive(Clone, Debug)]
pub enum TransactionCountReply {
    Count(Option<u64>),
    RpcError(String),
    Inconsistent(String),
}

/// The nonce that a transaction-count reply gives, or why there is none.
pub open spec fn transaction_count_result(reply: TransactionCountReply) -> Result<u64, Seq<char>> {
    match reply {
        TransactionCountReply::Count(Some(n)) => Ok(n),
        TransactionCountReply::Count(None) => Err("Nonce too large for u64"@),
        TransactionCountReply::RpcError(d) => Err("RPC error: "@ + d@),
        TransactionCountReply::Inconsistent(d) => Err("Inconsistent results: "@ + d@),
    }
}

fn prefixed(lead: &str, rest: &str) -> (res: String)
    ensures
        res@ == lead@ + rest@,
{
    let mut out: Vec<char> = Vec::new();
    push_str(&mut out, lead);
    push_str(&mut out, rest);
    string_from_chars(&out)
}

/// Reads the nonce out of a transaction-count reply.
pub fn transaction_count_from_reply(reply: TransactionCountReply) -> (res: Result<u64, String>)
    ensures
        res matches Ok(n) ==> transaction_count_result(reply) == Ok::<u64, Seq<char>>(n),
        res matches Err(e) ==> transaction_count_result(reply) == Err::<u64, Seq<char>>(e@),
{
    proof {
        reveal_strlit("Nonce too large for u64");
        reveal_strlit("RPC error: ");
        reveal_strlit("Inconsistent results: ");
    }
    match reply {
        TransactionCountReply::Count(Some(n)) => Ok(n),
        TransactionCountReply::Count(None) => Err(String::from_str("Nonce too large for u64")),
        TransactionCountReply::RpcError(d) => Err(prefixed("RPC error: ", d.as_str())),
        TransactionCountReply::Inconsistent(d) => Err(prefixed("Inconsistent results: ", d.as_str())),
    }
}

/// Where the nonce of a transfer comes from.
#[derive(Clone, Copy, Debug, PartialEq, Eq, Structural)]
pub enum NoncePlan {
    /// Use the nonce that the caller gave.
    Use(u64),
    /// Fetch the transaction count of the wallet's address on `chain_id`.
    Fetch { chain_id: u64 },
}

/// A given nonce is used as it is; without one, the transaction count on
/// the transfer's chain is fetched.
pub fn nonce_plan(nonce: Option<u64>, chain_id: u64) -> (res: NoncePlan)
    ensures
        nonce matches Some(n) ==> res == NoncePlan::Use(n),
        nonce is None ==> res == (NoncePlan::Fetch { chain_id }),
{
    match nonce {
        Some(n) => NoncePlan::Use(n),
        None => NoncePlan::Fetch { chain_id },
    }
}

/// The message of a failed nonce lookup.
pub fn nonce_failure_message(e: &str) -> (res: String)
    ensures
        res@ == "Failed to get nonce: "@ + e@,
{
    prefixed("Failed to get nonce: ", e)
}

/// The answer of a raw transaction that the RPC canister accepted.
pub fn transaction_sent_message() -> (res: String)
    ensures
        res@ == "Transaction sent successfully"@,
{
    String::from_str("Transaction sent successfully")
}

/// The symbol of a chain's native currency: every chain here pays in ETH.
pub fn get_native_symbol(chain_id: u64) -> (res: String)
    ensures
        res@ == "ETH"@,
{
    String::from_str("ETH")
}

/// The ERC-20 tokens known on a chain, as (symbol, contract address) pairs.
pub open spec fn token_contracts(chain_id: u64) -> Seq<(Seq<char>, Seq<char>)> {
    if chain_id == ETH_MAINNET_CHAIN_ID {
        seq![
            ("USDC"@, "0xA0b86991c6218b36c1d19D4a2e9Eb0cE3606eB48"@),
            ("USDT"@, "0xdAC17F958D2ee523a2206206994597C13D831ec7"@),
            ("WBTC"@, "0x2260FAC5E5542a773Aa44fBCfeDf7C193bc2C599"@),
        ]
    } else if chain_id == SEPOLIA_CHAIN_ID {
        seq![
            ("USDC"@, "0xba1FCc7a596140e5feC52B3aB80a8F000C9Af104"@),
            ("LINK"@, "0x779877A7B0D9E8603169DdbD7836e478b4624789"@),
            ("SepoliaMNT"@, "0x65e37B558F64E2Be5768DB46DF22F93d85741A9E"@),
        ]
    } else if chain_id == ARBITRUM_ONE_CHAIN_ID {
        seq![
            ("USDC"@, "0xaf88d065e77c8cC2239327C5EDb3A432268e5831"@),
            ("ARB"@, "0x912CE59144191C1204E64559FE8253a0e49E6548"@),
        ]
    } else {
        seq![]
    }
}

/// The (symbol, contract) pairs held in a vector, as text.
pub open spec fn pair_texts(v: Seq<(String, String)>) -> Seq<(Seq<char>, Seq<char>)> {
    v.map_values(|p: (String, String)| (p.0@, p.1@))
}

fn token_pair(symbol: &str, contract: &str) -> (res: (String, String))
    ensures
        res.0@ == symbol@,
        res.1@ == contract@,
{
    (String::from_str(symbol), String::from_str(contract))
}

/// The ERC-20 tokens known on a chain: three on Ethereum mainnet and on
/// Sepolia, two on Arbitrum One, none elsewhere.
pub fn get_token_contracts(chain_id: u64) -> (res: Vec<(String, String)>)
    ensures
        pair_texts(res@) == token_contracts(chain_id),
{
    if chain_id == ETH_MAINNET_CHAIN_ID {
        let v = vec![
            token_pair("USDC", "0xA0b86991c6218b36c1d19D4a2e9Eb0cE3606eB48"),
            token_pair("USDT", "0xdAC17F958D2ee523a2206206994597C13D831ec7"),
            token_pair("WBTC", "0x2260FAC5E5542a773Aa44fBCfeDf7C193bc2C599"),
        ];
        assert(pair_texts(v@) =~= token_contracts(chain_id));
        v
    } else if chain_id == SEPOLIA_CHAIN_ID {
        let v = vec![
            token_pair("USDC", "0xba1FCc7a596140e5feC52B3aB80a8F000C9Af104"),
            token_pair("LINK", "0x779877A7B0D9E8603169DdbD7836e478b4624789"),
            token_pair("SepoliaMNT", "0x65e37B558F64E2Be5768DB46DF22F93d85741A9E"),
        ];
        assert(pair_texts(v@) =~= token_contracts(chain_id));
        v
    } else if chain_id == ARBITRUM_ONE_CHAIN_ID {
        let v = vec![
            token_pair("USDC", "0xaf88d065e77c8cC2239327C5EDb3A432268e5831"),
            token_pair("ARB", "0x912CE59144191C1204E64559FE8253a0e49E6548"),
        ];
        assert(pair_texts(v@) =~= token_contracts(chain_id));
        v
    } else {
        let v: Vec<(String, String)> = Vec::new();
        assert(pair_texts(v@) =~= token_contracts(chain_id));
        v
    }
}

/// The text left after removing every leading `0x` in turn.
pub open spec fn strip_hex_prefix(s: Seq<char>) -> Seq<char>
    decreases s.len(),
{
    if s.len() >= 2 && s[0] == '0' && s[1] == 'x' {
        strip_hex_prefix(s.subrange(2, s.len() as int))
    } else {
        s
    }
}

/// Removes every leading `0x` in turn.
pub fn strip_hex_prefix_chars(cs: &Vec<char>) -> (res: Vec<char>)
    ensures
        res@ == strip_hex_prefix(cs@),
{
    let n = cs.len();
    let mut i: usize = 0;
    assert(cs@.subrange(0, n as int) =~= cs@);
    while i < n && n - i >= 2 && cs[i] == '0' && cs[i + 1] == 'x'
        invariant
            n == cs@.len(),
            i <= n,
            strip_hex_prefix(cs@) == strip_hex_prefix(cs@.subrange(i as int, n as int)),
        decreases n - i,
    {
        let ghost rest = cs@.subrange(i as int, n as int);
        assert(rest.subrange(2, rest.len() as int) =~= cs@.subrange(i + 2, n as int));
        i = i + 2;
    }
    assert(strip_hex_prefix(cs@.subrange(i as int, n as int)) == cs@.subrange(i as int, n as int));
    let mut out: Vec<char> = Vec::new();
    let mut j: usize = i;
    while j < n
        invariant
            n == cs@.len(),
            i <= j <= n,
            out@ == cs@.subrange(i as int, j as int),
        decreases n - j,
    {
        out.push(cs[j]);
        j = j + 1;
        assert(out@ =~= cs@.subrange(i as int, j as int));
    }
    out
}

/// The length in bytes of a text (`str::len`).
pub open spec fn byte_len(s: Seq<char>) -> usize {
    encode_utf8(s).len() as usize
}

/// The number of `0` characters that right-align a text of `len` characters
/// in a field of sixty-four.
pub open spec fn pad_width(len: nat) -> nat {
    if len < 64 {
        (64 - len) as nat
    } else {
        0
    }
}

/// The call data of `balanceOf(address)`: selector `70a08231`, then the
/// address (without `0x`) left-padded with zeros to sixty-four characters;
/// an address whose text without `0x` is not forty bytes long fails.
pub open spec fn balance_of_call_data(address: Seq<char>) -> Result<Seq<char>, Seq<char>> {
    let clean = strip_hex_prefix(address);
    if byte_len(clean) != 40 {
        Err("Invalid address length: "@ + decimal(byte_len(clean) as nat))
    } else {
        Ok("0x70a08231"@ + Seq::new(pad_width(clean.len()), |i: int| '0') + clean)
    }
}

/// Encodes the call data of an ERC-20 `balanceOf` query for `address`.
pub fn encode_balance_of(address: &str) -> (res: Result<String, String>)
    ensures
        res matches Ok(s) ==> balance_of_call_data(address@) == Ok::<Seq<char>, Seq<char>>(s@),
        res matches Err(e) ==> balance_of_call_data(address@) == Err::<Seq<char>, Seq<char>>(e@),
{
    let cs = chars_of(address);
    let clean = strip_hex_prefix_chars(&cs);
    let clean_text = string_from_chars(&clean);
    let len = clean_text.as_str().len();
    if len != 40 {
        let mut out: Vec<char> = Vec::new();
        push_str(&mut out, "Invalid address length: ");
        push_decimal(&mut out, len as u64);
        proof {
            reveal_strlit("Invalid address length: ");
        }
        return Err(string_from_chars(&out));
    }
    let mut out: Vec<char> = Vec::new();
    push_str(&mut out, "0x70a08231");
    let ghost head = out@;
    let pad: usize = if clean.len() < 64 { 64 - clean.len() } else { 0 };
    let mut k: usize = 0;
    while k < pad
        invariant
            k <= pad,
            out@ == head + Seq::new(k as nat, |i: int| '0'),
        decreases pad - k,
    {
        out.push('0');
        k = k + 1;
        assert(out@ =~= head + Seq::new(k as nat, |i: int| '0'));
    }
    push_chars(&mut out, &clean);
    proof {
        reveal_strlit("0x70a08231");
    }
    assert(out@ =~= "0x70a08231"@ + Seq::new(pad_width(clean@.len()), |i: int| '0') + clean@);
    Ok(string_from_chars(&out))
}

/// What a wallet asks for when it sends native currency on an EVM chain.
#[derive(Clone, Debug)]
pub struct TransferEvmArgs {
    pub wallet_id: String,
    pub to: String,
    pub value: u128,
    pub chain_id: u64,
    pub gas_price: u128,
    pub gas_limit: u64,
}

/// The twenty address bytes that a recipient text stands for: its text
/// without leading `0x`, read as hexadecimal; a text that is no hexadecimal,
/// or that is not twenty bytes long, fails.
pub open spec fn recipient_address(to: Seq<char>) -> Result<Seq<u8>, Seq<char>> {
    match hex_decode_spec(encode_utf8(strip_hex_prefix(to))) {
        Err(e) => Err("Invalid to address: "@ + hex_error_text(e)),
        Ok(bytes) => if bytes.len() != 20 {
            Err("Invalid address length: expected 20 bytes, got "@ + decimal(bytes.len()))
        } else {
            Ok(bytes)
        },
    }
}

/// Reads the recipient of a transfer: hexadecimal text, with or without `0x`.
pub fn parse_recipient(to: &str) -> (res: Result<[u8; 20], String>)
    ensures
        res matches Ok(a) ==> recipient_address(to@) == Ok::<Seq<u8>, Seq<char>>(a@),
        res matches Err(e) ==> recipient_address(to@) == Err::<Seq<u8>, Seq<char>>(e@),
{
    let cs = chars_of(to);
    let clean = strip_hex_prefix_chars(&cs);
    let clean_text = string_from_chars(&clean);
    let bytes = clean_text.as_str().as_bytes();
    match hex_decode(bytes) {
        Err(e) => {
            let mut out: Vec<char> = Vec::new();
            push_str(&mut out, "Invalid to address: ");
            let m = hex_error_message(&e);
            push_str(&mut out, m.as_str());
            proof {
                reveal_strlit("Invalid to address: ");
            }
            Err(string_from_chars(&out))
        },
        Ok(v) => {
            if v.len() != 20 {
                let mut out: Vec<char> = Vec::new();
                push_str(&mut out, "Invalid address length: expected 20 bytes, got ");
                push_decimal(&mut out, v.len() as u64);
                proof {
                    reveal_strlit("Invalid address length: expected 20 bytes, got ");
                }
                Err(string_from_chars(&out))
            } else {
                let mut address = [0u8; 20];
                let mut i: usize = 0;
                while i < 20
                    invariant
                        i <= 20,
                        v@.len() == 20,
                        forall|j: int| 0 <= j < i ==> address@[j] == v@[j],
                    decreases 20 - i,
                {
                    address[i] = v[i];
                    i = i + 1;
                }
                assert(address@ =~= v@);
                Ok(address)
            }
        },
    }
}

/// A legacy (pre-EIP-2718) Ethereum transaction, protected against replay
/// by its chain id (EIP-155).
#[derive(Clone, Debug)]
pub struct LegacyTx {
    pub chain: u64,
    pub nonce: u128,
    pub to: Option<[u8; 20]>,
    pub value: u128,
    pub gas_price: u128,
    pub gas: u128,
    pub data: Vec<u8>,
}

/// The signing hash of a legacy transaction with the given fields.
pub uninterp spec fn legacy_tx_hash(
    chain: u64,
    nonce: u128,
    to: Option<[u8; 20]>,
    value: u128,
    gas_price: u128,
    gas: u128,
    data: Seq<u8>,
) -> Seq<u8>;

/// The signed encoding of a legacy transaction with the given fields and
/// signature values.
pub uninterp spec fn legacy_tx_signed(
    chain: u64,
    nonce: u128,
    to: Option<[u8; 20]>,
    value: u128,
    gas_price: u128,
    gas: u128,
    data: Seq<u8>,
    v: u64,
    r: Seq<u8>,
    s: Seq<u8>,
) -> Seq<u8>;

/// `ethereum_tx_sign::LegacyTransaction::hash` (the `Transaction` trait's
/// method) on a transaction with the same fields: a function of the fields alone.
#[verifier::external_body]
fn legacy_transaction_hash(tx: &LegacyTx) -> (res: [u8; 32])
    ensures
        res@ == legacy_tx_hash(tx.chain, tx.nonce, tx.to, tx.value, tx.gas_price, tx.gas, tx.data@),
{
    let t = ethereum_tx_sign::LegacyTransaction {
        chain: tx.chain,
        nonce: tx.nonce,
        to: tx.to,
        value: tx.value,
        gas_price: tx.gas_price,
        gas: tx.gas,
        data: tx.data.clone(),
    };
    t.hash()
}

/// Some byte of `bytes` is not zero.
pub open spec fn has_nonzero(bytes: Seq<u8>) -> bool {
    exists|i: int| 0 <= i < bytes.len() && bytes[i] != 0
}

/// `ethereum_tx_sign::LegacyTransaction::sign` with `EcdsaSig { v, r, s }`:
/// a function of the fields and the signature values alone. The source strips
/// leading zero bytes of `r` and `s` with a loop that indexes past the end when
/// one of them holds no other byte, so `requires` leaves that out.
#[verifier::external_body]
fn legacy_transaction_sign(tx: &LegacyTx, v: u64, r: &[u8], s: &[u8]) -> (res: Vec<u8>)
    requires
        has_nonzero(r@),
        has_nonzero(s@),
    ensures
        res@ == legacy_tx_signed(
            tx.chain,
            tx.nonce,
            tx.to,
            tx.value,
            tx.gas_price,
            tx.gas,
            tx.data@,
            v,
            r@,
            s@,
        ),
{
    let t = ethereum_tx_sign::LegacyTransaction {
        chain: tx.chain,
        nonce: tx.nonce,
        to: tx.to,
        value: tx.value,
        gas_price: tx.gas_price,
        gas: tx.gas,
        data: tx.data.clone(),
    };
    t.sign(&ethereum_tx_sign::EcdsaSig { v, r: r.to_vec(), s: s.to_vec() })
}

/// The unsigned transfer of `args` to `to` with `nonce`, and the hash to sign:
/// no call data, gas limit and price, value and chain as asked.
pub fn unsigned_transaction(args: &TransferEvmArgs, to: [u8; 20], nonce: u64) -> (res: (LegacyTx, [u8; 32]))
    ensures
        res.0.chain == args.chain_id,
        res.0.nonce == nonce,
        res.0.to == Some(to),
        res.0.value == args.value,
        res.0.gas_price == args.gas_price,
        res.0.gas == args.gas_limit,
        res.0.data@.len() == 0,
        res.1@ == legacy_tx_hash(
            res.0.chain,
            res.0.nonce,
            res.0.to,
            res.0.value,
            res.0.gas_price,
            res.0.gas,
            res.0.data@,
        ),
{
    let tx = LegacyTx {
        chain: args.chain_id,
        nonce: nonce as u128,
        to: Some(to),
        value: args.value,
        gas_price: args.gas_price,
        gas: args.gas_limit as u128,
        data: Vec::new(),
    };
    let digest = legacy_transaction_hash(&tx);
    (tx, digest)
}

/// The EIP-155 `v` of a signature with recovery id `recovery_id` on `chain`.
pub open spec fn eip155_v(recovery_id: u8, chain: u64) -> int {
    recovery_id + 35 + chain * 2
}

/// A 65-byte signature (`r`, `s`, recovery id) that the signer can encode:
/// `v` fits in 64 bits, and neither `r` nor `s` is all zeros.
pub open spec fn encodable_signature(signature: Seq<u8>, chain: u64) -> bool {
    &&& eip155_v(signature[64], chain) <= u64::MAX
    &&& has_nonzero(signature.subrange(0, 32))
    &&& has_nonzero(signature.subrange(32, 64))
}

/// The signed transaction: fewer than 65 signature bytes fail; otherwise `r`
/// is bytes 0..32, `s` bytes 32..64, and `v` the EIP-155 value of byte 64.
pub open spec fn signed_transaction(tx: LegacyTx, signature: Seq<u8>) -> Result<Seq<u8>, Seq<char>> {
    if signature.len() < 65 {
        Err("Invalid signature length"@)
    } else {
        Ok(
            legacy_tx_signed(
                tx.chain,
                tx.nonce,
                tx.to,
                tx.value,
                tx.gas_price,
                tx.gas,
                tx.data@,
                eip155_v(signature[64], tx.chain) as u64,
                signature.subrange(0, 32),
                signature.subrange(32, 64),
            ),
        )
    }
}

/// Encodes `tx` with the signature that the threshold signer returned.
pub fn signed_transaction_bytes(tx: &LegacyTx, signature: &[u8]) -> (res: Result<Vec<u8>, String>)
    requires
        signature@.len() >= 65 ==> encodable_signature(signature@, tx.chain),
    ensures
        res matches Ok(b) ==> signed_transaction(*tx, signature@) == Ok::<Seq<u8>, Seq<char>>(b@),
        res matches Err(e) ==> signed_transaction(*tx, signature@) == Err::<Seq<u8>, Seq<char>>(e@),
{
    if signature.len() < 65 {
        proof {
            reveal_strlit("Invalid signature length");
        }
        return Err(String::from_str("Invalid signature length"));
    }
    let r = &signature[0..32];
    let s = &signature[32..64];
    let recovery_id = signature[64];
    let v: u64 = (recovery_id as u64) + 35 + tx.chain * 2;
    Ok(legacy_transaction_sign(tx, v, r, s))
}

/// The `0x`-prefixed hexadecimal text of a raw transaction.
pub fn raw_transaction_hex(raw: &[u8]) -> (res: String)
    ensures
        res@ == "0x"@ + hex_lower(raw@),
{
    let hex = hex_encode(raw);
    let mut out: Vec<char> = Vec::new();
    push_str(&mut out, "0x");
    push_str(&mut out, hex.as_str());
    proof {
        reveal_strlit("0x");
    }
    string_from_chars(&out)
}

/// A leading `0x` changes nothing: a recipient reads as the same address,
/// and an address gives the same `balanceOf` call data, with or without it.
pub proof fn lemma_hex_prefix_optional(s: Seq<char>)
    ensures
        strip_hex_prefix("0x"@ + s) == strip_hex_prefix(s),
        recipient_address("0x"@ + s) == recipient_address(s),
        balance_of_call_data("0x"@ + s) == balance_of_call_data(s),
{
    reveal_strlit("0x");
    let t = "0x"@ + s;
    assert(t.subrange(2, t.len() as int) =~= s);
}

proof fn lemma_utf8_at_least_one_byte_per_char(chars: Seq<char>)
    ensures
        encode_utf8(chars).len() >= chars.len(),
    decreases chars.len(),
{
    if chars.len() > 0 {
        lemma_utf8_at_least_one_byte_per_char(chars.drop_first());
    }
}

/// `balanceOf` call data is always 74 characters long: `0x`, the four-byte
/// selector, and one 32-byte word (for any address text that a machine holds).
pub proof fn lemma_balance_of_call_data_length(address: Seq<char>)
    requires
        encode_utf8(strip_hex_prefix(address)).len() <= usize::MAX,
        balance_of_call_data(address) is Ok,
    ensures
        balance_of_call_data(address)->Ok_0.len() == 74,
{
    reveal_strlit("0x70a08231");
    let clean = strip_hex_prefix(address);
    lemma_utf8_at_least_one_byte_per_char(clean);
    assert(encode_utf8(clean).len() == 40);
    assert(clean.len() <= 40);
    assert(Seq::new(pad_width(clean.len()), |i: int| '0').len() == 64 - clean.len());
}

/// The signed transaction carries the EIP-155 `v` of its signature: for
/// recovery id `r` and chain `c`, `v = r + 35 + 2c`, so that a verifier reads
/// back `(v - 35) / 2 == c` and `(v - 35) % 2 == r`; `r` and `s` are the first
/// and second 32 bytes of the signature.
pub proof fn lemma_signed_transaction_eip155(tx: LegacyTx, signature: Seq<u8>)
    requires
        signature.len() >= 65,
        signature[64] <= 1,
        signature[64] + 35 + 2 * tx.chain <= u64::MAX,
    ensures
        ({
            let v = (signature[64] + 35 + 2 * tx.chain) as u64;
            &&& signed_transaction(tx, signature) == Ok::<Seq<u8>, Seq<char>>(
                legacy_tx_signed(
                    tx.chain,
                    tx.nonce,
                    tx.to,
                    tx.value,
                    tx.gas_price,
                    tx.gas,
                    tx.data@,
                    v,
                    signature.subrange(0, 32),
                    signature.subrange(32, 64),
                ),
            )
            &&& (v - 35) / 2 == tx.chain
            &&& (v - 35) % 2 == signature[64]
        }),
{
    let v = (signature[64] + 35 + 2 * tx.chain) as u64;
    assert(v - 35 == 2 * tx.chain + signature[64]);
}

/// A text that does not begin with `0x` loses nothing to prefix stripping,
/// and one `0x` in front of it is removed whole.
pub proof fn lemma_strip_only_whole_prefixes(h: Seq<char>)
    requires
        !(h.len() >= 2 && h[0] == '0' && h[1] == 'x'),
    ensures
        strip_hex_prefix(h) == h,
        strip_hex_prefix("0x"@ + h) == h,
{
    lemma_hex_prefix_optional(h);
}

proof fn lemma_hex_text_ascii(b: Seq<u8>)
    ensures
        is_ascii_chars(hex_lower(b)),
        encode_utf8(hex_lower(b)).len() == 2 * b.len(),
        b.len() >= 1 ==> hex_lower(b)[1] != 'x',
{
    lemma_hex_lower_shape(b);
    let t = hex_lower(b);
    assert forall|i: int| 0 <= i < t.len() implies '\0' <= #[trigger] t[i] <= '\u{7f}' && t[i] != 'x' by {
        let k = i / 2;
        if i % 2 == 0 {
            assert(i == 2 * k);
            lemma_nibble_char((b[k] / 16) as int);
        } else {
            assert(i == 2 * k + 1);
            lemma_nibble_char((b[k] % 16) as int);
        }
    }
    is_ascii_chars_encode_utf8(t);
}

/// A recipient written as `0x` and the lower-case hex of twenty bytes reads as
/// exactly those twenty bytes, whatever their first digit.
pub proof fn lemma_recipient_of_hex_address(b: Seq<u8>)
    requires
        b.len() == 20,
    ensures
        recipient_address("0x"@ + hex_lower(b)) == Ok::<Seq<u8>, Seq<char>>(b),
{
    lemma_hex_text_ascii(b);
    lemma_strip_only_whole_prefixes(hex_lower(b));
    lemma_hex_round_trip(b);
}

/// The `balanceOf` call data for an address written as `0x` and the
/// lower-case hex of twenty bytes is the selector, 24 zeros, then those forty
/// digits, whatever their first digit.
pub proof fn lemma_balance_of_hex_address(b: Seq<u8>)
    requires
        b.len() == 20,
    ensures
        balance_of_call_data("0x"@ + hex_lower(b)) == Ok::<Seq<char>, Seq<char>>(
            "0x70a08231"@ + Seq::new(24, |i: int| '0') + hex_lower(b),
        ),
{
    lemma_hex_text_ascii(b);
    lemma_hex_lower_shape(b);
    lemma_strip_only_whole_prefixes(hex_lower(b));
    assert(Seq::new(pad_width(hex_lower(b).len()), |i: int| '0') =~= Seq::new(24, |i: int| '0'));
}

} // verus!
