//! Hashes and the identifiers derived from them: EVM addresses from public
//! keys, and ledger account identifiers from principals.

use vstd::prelude::*;
use crate::hexcodec::{hex_lower, hex_encode};
use crate::text::{push_str, string_from_chars};
use sha2::Digest;
use tiny_keccak::Hasher;

verus! {

/// The Keccak-256 digest of a byte sequence.
pub uninterp spec fn keccak256(data: Seq<u8>) -> Seq<u8>;

/// The SHA-224 digest of a byte sequence.
pub uninterp spec fn sha224(data: Seq<u8>) -> Seq<u8>;

/// The CRC-32 (IEEE) checksum of a byte sequence.
pub uninterp spec fn crc32(data: Seq<u8>) -> u32;

/// `tiny_keccak::Keccak::v256`, fed `data` and finalized into 32 bytes: the
/// Keccak-256 digest of `data`.
#[verifier::external_body]
fn keccak256_digest(data: &[u8]) -> (res: [u8; 32])
    ensures
        res@ == keccak256(data@),
{
    let mut hasher = tiny_keccak::Keccak::v256();
    let mut out = [0u8; 32];
    hasher.update(data);
    hasher.finalize(&mut out);
    out
}

/// `sha2::Sha224::digest`: the 28-byte SHA-224 digest of `data`.
#[verifier::external_body]
fn sha224_digest(data: &[u8]) -> (res: [u8; 28])
    ensures
        res@ == sha224(data@),
{
    let digest = sha2::Sha224::digest(data);
    let mut out = [0u8; 28];
    out.copy_from_slice(digest.as_slice());
    out
}

/// `crc32fast::Hasher`, fed `data` and finalized: the CRC-32 checksum of `data`.
#[verifier::external_body]
fn crc32_checksum(data: &[u8]) -> (res: u32)
    ensures
        res == crc32(data@),
{
    let mut hasher = crc32fast::Hasher::new();
    hasher.update(data);
    hasher.finalize()
}

/// The EVM address of an uncompressed public key: the last twenty bytes of
/// the Keccak-256 digest of the key without its leading format byte.
pub open spec fn evm_address_of(public_key: Seq<u8>) -> Seq<u8> {
    keccak256(public_key.subrange(1, 65)).subrange(12, 32)
}

/// Derives the EVM address of an uncompressed (65-byte) ECDSA public key.
pub fn derive_evm_address(public_key: [u8; 65]) -> (address: [u8; 20])
    ensures
        address@ == evm_address_of(public_key@),
{
    let key_bytes = &public_key.as_slice()[1..65];
    let hash = keccak256_digest(key_bytes);
    let mut address = [0u8; 20];
    let mut i: usize = 0;
    while i < 20
        invariant
            i <= 20,
            hash@ == keccak256(public_key@.subrange(1, 65)),
            forall|j: int| 0 <= j < i ==> address@[j] == hash@[12 + j],
        decreases 20 - i,
    {
        address[i] = hash[12 + i];
        i = i + 1;
    }
    assert(address@ =~= evm_address_of(public_key@));
    address
}

/// The `0x`-prefixed lower-case hexadecimal text of an EVM address.
pub open spec fn evm_address_text(public_key: Seq<u8>) -> Seq<char> {
    "0x"@ + hex_lower(evm_address_of(public_key))
}

/// The textual EVM address of a public key, as wallets show it.
pub fn evm_address_from_public_key(public_key: [u8; 65]) -> (res: String)
    ensures
        res@ == evm_address_text(public_key@),
{
    let address = derive_evm_address(public_key);
    let hex = hex_encode(address.as_slice());
    let mut out: Vec<char> = Vec::new();
    push_str(&mut out, "0x");
    push_str(&mut out, hex.as_str());
    proof {
        reveal_strlit("0x");
    }
    string_from_chars(&out)
}

/// The raw bytes of an Internet Computer principal: at most 29 of them.
#[derive(Debug)]
pub struct PrincipalId {
    bytes: Vec<u8>,
}

impl View for PrincipalId {
    type V = Seq<u8>;

    closed spec fn view(&self) -> Seq<u8> {
        self.bytes@
    }
}

/// The most bytes a principal holds.
pub const PRINCIPAL_MAX_LEN: usize = 29;

impl PrincipalId {
    #[verifier::type_invariant]
    spec fn fits(self) -> bool {
        self.bytes@.len() <= PRINCIPAL_MAX_LEN
    }

    /// A principal with the given bytes, or `None` where they are too many.
    pub fn from_bytes(bytes: Vec<u8>) -> (res: Option<PrincipalId>)
        ensures
            res is Some <==> bytes@.len() <= PRINCIPAL_MAX_LEN,
            res matches Some(p) ==> p@ == bytes@,
    {
        if bytes.len() <= PRINCIPAL_MAX_LEN {
            Some(PrincipalId { bytes })
        } else {
            None
        }
    }

    /// The bytes of the principal.
    pub fn as_bytes(&self) -> (res: &[u8])
        ensures
            res@ == self@,
            res@.len() <= PRINCIPAL_MAX_LEN,
    {
        proof {
            use_type_invariant(self);
        }
        self.bytes.as_slice()
    }

    /// A second principal with the same bytes.
    pub fn duplicate(&self) -> (res: PrincipalId)
        ensures
            res@ == self@,
    {
        proof {
            use_type_invariant(self);
        }
        PrincipalId { bytes: self.bytes.clone() }
    }
}

/// The domain separator of account identifiers: byte 0x0A, then `account-id`.
pub open spec fn account_domain() -> Seq<u8> {
    seq![10u8, 97u8, 99u8, 99u8, 111u8, 117u8, 110u8, 116u8, 45u8, 105u8, 100u8]
}

/// The big-endian bytes of a 32-bit value.
pub open spec fn u32_be_bytes(v: u32) -> Seq<u8> {
    seq![
        (v / 16777216) as u8,
        ((v / 65536) % 256) as u8,
        ((v / 256) % 256) as u8,
        (v % 256) as u8,
    ]
}

/// The account identifier of a principal and subaccount: the big-endian
/// CRC-32 of the hash, then the SHA-224 hash of domain, principal and subaccount.
pub open spec fn account_identifier_bytes(owner: Seq<u8>, subaccount: Seq<u8>) -> Seq<u8> {
    let hash = sha224(account_domain() + owner + subaccount);
    u32_be_bytes(crc32(hash)) + hash
}

/// The subaccount that stands in for a missing one: thirty-two zero bytes.
pub open spec fn default_subaccount() -> Seq<u8> {
    Seq::new(32, |i: int| 0u8)
}

pub open spec fn subaccount_or_default(subaccount: Option<[u8; 32]>) -> Seq<u8> {
    match subaccount {
        Some(s) => s@,
        None => default_subaccount(),
    }
}

/// Computes the ledger account identifier of a principal and optional
/// subaccount (the default subaccount where none is given).
pub fn principal_to_account_id(principal: &PrincipalId, subaccount: Option<[u8; 32]>) -> (res: [u8; 32])
    ensures
        res@ == account_identifier_bytes(principal@, subaccount_or_default(subaccount)),
{
    let mut data: Vec<u8> = Vec::new();
    data.push(10u8);
    data.push(97u8);
    data.push(99u8);
    data.push(99u8);
    data.push(111u8);
    data.push(117u8);
    data.push(110u8);
    data.push(116u8);
    data.push(45u8);
    data.push(105u8);
    data.push(100u8);
    assert(data@ =~= account_domain());
    let owner = principal.as_bytes();
    let sub: [u8; 32] = match subaccount {
        Some(s) => s,
        None => [0u8; 32],
    };
    assert(sub@ =~= subaccount_or_default(subaccount));
    let ghost prefix = data@;
    let mut i: usize = 0;
    while i < owner.len()
        invariant
            i <= owner@.len(),
            data@ == prefix + owner@.take(i as int),
        decreases owner@.len() - i,
    {
        data.push(owner[i]);
        i = i + 1;
        assert(data@ =~= prefix + owner@.take(i as int));
    }
    assert(owner@.take(owner@.len() as int) =~= owner@);
    let ghost prefix2 = data@;
    let mut j: usize = 0;
    while j < 32
        invariant
            j <= 32,
            data@ == prefix2 + sub@.take(j as int),
        decreases 32 - j,
    {
        data.push(sub[j]);
        j = j + 1;
        assert(data@ =~= prefix2 + sub@.take(j as int));
    }
    assert(sub@.take(32) =~= sub@);
    assert(data@ =~= account_domain() + principal@ + subaccount_or_default(subaccount));
    let hash = sha224_digest(data.as_slice());
    let checksum = crc32_checksum(hash.as_slice());
    let mut account_id = [0u8; 32];
    account_id[0] = (checksum / 16777216) as u8;
    account_id[1] = ((checksum / 65536) % 256) as u8;
    account_id[2] = ((checksum / 256) % 256) as u8;
    account_id[3] = (checksum % 256) as u8;
    let mut k: usize = 0;
    while k < 28
        invariant
            k <= 28,
            hash@.len() == 28,
            account_id@.subrange(0, 4) == u32_be_bytes(checksum),
            forall|m: int| 0 <= m < k ==> account_id@[4 + m] == hash@[m],
        decreases 28 - k,
    {
        account_id[4 + k] = hash[k];
        k = k + 1;
    }
    assert(account_id@ =~= u32_be_bytes(checksum) + hash@);
    account_id
}

/// `ic_ledger_types::AccountIdentifier::new`. Its source feeds SHA-224 the
/// domain separator, the principal's bytes and the subaccount, then writes the
/// big-endian CRC-32 of that hash followed by the hash; the contract states
/// exactly that. `Principal::from_slice` panics above 29 bytes, which the
/// `requires` leaves out.
#[verifier::external_body]
pub(crate) fn ledger_account_identifier(owner: &[u8], subaccount: &[u8; 32]) -> (res: [u8; 32])
    requires
        owner@.len() <= PRINCIPAL_MAX_LEN,
    ensures
        res@ == account_identifier_bytes(owner@, subaccount@),
{
    let principal = candid::Principal::from_slice(owner);
    *ic_ledger_types::AccountIdentifier::new(&principal, &ic_ledger_types::Subaccount(*subaccount)).as_bytes()
}

/// What the textual form of a principal decodes to: its bytes, or the
/// message of the decoding error.
pub uninterp spec fn principal_text_decoding(text: Seq<char>) -> Result<Seq<u8>, Seq<char>>;

/// `candid::Principal::from_text`, the bytes of the principal or the displayed
/// error: a function of the text alone. Its source refuses texts that stand for
/// more than 29 bytes, which the last clause states.
#[verifier::external_body]
fn principal_bytes_from_text(text: &str) -> (res: Result<Vec<u8>, String>)
    ensures
        res is Ok ==> principal_text_decoding(text@) == Ok::<Seq<u8>, Seq<char>>(res.unwrap()@),
        res is Err ==> principal_text_decoding(text@) == Err::<Seq<u8>, Seq<char>>(
            res.unwrap_err()@,
        ),
        res is Ok ==> res.unwrap()@.len() <= PRINCIPAL_MAX_LEN,
{
    match candid::Principal::from_text(text) {
        Ok(p) => Ok(p.as_slice().to_vec()),
        Err(e) => Err(e.to_string()),
    }
}

/// The principal that a text names, or `lead` followed by the decoding error.
pub open spec fn principal_from_text_result(lead: Seq<char>, text: Seq<char>) -> Result<Seq<u8>, Seq<char>> {
    match principal_text_decoding(text) {
        Ok(b) => Ok(b),
        Err(e) => Err(lead + e),
    }
}

fn principal_from_text(lead: &str, text: &str) -> (res: Result<PrincipalId, String>)
    ensures
        res matches Ok(p) ==> principal_from_text_result(lead@, text@) == Ok::<Seq<u8>, Seq<char>>(p@),
        res matches Err(e) ==> principal_from_text_result(lead@, text@) == Err::<Seq<u8>, Seq<char>>(e@),
{
    match principal_bytes_from_text(text) {
        Ok(b) => {
            let p = PrincipalId::from_bytes(b);
            match p {
                Some(p) => Ok(p),
                None => Err(String::new()),
            }
        },
        Err(e) => {
            let mut out: Vec<char> = Vec::new();
            push_str(&mut out, lead);
            push_str(&mut out, e.as_str());
            Err(string_from_chars(&out))
        },
    }
}

/// The textual id of the EVM RPC canister.
pub open spec fn evm_canister_text() -> Seq<char> {
    "7hfb6-caaaa-aaaar-qadga-cai"@
}

/// The textual id of the ICP ledger canister.
pub open spec fn ledger_canister_text() -> Seq<char> {
    "ryjl3-tyaaa-aaaaa-aaaba-cai"@
}

/// The principal of the EVM RPC canister.
pub fn evm_canister_id() -> (res: Result<PrincipalId, String>)
    ensures
        res matches Ok(p) ==> principal_from_text_result("Invalid canister ID: "@, evm_canister_text())
            == Ok::<Seq<u8>, Seq<char>>(p@),
        res matches Err(e) ==> principal_from_text_result("Invalid canister ID: "@, evm_canister_text())
            == Err::<Seq<u8>, Seq<char>>(e@),
{
    principal_from_text("Invalid canister ID: ", "7hfb6-caaaa-aaaar-qadga-cai")
}

/// The principal of the ICP ledger canister.
pub fn ledger_canister_id() -> (res: Result<PrincipalId, String>)
    ensures
        res matches Ok(p) ==> principal_from_text_result(
            "Invalid ledger canister ID: "@,
            ledger_canister_text(),
        ) == Ok::<Seq<u8>, Seq<char>>(p@),
        res matches Err(e) ==> principal_from_text_result(
            "Invalid ledger canister ID: "@,
            ledger_canister_text(),
        ) == Err::<Seq<u8>, Seq<char>>(e@),
{
    principal_from_text("Invalid ledger canister ID: ", "ryjl3-tyaaa-aaaaa-aaaba-cai")
}

/// An account identifier hashes the domain separator (byte 0x0A and
/// `account-id`), every byte of the principal, and every byte of the
/// subaccount, in that order; its first four bytes are the big-endian CRC-32
/// of that hash, the rest the hash itself.
pub proof fn lemma_account_identifier_hashes_all_bytes(owner: Seq<u8>, subaccount: Seq<u8>)
    ensures
        ({
            let input = seq![10u8, 97u8, 99u8, 99u8, 111u8, 117u8, 110u8, 116u8, 45u8, 105u8, 100u8]
                + owner + subaccount;
            let hash = sha224(input);
            let c = crc32(hash);
            &&& input.len() == 11 + owner.len() + subaccount.len()
            &&& input.subrange(11, 11 + owner.len() as int) == owner
            &&& input.subrange(11 + owner.len() as int, input.len() as int) == subaccount
            &&& account_identifier_bytes(owner, subaccount) == seq![
                (c / 16777216) as u8,
                ((c / 65536) % 256) as u8,
                ((c / 256) % 256) as u8,
                (c % 256) as u8,
            ] + hash
        }),
{
    let input = seq![10u8, 97u8, 99u8, 99u8, 111u8, 117u8, 110u8, 116u8, 45u8, 105u8, 100u8] + owner
        + subaccount;
    assert(account_domain() + owner + subaccount =~= input);
    assert(input.subrange(11, 11 + owner.len() as int) =~= owner);
    assert(input.subrange(11 + owner.len() as int, input.len() as int) =~= subaccount);
}

/// A given subaccount is used byte for byte; a missing one is thirty-two
/// zero bytes.
pub proof fn lemma_subaccount_used_as_given(owner: Seq<u8>, subaccount: [u8; 32])
    ensures
        forall|i: int| 0 <= i < 32 ==> #[trigger] subaccount_or_default(Some(subaccount))[i] == subaccount@[i],
        subaccount_or_default(Some(subaccount)).len() == 32,
        account_identifier_bytes(owner, subaccount_or_default(Some(subaccount)))
            == account_identifier_bytes(owner, subaccount@),
        forall|i: int| 0 <= i < 32 ==> #[trigger] subaccount_or_default(None)[i] == 0u8,
        subaccount_or_default(None).len() == 32,
{
}

} // verus!
