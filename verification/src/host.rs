use vstd::prelude::*;
use crate::ledger::{donors_distinct, empty_ledger, entries_map, LedgerEntry};
use crate::principal::Principal;

verus! {

/// The hosting chain's environment, from `soroban_sdk`. Nothing is known of
/// what it holds.
#[verifier::external_type_specification]
#[verifier::external_body]
pub struct ExEnv(soroban_sdk::Env);

/// An address on the hosting chain, from `soroban_sdk`. Nothing is known of
/// what it holds.
#[verifier::external_type_specification]
#[verifier::external_body]
pub struct ExAddress(soroban_sdk::Address);

/// The SHA-256 digest of a sequence of bytes, as `soroban_sdk`'s
/// `Crypto::sha256` computes it.
pub uninterp spec fn sha256_digest(data: Seq<u8>) -> Seq<u8>;

/// Calls `Crypto::sha256` of `soroban_sdk` on the given bytes. Assumed, not
/// proved: the 32 bytes that come back are the SHA-256 digest of the bytes
/// that went in, and depend on nothing else. The bytes must fit the host's
/// byte strings, whose length is a `u32`.
#[verifier::external_body]
pub(crate) fn sha256(env: &soroban_sdk::Env, data: &Vec<u8>) -> (digest: [u8; 32])
    requires
        data@.len() <= u32::MAX,
    ensures
        digest@ == sha256_digest(data@),
{
    let bytes = soroban_sdk::Bytes::from_slice(env, data.as_slice());
    env.crypto().sha256(&bytes).to_array()
}

/// Calls `Env::clone` of `soroban_sdk`: another handle to the same
/// environment. Nothing is assumed of it.
#[verifier::external_body]
pub(crate) fn env_handle(env: &soroban_sdk::Env) -> (handle: soroban_sdk::Env) {
    env.clone()
}

/// Calls `Ledger::timestamp` of `soroban_sdk`: the close time of the current
/// ledger, in seconds. Nothing is assumed of the value.
#[verifier::external_body]
pub(crate) fn ledger_time(env: &soroban_sdk::Env) -> (now: u64) {
    env.ledger().timestamp()
}

/// Calls `TokenClient::try_transfer` of `soroban_sdk` on the asset ledger at
/// `asset`, to move `amount` from `from` to `to`, and says whether the
/// transfer went through. An `asset` that is an account and no contract is
/// answered with `false` without a call: the host does not return from a call
/// to an account. Nothing is assumed of the answer: the asset ledger decides.
#[verifier::external_body]
pub(crate) fn transfer(
    env: &soroban_sdk::Env,
    asset: &soroban_sdk::Address,
    from: &soroban_sdk::Address,
    to: &soroban_sdk::Address,
    amount: i128,
) -> (moved: bool) {
    match soroban_sdk::xdr::ScAddress::from(asset) {
        soroban_sdk::xdr::ScAddress::Account(_) => false,
        soroban_sdk::xdr::ScAddress::Contract(_) => {
            let client = soroban_sdk::token::TokenClient::new(env, asset);
            match client.try_transfer(from, to, &amount) {
                Ok(Ok(())) => true,
                _ => false,
            }
        },
    }
}

/// Calls `Address::to_string` of `soroban_sdk` and hands the text of the
/// address on. Nothing is assumed of the text.
#[verifier::external_body]
pub(crate) fn address_text(address: &soroban_sdk::Address) -> (text: String) {
    let strkey = address.to_string();
    let mut bytes = vec![0u8; strkey.len() as usize];
    strkey.copy_into_slice(&mut bytes);
    String::from_utf8_lossy(&bytes).into_owned()
}

/// A map of the hosting chain, from `soroban_sdk`. Nothing is known of what
/// it holds but through `ledger_lines`.
#[verifier::external_type_specification]
#[verifier::external_body]
#[verifier::reject_recursive_types(K)]
#[verifier::reject_recursive_types(V)]
pub struct ExMap<K, V>(soroban_sdk::Map<K, V>);

/// A string of the hosting chain, from `soroban_sdk`. Nothing is known of
/// what it holds.
#[verifier::external_type_specification]
#[verifier::external_body]
pub struct ExText(soroban_sdk::String);

/// What a map of the hosting chain holds: for each key, as text, the amount
/// under it.
pub uninterp spec fn ledger_lines(lines: soroban_sdk::Map<soroban_sdk::String, i128>) -> Map<
    Seq<char>,
    int,
>;

/// Calls `Map::new` of `soroban_sdk`. Assumed, not proved: the new map holds
/// nothing.
#[verifier::external_body]
pub(crate) fn lines_new(env: &soroban_sdk::Env) -> (lines: soroban_sdk::Map<soroban_sdk::String, i128>)
    ensures
        ledger_lines(lines) == empty_ledger(),
{
    soroban_sdk::Map::new(env)
}

/// Calls `Map::get` of `soroban_sdk` with the key made by `String::from_str`.
/// Assumed, not proved: it returns the amount that the map holds under the
/// key, and nothing where the map holds none.
#[verifier::external_body]
pub(crate) fn lines_get(lines: &soroban_sdk::Map<soroban_sdk::String, i128>, key: &str) -> (amount: Option<i128>)
    ensures
        amount is Some <==> ledger_lines(*lines).contains_key(key@),
        amount matches Some(a) ==> a == ledger_lines(*lines)[key@],
{
    lines.get(soroban_sdk::String::from_str(lines.env(), key))
}

/// Calls `Map::set` of `soroban_sdk` with the key made by `String::from_str`.
/// Assumed, not proved: afterwards the map holds the amount under the key,
/// and under every other key what it held before.
#[verifier::external_body]
pub(crate) fn lines_set(
    lines: &mut soroban_sdk::Map<soroban_sdk::String, i128>,
    key: &str,
    amount: i128,
)
    ensures
        ledger_lines(*final(lines)) == ledger_lines(*old(lines)).insert(key@, amount as int),
{
    lines.set(soroban_sdk::String::from_str(lines.env(), key), amount)
}

/// Calls `Map::iter` of `soroban_sdk` and hands out each key with its amount
/// as an entry. Assumed, not proved: every key of the map comes once, with
/// the amount that the map holds under it, and nothing else comes.
#[verifier::external_body]
pub(crate) fn lines_entries(lines: &soroban_sdk::Map<soroban_sdk::String, i128>) -> (entries: Vec<LedgerEntry>)
    ensures
        donors_distinct(entries@),
        entries_map(entries@) == ledger_lines(*lines),
{
    lines
        .iter()
        .map(|(key, amount)| LedgerEntry { donor: Principal::new(&key.to_string()), amount })
        .collect()
}

/// A vector of the hosting chain, from `soroban_sdk`. Nothing is known of
/// what it holds but through `log_records` and `directory_lines`.
#[verifier::external_type_specification]
#[verifier::external_body]
#[verifier::reject_recursive_types(T)]
pub struct ExVec<T>(soroban_sdk::Vec<T>);

/// What a vector of donation records of the hosting chain holds, in its
/// order: of each record the donor's key as text, the amount and the time.
pub uninterp spec fn log_records(log: soroban_sdk::Vec<(soroban_sdk::String, i128, u64)>) -> Seq<
    (Seq<char>, int, int),
>;

/// Calls `Vec::new` of `soroban_sdk`. Assumed, not proved: the new vector
/// holds nothing.
#[verifier::external_body]
pub(crate) fn log_new(env: &soroban_sdk::Env) -> (log: soroban_sdk::Vec<(soroban_sdk::String, i128, u64)>)
    ensures
        log_records(log).len() == 0,
{
    soroban_sdk::Vec::new(env)
}

/// Calls `Vec::len` of `soroban_sdk`. Assumed, not proved: it returns the
/// number of records that the vector holds.
#[verifier::external_body]
pub(crate) fn log_len(log: &soroban_sdk::Vec<(soroban_sdk::String, i128, u64)>) -> (len: u32)
    ensures
        len == log_records(*log).len(),
{
    log.len()
}

/// Calls `Vec::get` of `soroban_sdk` and hands the record out with its key
/// as text. Assumed, not proved: it returns the record at the position, and
/// nothing where the position is beyond the last record.
#[verifier::external_body]
pub(crate) fn log_get(log: &soroban_sdk::Vec<(soroban_sdk::String, i128, u64)>, position: u32) -> (record: Option<(String, i128, u64)>)
    ensures
        record is Some <==> position < log_records(*log).len(),
        record matches Some(r) ==> (r.0@, r.1 as int, r.2 as int) == log_records(*log)[position as int],
{
    log.get(position).map(|(donor, amount, timestamp)| (donor.to_string(), amount, timestamp))
}

/// Calls `Vec::push_back` of `soroban_sdk` with the key made by
/// `String::from_str`. Assumed, not proved: afterwards the vector holds the
/// records it held, in their order, and the new record behind them. A vector
/// that holds `u32::MAX` records is left out: its length has no room for one
/// more.
#[verifier::external_body]
pub(crate) fn log_push(
    log: &mut soroban_sdk::Vec<(soroban_sdk::String, i128, u64)>,
    donor: &str,
    amount: i128,
    timestamp: u64,
)
    requires
        log_records(*old(log)).len() < u32::MAX,
    ensures
        log_records(*final(log)) == log_records(*old(log)).push((donor@, amount as int, timestamp as int)),
{
    log.push_back((soroban_sdk::String::from_str(log.env(), donor), amount, timestamp))
}

/// A vector of directory entries of the hosting chain: of each entry the
/// identifier, the address, the title, the category, the owner and the time
/// of creation.
pub type DirectoryVec = soroban_sdk::Vec<(u64, soroban_sdk::String, soroban_sdk::String, soroban_sdk::String, soroban_sdk::String, u64)>;

/// What a vector of directory entries of the hosting chain holds, in its
/// order, the texts as text.
pub uninterp spec fn directory_lines(directory: soroban_sdk::Vec<(u64, soroban_sdk::String, soroban_sdk::String, soroban_sdk::String, soroban_sdk::String, u64)>) -> Seq<
    (int, Seq<char>, Seq<char>, Seq<char>, Seq<char>, int),
>;

/// Calls `Vec::new` of `soroban_sdk`. Assumed, not proved: the new vector
/// holds nothing.
#[verifier::external_body]
pub(crate) fn directory_new(env: &soroban_sdk::Env) -> (directory: DirectoryVec)
    ensures
        directory_lines(directory).len() == 0,
{
    soroban_sdk::Vec::new(env)
}

/// Calls `Vec::len` of `soroban_sdk`. Assumed, not proved: it returns the
/// number of entries that the vector holds.
#[verifier::external_body]
pub(crate) fn directory_len(directory: &DirectoryVec) -> (len: u32)
    ensures
        len == directory_lines(*directory).len(),
{
    directory.len()
}

/// Calls `Vec::get` of `soroban_sdk` and hands the entry out with its texts
/// as text. Assumed, not proved: it returns the entry at the position, and
/// nothing where the position is beyond the last entry.
#[verifier::external_body]
pub(crate) fn directory_get(directory: &DirectoryVec, position: u32) -> (line: Option<(u64, String, String, String, String, u64)>)
    ensures
        line is Some <==> position < directory_lines(*directory).len(),
        line matches Some(l) ==> (l.0 as int, l.1@, l.2@, l.3@, l.4@, l.5 as int) == directory_lines(*directory)[position as int],
{
    directory.get(position).map(|l| (l.0, l.1.to_string(), l.2.to_string(), l.3.to_string(), l.4.to_string(), l.5))
}

/// Calls `Vec::push_back` of `soroban_sdk` with the texts made by
/// `String::from_str`. Assumed, not proved: afterwards the vector holds the
/// entries it held, in their order, and the new entry behind them. A vector
/// that holds `u32::MAX` entries is left out: its length has no room for one
/// more.
#[verifier::external_body]
pub(crate) fn directory_push(
    directory: &mut DirectoryVec,
    id: u64,
    address: &str,
    title: &str,
    category: &str,
    owner: &str,
    created_at: u64,
)
    requires
        directory_lines(*old(directory)).len() < u32::MAX,
    ensures
        directory_lines(*final(directory)) == directory_lines(*old(directory)).push((id as int, address@, title@, category@, owner@, created_at as int)),
{
    let env = directory.env().clone();
    let address = soroban_sdk::String::from_str(&env, address);
    let title = soroban_sdk::String::from_str(&env, title);
    let category = soroban_sdk::String::from_str(&env, category);
    let owner = soroban_sdk::String::from_str(&env, owner);
    directory.push_back((id, address, title, category, owner, created_at))
}

} // verus!
