//! Reading a price and a volume out of the bytes that come with a transfer.
//!
//! The first account's data begins with two little-endian 64-bit fields, the
//! quoted price and the traded volume. A swap is recognized where at least two
//! accounts come along and the first holds both fields; its price gets a
//! slippage added and its volume the trading fee taken off. Any other transfer
//! is read more loosely, and falls back on fixed values where the fields are
//! missing.

use vstd::prelude::*;
use crate::twap::error::ErrorCode;
use crate::twap::state::TwapConfig;

verus! {

/// Bytes taken by the price and volume fields together.
pub const HOOK_FIELDS_LEN: usize = 16;

/// Price assumed for a transfer that carries no fields.
pub const DEFAULT_PRICE: u128 = 50_000_000;

/// Volume assumed for a transfer that carries no fields.
pub const DEFAULT_VOLUME: u64 = 1_000_000;

/// Fee that a swap takes off the traded volume, in basis points.
pub const SWAP_FEE_BPS: u64 = 25;

/// What the engine reads of an account that comes with a transfer: its data.
#[derive(Clone, Debug, PartialEq, Eq)]
pub struct HookAccount {
    pub data: Vec<u8>,
}

/// The value of the eight bytes of `bytes` from index `at` on, least
/// significant byte first.
pub open spec fn le_u64_at(bytes: Seq<u8>, at: int) -> int
    recommends
        0 <= at,
        at + 8 <= bytes.len(),
{
    bytes[at] + bytes[at + 1] * 0x100 + bytes[at + 2] * 0x1_0000 + bytes[at + 3] * 0x100_0000
        + bytes[at + 4] * 0x1_0000_0000 + bytes[at + 5] * 0x100_0000_0000 + bytes[at + 6]
        * 0x1_0000_0000_0000 + bytes[at + 7] * 0x100_0000_0000_0000
}

/// Whether the data holds the price and volume fields.
pub open spec fn has_fields(data: Seq<u8>) -> bool {
    data.len() >= 16
}

/// The price field.
pub open spec fn price_field(data: Seq<u8>) -> int {
    le_u64_at(data, 0)
}

/// The volume field.
pub open spec fn volume_field(data: Seq<u8>) -> int {
    le_u64_at(data, 8)
}

/// Slippage of a swap in millionths of the price: the larger the trade, the
/// larger the slippage.
pub open spec fn slippage_factor(volume: int) -> int {
    if volume > 1_000_000_000 {
        1000
    } else if volume > 100_000_000 {
        500
    } else {
        200
    }
}

/// Price of a swap: the quoted price and its slippage, rounded down.
pub open spec fn swap_price(base_price: int, volume: int) -> Result<u128, ErrorCode> {
    let scaled = base_price * slippage_factor(volume);
    if scaled > u128::MAX || base_price + scaled / 1_000_000 > u128::MAX {
        Err(ErrorCode::ArithmeticOverflow)
    } else {
        Ok((base_price + scaled / 1_000_000) as u128)
    }
}

/// Volume of a swap: the traded volume less the fee of 25 basis points, the
/// fee rounded down.
pub open spec fn swap_volume(base_volume: int) -> Result<u64, ErrorCode> {
    if base_volume * 25 > u64::MAX {
        Err(ErrorCode::ArithmeticOverflow)
    } else {
        Ok((base_volume - base_volume * 25 / 10000) as u64)
    }
}

/// Price of a plain transfer: the quoted price moved by the last three digits
/// of the volume.
pub open spec fn transfer_price(base_price: int, volume: int) -> Result<u128, ErrorCode> {
    if base_price + volume % 1000 > u128::MAX {
        Err(ErrorCode::ArithmeticOverflow)
    } else {
        Ok((base_price + volume % 1000) as u128)
    }
}

/// Volume of a plain transfer: twice the traded volume.
pub open spec fn transfer_volume(base_volume: int) -> Result<u64, ErrorCode> {
    if base_volume * 2 > u64::MAX {
        Err(ErrorCode::ArithmeticOverflow)
    } else {
        Ok((base_volume * 2) as u64)
    }
}

/// A price and a volume, where both could be computed.
pub open spec fn sample_of(
    price: Result<u128, ErrorCode>,
    volume: Result<u64, ErrorCode>,
) -> Result<(u128, u64), ErrorCode> {
    match (price, volume) {
        (Ok(p), Ok(v)) => Ok((p, v)),
        (Err(e), _) => Err(e),
        (_, Err(e)) => Err(e),
    }
}

/// Whether the accounts are those of a swap: at least two, the first with both
/// fields.
pub open spec fn is_swap(accounts: Seq<HookAccount>) -> bool {
    accounts.len() >= 2 && has_fields(accounts[0].data@)
}

/// The sample that the first account's data gives when read as a swap.
pub open spec fn swap_sample(accounts: Seq<HookAccount>) -> Result<(u128, u64), ErrorCode> {
    if accounts.len() == 0 || !has_fields(accounts[0].data@) {
        Err(ErrorCode::InvalidRaydiumData)
    } else {
        let data = accounts[0].data@;
        sample_of(
            swap_price(price_field(data), volume_field(data)),
            swap_volume(volume_field(data)),
        )
    }
}

/// The sample that a plain transfer gives: read from the first account's data
/// where it has both fields, else the fixed values.
pub open spec fn transfer_sample(accounts: Seq<HookAccount>) -> Result<(u128, u64), ErrorCode> {
    if accounts.len() == 0 || !has_fields(accounts[0].data@) {
        Ok((50_000_000u128, 1_000_000u64))
    } else {
        let data = accounts[0].data@;
        sample_of(
            transfer_price(price_field(data), volume_field(data)),
            transfer_volume(volume_field(data)),
        )
    }
}

/// The swap among the accounts, if they are those of a swap.
pub open spec fn detected_swap(accounts: Seq<HookAccount>) -> Result<
    Option<(u128, u64)>,
    ErrorCode,
> {
    if !is_swap(accounts) {
        Ok(None)
    } else {
        match swap_sample(accounts) {
            Ok(sample) => Ok(Some(sample)),
            Err(e) => Err(e),
        }
    }
}

/// The sample that a transfer with these accounts submits: that of the swap
/// where there is one, else that of a plain transfer.
pub open spec fn hook_sample(accounts: Seq<HookAccount>) -> Result<(u128, u64), ErrorCode> {
    if is_swap(accounts) {
        swap_sample(accounts)
    } else {
        transfer_sample(accounts)
    }
}

/// Reads eight bytes from index `at` on as a little-endian number.
fn read_u64_le(bytes: &Vec<u8>, at: usize) -> (value: u64)
    requires
        at + 8 <= bytes.len(),
    ensures
        value == le_u64_at(bytes@, at as int),
{
    let b0: u64 = bytes[at] as u64;
    let b1: u64 = bytes[at + 1] as u64;
    let b2: u64 = bytes[at + 2] as u64;
    let b3: u64 = bytes[at + 3] as u64;
    let b4: u64 = bytes[at + 4] as u64;
    let b5: u64 = bytes[at + 5] as u64;
    let b6: u64 = bytes[at + 6] as u64;
    let b7: u64 = bytes[at + 7] as u64;
    b0 + b1 * 0x100 + b2 * 0x1_0000 + b3 * 0x100_0000 + b4 * 0x1_0000_0000 + b5
        * 0x100_0000_0000 + b6 * 0x1_0000_0000_0000 + b7 * 0x100_0000_0000_0000
}

/// Price of a swap: the quoted price with the slippage of the trade added.
pub fn calculate_real_raydium_price(base_price: u128, volume: u64) -> (price: Result<
    u128,
    ErrorCode,
>)
    ensures
        price == swap_price(base_price as int, volume as int),
{
    let slippage_factor: u128 = if volume > 1_000_000_000 {
        1000
    } else if volume > 100_000_000 {
        500
    } else {
        200
    };
    let scaled: u128 = match base_price.checked_mul(slippage_factor) {
        None => {
            return Err(ErrorCode::ArithmeticOverflow);
        },
        Some(scaled) => scaled,
    };
    let slippage: u128 = scaled / 1_000_000;
    match base_price.checked_add(slippage) {
        None => Err(ErrorCode::ArithmeticOverflow),
        Some(price) => Ok(price),
    }
}

/// Volume of a swap: the traded volume with the trading fee taken off.
pub fn calculate_real_raydium_volume(base_volume: u64) -> (volume: Result<u64, ErrorCode>)
    ensures
        volume == swap_volume(base_volume as int),
{
    match base_volume.checked_mul(SWAP_FEE_BPS) {
        None => Err(ErrorCode::ArithmeticOverflow),
        Some(scaled) => {
            let fee: u64 = scaled / 10000;
            Ok(base_volume - fee)
        },
    }
}

/// Price of a plain transfer.
pub fn calculate_raydium_swap_price(base_price: u128, volume: u64) -> (price: Result<
    u128,
    ErrorCode,
>)
    ensures
        price == transfer_price(base_price as int, volume as int),
{
    let variation: u128 = (volume % 1000) as u128;
    match base_price.checked_add(variation) {
        None => Err(ErrorCode::ArithmeticOverflow),
        Some(price) => Ok(price),
    }
}

/// Volume of a plain transfer.
pub fn calculate_raydium_swap_volume(base_volume: u64) -> (volume: Result<u64, ErrorCode>)
    ensures
        volume == transfer_volume(base_volume as int),
{
    match base_volume.checked_mul(2) {
        None => Err(ErrorCode::ArithmeticOverflow),
        Some(volume) => Ok(volume),
    }
}

/// Reads the sample of a plain transfer.
pub fn parse_transfer_hook_data(remaining_accounts: &[HookAccount]) -> (sample: Result<
    (u128, u64),
    ErrorCode,
>)
    ensures
        sample == transfer_sample(remaining_accounts@),
{
    if remaining_accounts.len() == 0 {
        return Ok((DEFAULT_PRICE, DEFAULT_VOLUME));
    }
    let hook_data = &remaining_accounts[0].data;
    if hook_data.len() >= HOOK_FIELDS_LEN {
        let price: u128 = read_u64_le(hook_data, 0) as u128;
        let volume: u64 = read_u64_le(hook_data, 8);
        let raydium_price = calculate_raydium_swap_price(price, volume);
        let raydium_volume = calculate_raydium_swap_volume(volume);
        return pair(raydium_price, raydium_volume);
    }
    Ok((DEFAULT_PRICE, DEFAULT_VOLUME))
}

/// Whether the accounts look like those of a swap. The policy is not
/// consulted.
pub fn simulate_raydium_detection(
    remaining_accounts: &[HookAccount],
    config: &TwapConfig,
) -> (found: bool)
    ensures
        found == is_swap(remaining_accounts@),
{
    if remaining_accounts.len() >= 2 {
        let hook_data = &remaining_accounts[0].data;
        return hook_data.len() >= HOOK_FIELDS_LEN;
    }
    false
}

/// Reads the sample of a swap from the first account's data.
pub fn parse_raydium_swap_data(remaining_accounts: &[HookAccount]) -> (sample: Result<
    (u128, u64),
    ErrorCode,
>)
    ensures
        sample == swap_sample(remaining_accounts@),
{
    if remaining_accounts.len() == 0 {
        return Err(ErrorCode::InvalidRaydiumData);
    }
    let hook_data = &remaining_accounts[0].data;
    if hook_data.len() >= HOOK_FIELDS_LEN {
        let base_price: u128 = read_u64_le(hook_data, 0) as u128;
        let base_volume: u64 = read_u64_le(hook_data, 8);
        let swap_price = calculate_real_raydium_price(base_price, base_volume);
        let swap_volume = calculate_real_raydium_volume(base_volume);
        return pair(swap_price, swap_volume);
    }
    Err(ErrorCode::InvalidRaydiumData)
}

/// Finds out whether the accounts are those of a swap and, if so, reads its
/// sample.
pub fn detect_and_parse_raydium_swap(
    remaining_accounts: &[HookAccount],
    config: &TwapConfig,
) -> (swap: Result<Option<(u128, u64)>, ErrorCode>)
    ensures
        swap == detected_swap(remaining_accounts@),
{
    if remaining_accounts.len() < 2 {
        return Ok(None);
    }
    let is_raydium_swap = simulate_raydium_detection(remaining_accounts, config);
    if is_raydium_swap {
        return match parse_raydium_swap_data(remaining_accounts) {
            Ok(sample) => Ok(Some(sample)),
            Err(error) => Err(error),
        };
    }
    Ok(None)
}

/// Puts a price and a volume together, or hands on the first failure.
fn pair(price: Result<u128, ErrorCode>, volume: Result<u64, ErrorCode>) -> (sample: Result<
    (u128, u64),
    ErrorCode,
>)
    ensures
        sample == sample_of(price, volume),
{
    match price {
        Err(error) => Err(error),
        Ok(p) => match volume {
            Err(error) => Err(error),
            Ok(v) => Ok((p, v)),
        },
    }
}

} // verus!
