//! Calls into the Solana token crates and the Switchboard feed crate, with the contracts this library relies on.
use vstd::prelude::*;

use crate::oracle::{spec_feed_read, feed_value_defined, FeedReadError};
use crate::state::Address;
use switchboard_on_demand::on_demand::accounts::pull_feed::PullFeedAccountData;

verus! {

/// Address of the associated token account of `wallet` for `mint` under
/// `token_program`: the program address derived from the seeds
/// `[wallet, token_program, mint]` under the associated-token program, or `None`
/// when no bump seed yields an address off the curve.
pub uninterp spec fn spec_associated_token_address(
    wallet: [u8; 32],
    mint: [u8; 32],
    token_program: [u8; 32],
) -> Option<[u8; 32]>;

/// Calls `Pubkey::try_find_program_address` with the seeds and program id that
/// `anchor_spl::associated_token::get_associated_token_address_with_program_id`
/// uses, keeping the address and dropping the bump. The contract claims only that
/// the result is a function of the three addresses, named
/// `spec_associated_token_address`; the outside function returns `None` instead of
/// panicking when no bump seed works.
#[verifier::external_body]
pub(crate) fn associated_token_address(wallet: &Address, mint: &Address, token_program: &Address) -> (r:
    Option<Address>)
    ensures
        r == spec_associated_token_address(*wallet, *mint, *token_program),
{
    anchor_lang::prelude::Pubkey::try_find_program_address(
        &[&wallet[..], &token_program[..], &mint[..]],
        &anchor_spl::associated_token::ID,
    ).map(|found| found.0.to_bytes())
}

/// Bytes taken by one `ExtraAccountMeta`: a discriminator byte, a 32-byte
/// address configuration and two boolean bytes.
pub open spec fn extra_account_meta_size() -> int {
    35
}

/// Calls `spl_tlv_account_resolution::state::ExtraAccountMetaList::size_of`.
/// Its source computes an 8-byte discriminator plus a 4-byte length, added with
/// saturation to `35 * num_items + 4` (the list's own length prefix); the latter
/// is computed with checked arithmetic, and overflow there is the only error,
/// mapped here to `None`.
#[verifier::external_body]
pub(crate) fn extra_account_meta_list_size(num_items: usize) -> (r: Option<usize>)
    ensures
        extra_account_meta_size() * num_items + 4 <= usize::MAX ==> r == Some(
            if 12 + extra_account_meta_size() * num_items + 4 <= usize::MAX {
                (12 + extra_account_meta_size() * num_items + 4) as usize
            } else {
                usize::MAX
            },
        ),
        extra_account_meta_size() * num_items + 4 > usize::MAX ==> r is None,
{
    spl_tlv_account_resolution::state::ExtraAccountMetaList::size_of(num_items).ok()
}

/// Fields of a Switchboard pull-feed account as its bytes `data` hold them, or
/// `None` when the bytes do not parse as one: the maximum staleness in slots,
/// the slot and raw value of the current result, and the time of the last update.
pub uninterp spec fn spec_pull_feed_fields(data: Seq<u8>) -> Option<(u32, u64, i128, i64)>;

/// Calls `PullFeedAccountData::parse` on a copy of `data` laid out as account
/// memory is (the struct after the 8-byte discriminator suitably aligned), and
/// reads four fields of the result. The contract claims only that the outcome is
/// a function of the bytes, named `spec_pull_feed_fields`.
#[verifier::external_body]
pub(crate) fn pull_feed_fields(data: &[u8]) -> (r: Option<(u32, u64, i128, i64)>)
    ensures
        r == spec_pull_feed_fields(data@),
{
    let padded = [&[0u8; 8][..], data].concat();
    let mut buf = vec![0u128; padded.len()];
    let bytes: &mut [u8] = bytemuck::cast_slice_mut(&mut buf);
    bytes[..padded.len()].copy_from_slice(&padded);
    let cell = std::cell::RefCell::new(&mut bytes[8..padded.len()]);
    let feed = PullFeedAccountData::parse(cell.borrow()).ok()?;
    Some((feed.max_staleness, feed.result.slot, feed.result.value, feed.last_update_timestamp))
}

/// Calls `PullFeedAccountData::value` at `slot` on the account parsed as in
/// `pull_feed_fields`, returning the mantissa and scale of the value and the
/// time of the last update. Its source returns a stale-result error when the
/// result's slot is zero or older than `slot - max_staleness`, and otherwise the
/// raw value at scale 18. It panics when `slot < max_staleness` (the subtraction
/// underflows) and when the raw value exceeds the 96-bit mantissa of a `Decimal`;
/// `feed_value_defined` leaves those inputs out.
#[verifier::external_body]
pub(crate) fn pull_feed_value(data: &[u8], slot: u64) -> (r: Result<(i128, u32, i64), FeedReadError>)
    requires
        feed_value_defined(data@, slot),
    ensures
        r == spec_feed_read(data@, slot),
{
    let padded = [&[0u8; 8][..], data].concat();
    let mut buf = vec![0u128; padded.len()];
    let bytes: &mut [u8] = bytemuck::cast_slice_mut(&mut buf);
    bytes[..padded.len()].copy_from_slice(&padded);
    let cell = std::cell::RefCell::new(&mut bytes[8..padded.len()]);
    let feed = match PullFeedAccountData::parse(cell.borrow()) {
        Ok(f) => f,
        Err(_) => return Err(FeedReadError::Parse),
    };
    match feed.value(slot) {
        Ok(v) => Ok((v.mantissa(), v.scale(), feed.last_update_timestamp)),
        Err(_) => Err(FeedReadError::Value),
    }
}

} // verus!
