//! Helpers for account sizing and rent top-ups.
use vstd::prelude::*;

use crate::outside::{extra_account_meta_list_size, extra_account_meta_size};
use crate::state::Address;

verus! {

/// One extra account required by a transfer hook, as plain values.
#[derive(Clone, Copy, Debug, PartialEq, Eq)]
pub struct ExtraMeta {
    pub discriminator: u8,
    pub address_config: Address,
    pub is_signer: bool,
    pub is_writable: bool,
}

/// The extra accounts of a transfer hook: the approval account, writable and
/// not signing, when there is one; otherwise none.
pub fn get_meta_list(approve_account: Option<Address>) -> (r: Vec<ExtraMeta>)
    ensures
        approve_account is None ==> r@.len() == 0,
        approve_account matches Some(a) ==> r@ == seq![
            ExtraMeta { discriminator: 0, address_config: a, is_signer: false, is_writable: true },
        ],
{
    let mut list: Vec<ExtraMeta> = Vec::new();
    if let Some(approve_account) = approve_account {
        list.push(
            ExtraMeta {
                discriminator: 0,
                address_config: approve_account,
                is_signer: false,
                is_writable: true,
            },
        );
    }
    list
}

/// Size in bytes of the account that stores the extra-account list of
/// `get_meta_list(approve_account)`: a 16-byte header and 35 bytes per entry.
pub fn get_meta_list_size(approve_account: Option<Address>) -> (r: usize)
    ensures
        approve_account is None ==> r == 16,
        approve_account is Some ==> r == 16 + extra_account_meta_size(),
{
    let list = get_meta_list(approve_account);
    match extra_account_meta_list_size(list.len()) {
        Some(size) => size,
        None => {
            proof {
                assert(false);
            }
            0
        },
    }
}

/// Lamports to transfer into an account holding `current_lamports` so that it
/// reaches the rent-exempt `minimum_balance`; `None` when nothing is missing.
pub fn lamports_to_top_up(minimum_balance: u64, current_lamports: u64) -> (r: Option<u64>)
    requires
        current_lamports <= minimum_balance,
    ensures
        current_lamports == minimum_balance ==> r is None,
        current_lamports < minimum_balance ==> r == Some((minimum_balance - current_lamports) as u64),
{
    let extra_lamports = minimum_balance - current_lamports;
    if extra_lamports > 0 {
        Some(extra_lamports)
    } else {
        None
    }
}

} // verus!
