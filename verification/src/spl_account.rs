use vstd::prelude::*;

use crate::address::Address;
use crate::error::ErrorCode;
use anchor_spl::token_2022::spl_token_2022::extension::BaseStateWithExtensions;

verus! {

/// A token vault as the price resolver reads it: the mint it holds and its
/// current balance, taken from one snapshot of the account's bytes.
#[derive(Clone, Copy, Debug, PartialEq, Eq)]
pub struct VaultAccount {
    pub mint: Address,
    pub amount: u64,
}

/// A 64-bit integer read little-endian from eight bytes.
pub open spec fn u64_from_le_bytes(s: Seq<u8>) -> u64
    recommends
        s.len() == 8,
{
    (s[0] + s[1] * 0x100 + s[2] * 0x1_0000 + s[3] * 0x100_0000 + s[4] * 0x1_0000_0000 + s[5]
        * 0x100_0000_0000 + s[6] * 0x1_0000_0000_0000 + s[7] * 0x100_0000_0000_0000) as u64
}

/// Whether the token standard accepts this byte image as an initialized
/// token account (base layout plus any well-formed extension records).
pub uninterp spec fn spl_token_account_accepted(data: Seq<u8>) -> bool;

/// Relies on `anchor_spl::token_interface::TokenAccount::try_deserialize`,
/// which unpacks the image through the token standard
/// (`StateWithExtensions::<Account>::unpack`): the base record is 165 bytes,
/// the mint sits in bytes 0..32 and the balance little-endian in bytes
/// 64..72, and the call accepts or refuses an image by its content alone.
#[verifier::external_body]
pub fn parse_token_account(data: &Vec<u8>) -> (r: Option<VaultAccount>)
    ensures
        r is Some <==> spl_token_account_accepted(data@),
        r is Some ==> data@.len() >= 165 && r->Some_0.mint@ == data@.subrange(0, 32)
            && r->Some_0.amount == u64_from_le_bytes(data@.subrange(64, 72)),
{
    let mut buf: &[u8] = data.as_slice();
    let parsed = <anchor_spl::token_interface::TokenAccount as anchor_lang::AccountDeserialize>::try_deserialize(
        &mut buf,
    );
    match parsed {
        Ok(acc) => Some(
            VaultAccount { mint: Address { bytes: acc.mint.to_bytes() }, amount: acc.amount },
        ),
        Err(_) => None,
    }
}

/// Whether the token standard accepts this byte image as an initialized
/// mint (base record plus any well-formed extension records).
pub uninterp spec fn spl_mint_accepted(data: Seq<u8>) -> bool;

/// What the token standard's transfer-fee extension charges on `amount` in
/// `epoch` for the mint whose account image is `data`; `None` where the
/// computed charge leaves the 64-bit range.
pub uninterp spec fn mint_epoch_transfer_fee(data: Seq<u8>, epoch: u64, amount: u64) -> Option<
    u64,
>;

/// The transfer-fee charge as the library's callers see it: an unreadable
/// mint is invalid input, a charge out of the 64-bit range is overflow.
pub open spec fn spec_transfer_fee(data: Seq<u8>, epoch: u64, amount: u64) -> Result<
    u64,
    ErrorCode,
> {
    if !spl_mint_accepted(data) {
        Err(ErrorCode::InvalidInput)
    } else {
        match mint_epoch_transfer_fee(data, epoch, amount) {
            Some(fee) => Ok(fee),
            None => Err(ErrorCode::MathOverflow),
        }
    }
}

/// Relies on the token standard's mint unpacking
/// (`StateWithExtensions::<Mint>::unpack`, which accepts or refuses an
/// image by its content alone) and `TransferFeeConfig::calculate_epoch_fee`
/// (a pure function of the mint image, the epoch and the amount): a mint
/// without the extension charges nothing, and the charge on a zero amount
/// is zero.
#[verifier::external_body]
pub fn get_transfer_fee(mint_data: &Vec<u8>, epoch: u64, amount: u64) -> (r: Result<u64, ErrorCode>)
    ensures
        r == (if !spl_mint_accepted(mint_data@) {
            Err::<u64, ErrorCode>(ErrorCode::InvalidInput)
        } else {
            match mint_epoch_transfer_fee(mint_data@, epoch, amount) {
                Some(fee) => Ok::<u64, ErrorCode>(fee),
                None => Err::<u64, ErrorCode>(ErrorCode::MathOverflow),
            }
        }),
        r is Ok && amount == 0 ==> r->Ok_0 == 0,
{
    let state = anchor_spl::token_2022::spl_token_2022::extension::StateWithExtensions::<
        anchor_spl::token_2022::spl_token_2022::state::Mint,
    >::unpack(mint_data.as_slice());
    match state {
        Ok(mint) => match mint.get_extension::<
            anchor_spl::token_2022::spl_token_2022::extension::transfer_fee::TransferFeeConfig,
        >() {
            Ok(cfg) => match cfg.calculate_epoch_fee(epoch, amount) {
                Some(fee) => Ok(fee),
                None => Err(ErrorCode::MathOverflow),
            },
            Err(_) => Ok(0),
        },
        Err(_) => Err(ErrorCode::InvalidInput),
    }
}

} // verus!
