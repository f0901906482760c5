//! The value model: a monetary amount tied either to the host's native
//! currency or to a specific fungible-token contract, together with the
//! attached-funds records of a request and the transfer instructions the
//! engine emits.

use vstd::prelude::*;

verus! {

/// The kind of a monetary value: a native-currency denomination or a
/// fungible-token contract.
#[derive(Debug)]
pub enum AssetInfo {
    NativeToken { denom: String },
    Token { contract_addr: String },
}

/// An amount of one asset kind.
#[derive(Debug)]
pub struct Asset {
    pub info: AssetInfo,
    pub amount: u128,
}

/// One native-currency amount attached to a request by its caller.
#[derive(Debug)]
pub struct Coin {
    pub denom: String,
    pub amount: u128,
}

/// One transfer the host is instructed to carry out on behalf of the
/// engine: either funds moving to a recipient, or the item itself.
#[derive(Debug)]
pub enum TransferInstruction {
    Fund { asset: Asset, recipient: String },
    Item { nft_address: String, token_id: String, recipient: String },
}

/// Two asset kinds are the same: both native with the same denomination,
/// or both the same token contract.
pub open spec fn asset_info_eq(a: AssetInfo, b: AssetInfo) -> bool {
    match (a, b) {
        (AssetInfo::NativeToken { denom: x }, AssetInfo::NativeToken { denom: y }) => x@ == y@,
        (AssetInfo::Token { contract_addr: x }, AssetInfo::Token { contract_addr: y }) => (
            x@ == y@
        ),
        _ => false,
    }
}

/// Two assets are equal: the same kind and the same amount.
pub open spec fn asset_eq(a: Asset, b: Asset) -> bool {
    asset_info_eq(a.info, b.info) && a.amount == b.amount
}

/// The first attached coin of the given denomination, if any.
pub open spec fn spec_first_coin(funds: Seq<Coin>, denom: Seq<char>) -> Option<Coin>
    decreases funds.len(),
{
    if funds.len() == 0 {
        None
    } else if funds[0].denom@ == denom {
        Some(funds[0])
    } else {
        spec_first_coin(funds.drop_first(), denom)
    }
}

/// A native asset exactly matches what the caller attached: the first coin
/// of its denomination carries exactly its amount, and a missing coin
/// counts as zero. Token assets are not checked against attached funds.
pub open spec fn native_funds_match(asset: Asset, funds: Seq<Coin>) -> bool {
    match asset.info {
        AssetInfo::NativeToken { denom } => match spec_first_coin(funds, denom@) {
            Some(c) => c.amount == asset.amount,
            None => asset.amount == 0,
        },
        AssetInfo::Token { .. } => true,
    }
}

impl Clone for AssetInfo {
    fn clone(&self) -> (res: Self)
        ensures
            res == *self,
    {
        match self {
            AssetInfo::NativeToken { denom } => AssetInfo::NativeToken { denom: denom.clone() },
            AssetInfo::Token { contract_addr } => AssetInfo::Token {
                contract_addr: contract_addr.clone(),
            },
        }
    }
}

impl Clone for Asset {
    fn clone(&self) -> (res: Self)
        ensures
            res == *self,
    {
        Asset { info: self.info.clone(), amount: self.amount }
    }
}

impl Clone for Coin {
    fn clone(&self) -> (res: Self)
        ensures
            res == *self,
    {
        Coin { denom: self.denom.clone(), amount: self.amount }
    }
}

impl Clone for TransferInstruction {
    fn clone(&self) -> (res: Self)
        ensures
            res == *self,
    {
        match self {
            TransferInstruction::Fund { asset, recipient } => TransferInstruction::Fund {
                asset: asset.clone(),
                recipient: recipient.clone(),
            },
            TransferInstruction::Item { nft_address, token_id, recipient } => (
                TransferInstruction::Item {
                    nft_address: nft_address.clone(),
                    token_id: token_id.clone(),
                    recipient: recipient.clone(),
                }
            ),
        }
    }
}

impl PartialEq for AssetInfo {
    fn eq(&self, other: &Self) -> (r: bool) {
        match (self, other) {
            (AssetInfo::NativeToken { denom: x }, AssetInfo::NativeToken { denom: y }) => *x == *y,
            (AssetInfo::Token { contract_addr: x }, AssetInfo::Token { contract_addr: y }) => (
                *x == *y
            ),
            _ => false,
        }
    }
}

impl vstd::std_specs::cmp::PartialEqSpecImpl for AssetInfo {
    open spec fn obeys_eq_spec() -> bool {
        true
    }

    open spec fn eq_spec(&self, other: &Self) -> bool {
        asset_info_eq(*self, *other)
    }
}

impl PartialEq for Asset {
    fn eq(&self, other: &Self) -> (r: bool) {
        self.info == other.info && self.amount == other.amount
    }
}

impl vstd::std_specs::cmp::PartialEqSpecImpl for Asset {
    open spec fn obeys_eq_spec() -> bool {
        true
    }

    open spec fn eq_spec(&self, other: &Self) -> bool {
        asset_eq(*self, *other)
    }
}

/// Two transfer instructions are equal: the same shape with the same
/// asset, addresses and item.
pub open spec fn instruction_eq(a: TransferInstruction, b: TransferInstruction) -> bool {
    match (a, b) {
        (
            TransferInstruction::Fund { asset: xa, recipient: xr },
            TransferInstruction::Fund { asset: ya, recipient: yr },
        ) => asset_eq(xa, ya) && xr@ == yr@,
        (
            TransferInstruction::Item { nft_address: xn, token_id: xt, recipient: xr },
            TransferInstruction::Item { nft_address: yn, token_id: yt, recipient: yr },
        ) => xn@ == yn@ && xt@ == yt@ && xr@ == yr@,
        _ => false,
    }
}

impl PartialEq for TransferInstruction {
    fn eq(&self, other: &Self) -> (r: bool) {
        match (self, other) {
            (
                TransferInstruction::Fund { asset: xa, recipient: xr },
                TransferInstruction::Fund { asset: ya, recipient: yr },
            ) => *xa == *ya && *xr == *yr,
            (
                TransferInstruction::Item { nft_address: xn, token_id: xt, recipient: xr },
                TransferInstruction::Item { nft_address: yn, token_id: yt, recipient: yr },
            ) => *xn == *yn && *xt == *yt && *xr == *yr,
            _ => false,
        }
    }
}

impl vstd::std_specs::cmp::PartialEqSpecImpl for TransferInstruction {
    open spec fn obeys_eq_spec() -> bool {
        true
    }

    open spec fn eq_spec(&self, other: &Self) -> bool {
        instruction_eq(*self, *other)
    }
}

/// The first attached coin with the asked-for denomination.
fn first_coin<'a>(funds: &'a Vec<Coin>, denom: &String) -> (r: Option<&'a Coin>)
    ensures
        match r {
            Some(c) => spec_first_coin(funds@, denom@) == Some(*c),
            None => spec_first_coin(funds@, denom@) is None,
        },
{
    let n: usize = funds.len();
    let mut i: usize = 0;
    proof {
        assert(funds@.skip(0) =~= funds@);
    }
    while i < n
        invariant
            0 <= i <= n,
            n == funds@.len(),
            spec_first_coin(funds@, denom@) == spec_first_coin(funds@.skip(i as int), denom@),
        decreases n - i,
    {
        proof {
            assert(funds@.skip(i as int)[0] == funds@[i as int]);
        }
        if funds[i].denom == *denom {
            return Some(&funds[i]);
        }
        proof {
            assert(funds@.skip(i as int).drop_first() =~= funds@.skip(i as int + 1));
        }
        i = i + 1;
    }
    proof {
        assert(funds@.skip(n as int).len() == 0);
    }
    None
}

/// Whether a native asset exactly matches the funds attached to the
/// request; token assets always pass. The executable mirror of
/// [`native_funds_match`].
pub fn native_balance_matches(asset: &Asset, funds: &Vec<Coin>) -> (r: bool)
    ensures
        r == native_funds_match(*asset, funds@),
{
    match &asset.info {
        AssetInfo::NativeToken { denom } => match first_coin(funds, denom) {
            Some(c) => c.amount == asset.amount,
            None => asset.amount == 0,
        },
        AssetInfo::Token { .. } => true,
    }
}

} // verus!
