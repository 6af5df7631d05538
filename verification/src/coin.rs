//! Coins and the single scan that picks the coin to pay from.

use vstd::prelude::*;
use vstd::string::StringExecFns;
use crate::ids::ObjectId;
use crate::response::{StructTag, StructTagView};

verus! {

/// A fungible-token holding as the ledger reported it: a snapshot that the
/// client never changes.
#[derive(Clone, Debug, PartialEq, Eq)]
pub struct Coin {
    pub coin_type: String,
    pub coin_object_id: ObjectId,
    pub balance: u64,
}

/// The mathematical value of a [`Coin`].
pub struct CoinView {
    pub coin_type: Seq<char>,
    pub coin_object_id: ObjectId,
    pub balance: u64,
}

impl View for Coin {
    type V = CoinView;

    open spec fn view(&self) -> CoinView {
        CoinView {
            coin_type: self.coin_type@,
            coin_object_id: self.coin_object_id,
            balance: self.balance,
        }
    }
}

impl DeepView for Coin {
    type V = CoinView;

    open spec fn deep_view(&self) -> CoinView {
        self@
    }
}

/// The address of the package that defines the coin type.
pub open spec fn framework_address() -> ObjectId {
    ObjectId { hi: 0, lo: 2 }
}

/// The name of the module that defines the coin type.
pub open spec fn coin_module_name() -> Seq<char> {
    seq!['c', 'o', 'i', 'n']
}

/// The name of the coin type in its module.
pub open spec fn coin_struct_name() -> Seq<char> {
    seq!['C', 'o', 'i', 'n']
}

/// `tag` is the coin type of the framework package, whatever token it holds.
pub open spec fn is_coin_type(tag: StructTagView) -> bool {
    &&& tag.address == framework_address()
    &&& tag.module == coin_module_name()
    &&& tag.name == coin_struct_name()
}

/// `tag` is the type of a coin that holds the token `coin_type`: the coin type
/// with `coin_type` as its first type argument.
pub open spec fn is_coin_of(tag: StructTagView, coin_type: Seq<char>) -> bool {
    &&& is_coin_type(tag)
    &&& tag.type_params.len() > 0
    &&& tag.type_params[0] == coin_type
}

impl Coin {
    /// Whether `tag` is the coin type of the framework package.
    pub fn is_coin(tag: &StructTag) -> (yes: bool)
        ensures
            yes == is_coin_type(tag@),
    {
        proof {
            reveal_strlit("coin");
            reveal_strlit("Coin");
        }
        assert("coin"@ =~= coin_module_name());
        assert("Coin"@ =~= coin_struct_name());
        tag.address.hi == 0 && tag.address.lo == 2 && tag.module == String::from_str("coin")
            && tag.name == String::from_str("Coin")
    }

    /// Whether `tag` is the type of a coin that holds the token `coin_type`.
    /// A coin type without a type argument holds no token.
    pub fn is_coin_of(tag: &StructTag, coin_type: &String) -> (yes: bool)
        ensures
            yes == is_coin_of(tag@, coin_type@),
    {
        Coin::is_coin(tag) && tag.type_params.len() > 0 && tag.type_params[0] == *coin_type
    }
}

/// What one pass over a coin list found: the position of the first coin whose
/// balance is exactly the amount, and the position of the last coin before it
/// (or in the whole list, if there is none) whose balance is larger.
#[derive(Clone, Copy, Debug, PartialEq, Eq, Structural)]
pub struct CoinScan {
    pub equal: Option<usize>,
    pub greater: Option<usize>,
}

/// `i` is the first position in `coins` whose balance is exactly `amount`.
pub open spec fn is_first_exact(coins: Seq<CoinView>, amount: u64, i: int) -> bool {
    &&& 0 <= i < coins.len()
    &&& coins[i].balance == amount
    &&& forall|j: int| 0 <= j < i ==> (#[trigger] coins[j]).balance != amount
}

/// `i` is the last position in `coins` whose balance is larger than `amount`.
pub open spec fn is_last_greater(coins: Seq<CoinView>, amount: u64, i: int) -> bool {
    &&& 0 <= i < coins.len()
    &&& coins[i].balance > amount
    &&& forall|j: int| i < j < coins.len() ==> (#[trigger] coins[j]).balance <= amount
}

/// No coin in `coins` has a balance of exactly `amount`.
pub open spec fn no_exact(coins: Seq<CoinView>, amount: u64) -> bool {
    forall|j: int| 0 <= j < coins.len() ==> (#[trigger] coins[j]).balance != amount
}

/// No coin in `coins` has a balance larger than `amount`.
pub open spec fn no_greater(coins: Seq<CoinView>, amount: u64) -> bool {
    forall|j: int| 0 <= j < coins.len() ==> (#[trigger] coins[j]).balance <= amount
}

/// The number of coins that a scan for `amount` looks at: it stops on the first
/// exact match.
pub open spec fn scanned_len(coins: Seq<CoinView>, amount: u64, equal: Option<usize>) -> int {
    match equal {
        Some(i) => i as int,
        None => coins.len() as int,
    }
}

/// `scan` is what a scan of `coins` for `amount` finds.
pub open spec fn is_scan_of(scan: CoinScan, coins: Seq<CoinView>, amount: u64) -> bool {
    let seen = coins.take(scanned_len(coins, amount, scan.equal));
    &&& match scan.equal {
        Some(i) => is_first_exact(coins, amount, i as int),
        None => no_exact(coins, amount),
    }
    &&& match scan.greater {
        Some(i) => is_last_greater(seen, amount, i as int),
        None => no_greater(seen, amount),
    }
}

/// Scans `coins` once for `amount`. The scan ends at the first coin whose
/// balance is exactly `amount`; among the coins before that point, a later coin
/// with a larger balance replaces an earlier one.
pub fn scan_coins(coins: &Vec<Coin>, amount: u64) -> (scan: CoinScan)
    ensures
        is_scan_of(scan, coins.deep_view(), amount),
{
    let mut equal: Option<usize> = None;
    let mut greater: Option<usize> = None;
    let mut i: usize = 0;
    while i < coins.len()
        invariant_except_break
            equal is None,
        invariant
            i <= coins.len(),
            match greater {
                Some(g) => is_last_greater(coins.deep_view().take(i as int), amount, g as int),
                None => no_greater(coins.deep_view().take(i as int), amount),
            },
            forall|j: int| 0 <= j < i ==> (#[trigger] coins.deep_view()[j]).balance != amount,
        ensures
            is_scan_of(CoinScan { equal, greater }, coins.deep_view(), amount),
        decreases coins.len() - i,
    {
        let balance: u64 = coins[i].balance;
        if balance == amount {
            equal = Some(i);
            break;
        } else if balance > amount {
            greater = Some(i);
        }
        i = i + 1;
    }
    CoinScan { equal, greater }
}

} // verus!
