//! The lifetime-tracked currency ledger: gold and gems per user, with
//! earning and spending operations.

use vstd::prelude::*;
use crate::errors::{ErrorKind, GameError};
use crate::stats::{MAX_AMOUNT, MAX_RESOURCE};

verus! {

/// Which of the two currencies an operation touches.
#[derive(Clone, Copy, Debug, PartialEq, Eq, Structural)]
pub enum CurrencyKind {
    Gold,
    Gems,
}

/// A user's currency balances, with lifetime-earned counters.
#[derive(Clone, Copy, Debug)]
pub struct UserCurrency {
    pub user_id: i64,
    pub gold: i64,
    pub gems: i64,
    pub lifetime_gold_earned: i64,
    pub lifetime_gems_earned: i64,
}

/// Mathematical view of [`UserCurrency`].
pub struct CurrencyView {
    pub user_id: int,
    pub gold: int,
    pub gems: int,
    pub lifetime_gold_earned: int,
    pub lifetime_gems_earned: int,
}

impl View for UserCurrency {
    type V = CurrencyView;

    open spec fn view(&self) -> CurrencyView {
        CurrencyView {
            user_id: self.user_id as int,
            gold: self.gold as int,
            gems: self.gems as int,
            lifetime_gold_earned: self.lifetime_gold_earned as int,
            lifetime_gems_earned: self.lifetime_gems_earned as int,
        }
    }
}

impl CurrencyView {
    pub open spec fn wf(self) -> bool {
        &&& 0 <= self.gold <= MAX_RESOURCE
        &&& 0 <= self.gems <= MAX_RESOURCE
        &&& 0 <= self.lifetime_gold_earned <= MAX_RESOURCE
        &&& 0 <= self.lifetime_gems_earned <= MAX_RESOURCE
    }
}

impl UserCurrency {
    pub open spec fn wf(&self) -> bool {
        self@.wf()
    }

    /// A fresh ledger: everything zero.
    pub fn initial(user_id: i64) -> (c: UserCurrency)
        ensures
            c@.user_id == user_id as int,
            c@.gold == 0,
            c@.gems == 0,
            c@.lifetime_gold_earned == 0,
            c@.lifetime_gems_earned == 0,
            c.wf(),
    {
        UserCurrency { user_id, gold: 0, gems: 0, lifetime_gold_earned: 0, lifetime_gems_earned: 0 }
    }
}

/// The ledger after crediting `amount` of `kind`: the balance moves by the
/// full amount, the lifetime-earned counter only by its positive part.
pub open spec fn spec_add_currency(c: CurrencyView, kind: CurrencyKind, amount: int) -> CurrencyView {
    let earned = if amount > 0 { amount } else { 0 };
    match kind {
        CurrencyKind::Gold => CurrencyView {
            gold: c.gold + amount,
            lifetime_gold_earned: c.lifetime_gold_earned + earned,
            ..c
        },
        CurrencyKind::Gems => CurrencyView {
            gems: c.gems + amount,
            lifetime_gems_earned: c.lifetime_gems_earned + earned,
            ..c
        },
    }
}

/// Credit `amount` of a currency.
pub fn add_currency(c: &UserCurrency, kind: CurrencyKind, amount: i64) -> (r: UserCurrency)
    requires
        c.wf(),
        -MAX_AMOUNT <= amount <= MAX_AMOUNT,
    ensures
        r@ == spec_add_currency(c@, kind, amount as int),
{
    let earned: i64 = if amount > 0 {
        amount
    } else {
        0
    };
    let mut r = *c;
    match kind {
        CurrencyKind::Gold => {
            r.gold = c.gold + amount;
            r.lifetime_gold_earned = c.lifetime_gold_earned + earned;
        },
        CurrencyKind::Gems => {
            r.gems = c.gems + amount;
            r.lifetime_gems_earned = c.lifetime_gems_earned + earned;
        },
    }
    r
}

/// Debit `amount` of a currency. Fails with
/// [`ErrorKind::InsufficientResource`] exactly when the balance does not
/// cover the amount; lifetime-earned counters never move on a debit.
pub fn spend_currency(
    c: &UserCurrency,
    kind: CurrencyKind,
    amount: i64,
) -> (r: Result<UserCurrency, GameError>)
    requires
        c.wf(),
        0 <= amount <= MAX_AMOUNT,
    ensures
        r is Err <==> (match kind {
            CurrencyKind::Gold => c@.gold < amount,
            CurrencyKind::Gems => c@.gems < amount,
        }),
        r matches Err(e) ==> e.kind == ErrorKind::InsufficientResource,
        r matches Ok(v) ==> v@ == (match kind {
            CurrencyKind::Gold => CurrencyView { gold: c@.gold - amount, ..c@ },
            CurrencyKind::Gems => CurrencyView { gems: c@.gems - amount, ..c@ },
        }),
{
    let mut r = *c;
    match kind {
        CurrencyKind::Gold => {
            if c.gold < amount {
                return Err(GameError::insufficient_resource(
                    String::from_str("Insufficient gold"),
                ));
            }
            r.gold = c.gold - amount;
        },
        CurrencyKind::Gems => {
            if c.gems < amount {
                return Err(GameError::insufficient_resource(
                    String::from_str("Insufficient gems"),
                ));
            }
            r.gems = c.gems - amount;
        },
    }
    Ok(r)
}

} // verus!
