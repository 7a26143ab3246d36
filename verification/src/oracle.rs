//! Model of the oracle price-feed account the fixtures write.
//!
//! The environment stores a price feed as a flat account whose leading
//! fields the test fixtures fill in: a magic number, version and account
//! type, the aggregate price info, and the timestamps and slots of the
//! current and previous updates.  The functions here hold that account's
//! construction and update rules; serializing the account into bytes and
//! writing it into the environment stays with the caller.

use vstd::prelude::*;

verus! {

/// Aggregate price information of one update, as plain values.  The
/// trading status and corporate-action fields are carried as their
/// numeric discriminants.
#[derive(Debug, Clone, Copy, PartialEq, Eq, Structural)]
pub struct PriceInfoModel {
    /// The aggregate price.
    pub price: i64,
    /// The confidence interval around the price.
    pub conf: u64,
    /// Trading status of the feed.
    pub status: u32,
    /// Corporate action, if any.
    pub corp_act: u32,
    /// Slot this update was published in.
    pub pub_slot: u64,
}

/// The fields of a price-feed account that the fixtures read and write.
#[derive(Debug, Clone, Copy, PartialEq, Eq, Structural)]
pub struct PriceAccountModel {
    /// The oracle's magic number.
    pub magic: u32,
    /// Program version.
    pub ver: u32,
    /// Account type.
    pub atype: u32,
    /// Price exponent.
    pub expo: i32,
    /// Slot of the last valid aggregate price.
    pub valid_slot: u64,
    /// The aggregate price info.
    pub agg: PriceInfoModel,
    /// Unix timestamp of the aggregate price.
    pub timestamp: i64,
    /// Unix timestamp of the previous aggregate with trading status.
    pub prev_timestamp: i64,
    /// Aggregate price of the previous update with trading status.
    pub prev_price: i64,
    /// Confidence interval of the previous update with trading status.
    pub prev_conf: u64,
    /// Valid slot of the previous update.
    pub prev_slot: u64,
}

/// The oracle's magic number.
pub const ORACLE_MAGIC: u32 = 0xa1b2c3d4;

/// The account a fresh price feed is seeded with, given only its
/// aggregate info and timestamp: the oracle's magic number, version 2,
/// account type 3 (a price account), exponent 5, and fixed
/// previous-update fields; everything else zero.
pub fn price_account_for_feed(agg: PriceInfoModel, timestamp: i64) -> (r: PriceAccountModel)
    ensures
        r == (PriceAccountModel {
            magic: ORACLE_MAGIC,
            ver: 2,
            atype: 3,
            expo: 5,
            valid_slot: 0,
            agg,
            timestamp,
            prev_timestamp: 100,
            prev_price: 60,
            prev_conf: 70,
            prev_slot: 1,
        }),
{
    PriceAccountModel {
        magic: ORACLE_MAGIC,
        ver: 2,
        atype: 3,
        expo: 5,
        valid_slot: 0,
        agg,
        timestamp,
        prev_timestamp: 100,
        prev_price: 60,
        prev_conf: 70,
        prev_slot: 1,
    }
}

/// Patch an existing price-feed account in place: the aggregate info,
/// the timestamp and the valid slot are replaced; every other field is
/// kept.
pub fn apply_price_update(
    account: &mut PriceAccountModel,
    agg: PriceInfoModel,
    timestamp: i64,
    valid_slot: u64,
)
    ensures
        *final(account) == (PriceAccountModel { agg, timestamp, valid_slot, ..*old(account) }),
{
    account.agg = agg;
    account.timestamp = timestamp;
    account.valid_slot = valid_slot;
}

/// How an oracle request is served.
#[derive(Debug, Clone, Copy, PartialEq, Eq, Structural)]
pub enum OracleUpdatePlan {
    /// A whole account was supplied: write it as given.
    Replace,
    /// Aggregate info with its timestamp (and, for an update of an
    /// existing feed, the valid slot) was supplied: patch the account.
    Patch,
    /// Neither combination was supplied: the request is rejected.
    Invalid,
}

/// Decide how to serve an update of an existing feed: a whole account
/// wins; otherwise aggregate info, timestamp and valid slot must all be
/// present.
pub fn plan_oracle_update(
    has_account: bool,
    has_info: bool,
    has_timestamp: bool,
    has_valid_slot: bool,
) -> (r: OracleUpdatePlan)
    ensures
        r == if has_account {
            OracleUpdatePlan::Replace
        } else if has_info && has_timestamp && has_valid_slot {
            OracleUpdatePlan::Patch
        } else {
            OracleUpdatePlan::Invalid
        },
{
    if has_account {
        OracleUpdatePlan::Replace
    } else if has_info && has_timestamp && has_valid_slot {
        OracleUpdatePlan::Patch
    } else {
        OracleUpdatePlan::Invalid
    }
}

/// Decide how to seed a fresh feed: a whole account wins; otherwise
/// aggregate info and its timestamp must both be present.
pub fn plan_oracle_fixture(has_account: bool, has_info: bool, has_timestamp: bool) -> (r:
    OracleUpdatePlan)
    ensures
        r == if has_account {
            OracleUpdatePlan::Replace
        } else if has_info && has_timestamp {
            OracleUpdatePlan::Patch
        } else {
            OracleUpdatePlan::Invalid
        },
{
    if has_account {
        OracleUpdatePlan::Replace
    } else if has_info && has_timestamp {
        OracleUpdatePlan::Patch
    } else {
        OracleUpdatePlan::Invalid
    }
}

} // verus!
