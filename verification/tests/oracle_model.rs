use solana_test_framework::error::TestFrameWorkError;
use solana_test_framework::oracle::{
    apply_price_update, plan_oracle_fixture, plan_oracle_update, price_account_for_feed,
    OracleUpdatePlan, PriceInfoModel, ORACLE_MAGIC,
};

fn info(price: i64, conf: u64, pub_slot: u64) -> PriceInfoModel {
    PriceInfoModel { price, conf, status: 1, corp_act: 0, pub_slot }
}

#[test]
fn fresh_feed_carries_the_oracle_header() {
    let account = price_account_for_feed(info(10, 20, 1), 200);
    assert_eq!(account.magic, ORACLE_MAGIC);
    assert_eq!(account.magic, 0xa1b2c3d4);
    assert_eq!(account.ver, 2);
    assert_eq!(account.atype, 3);
    assert_eq!(account.expo, 5);
    assert_eq!(account.agg.price, 10);
    assert_eq!(account.agg.conf, 20);
    assert_eq!(account.timestamp, 200);
    assert_eq!(account.prev_timestamp, 100);
    assert_eq!(account.prev_price, 60);
    assert_eq!(account.prev_conf, 70);
    assert_eq!(account.prev_slot, 1);
}

#[test]
fn update_patches_only_the_aggregate_fields() {
    let mut account = price_account_for_feed(info(10, 20, 1), 200);
    apply_price_update(&mut account, info(11, 21, 54), 32, 54);
    assert_eq!(account.agg.price, 11);
    assert_eq!(account.agg.conf, 21);
    assert_eq!(account.agg.pub_slot, 54);
    assert_eq!(account.timestamp, 32);
    assert_eq!(account.valid_slot, 54);
    // everything else is untouched
    assert_eq!(account.magic, ORACLE_MAGIC);
    assert_eq!(account.ver, 2);
    assert_eq!(account.expo, 5);
    assert_eq!(account.prev_timestamp, 100);
    assert_eq!(account.prev_price, 60);
}

#[test]
fn update_requires_a_complete_request() {
    assert_eq!(plan_oracle_update(true, false, false, false), OracleUpdatePlan::Replace);
    assert_eq!(plan_oracle_update(false, true, true, true), OracleUpdatePlan::Patch);
    assert_eq!(plan_oracle_update(false, true, true, false), OracleUpdatePlan::Invalid);
    assert_eq!(plan_oracle_update(false, false, false, false), OracleUpdatePlan::Invalid);
}

#[test]
fn fixture_requires_info_and_timestamp() {
    assert_eq!(plan_oracle_fixture(true, false, false), OracleUpdatePlan::Replace);
    assert_eq!(plan_oracle_fixture(false, true, true), OracleUpdatePlan::Patch);
    assert_eq!(plan_oracle_fixture(false, true, false), OracleUpdatePlan::Invalid);
}

#[test]
fn error_carries_its_message() {
    let e = TestFrameWorkError::Error("either provide the whole account or its parts");
    assert_eq!(e.message(), "either provide the whole account or its parts");
    assert_eq!(e, TestFrameWorkError::Error("either provide the whole account or its parts"));
}
