//! Payment attempts: confirmation of trusted payments, expiration of unpaid
//! reservations and the official WeChat Pay protocol.

pub mod ledger;
pub mod service;
pub mod expiration;
pub mod wechatpay;

use vstd::prelude::*;

verus! {

/// ePay lets the merchant set no payment deadline, so inventory is reserved locally for
/// at most three minutes. A trusted payment notice that arrives later is only recorded;
/// the inventory is neither allocated again nor delivered.
pub const EPAY_RESERVATION_MINUTES: i64 = 3;

} // verus!
