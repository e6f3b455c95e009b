//! Verified core of a virtual-goods shop with reserved inventory and online payment.

pub mod domain;
pub mod text;
pub mod decimal;
pub mod net;
pub mod error;
pub mod pagination;
pub mod payments;
pub mod config;
pub mod admin;
pub mod codec;
pub mod crypto;
pub mod security;
pub mod epay;
pub mod orders;
pub mod rate_limit;
pub mod wechatpay_notify;
pub mod notifications;
pub mod captcha;
