use qddxp::config::parse_trusted_proxy_cidrs;
use qddxp::net::{IpAddress, IpNetwork, network_contains};
use qddxp::rate_limit::{
    ORDER_CREATION_LIMIT, ORDER_CREATION_WINDOW_SECONDS, RejectionKind, WindowDecision, WindowState,
    admit_order_creation, forwarded_hop_texts, is_trusted_proxy, rejection_reply, resolve_client_ip,
    window_ended,
};

fn v4(a: u8, b: u8, c: u8, d: u8) -> IpAddress {
    IpAddress::V4(u32::from_be_bytes([a, b, c, d]))
}

fn cidr(text: &str) -> IpNetwork {
    parse_trusted_proxy_cidrs(Some(text)).unwrap()[0]
}

fn trusted() -> Vec<IpNetwork> {
    vec![cidr("10.0.0.0/8"), cidr("127.0.0.1/32")]
}

#[test]
fn untrusted_peer_is_the_client() {
    let t = trusted();
    let peer = v4(203, 0, 113, 9);
    assert_eq!(resolve_client_ip(&t, peer, &[v4(1, 2, 3, 4)]), peer);
}

#[test]
fn forwarded_chain_is_walked_only_across_trusted_proxies() {
    let t = trusted();
    let spoofed = v4(6, 6, 6, 6);
    let client = v4(198, 51, 100, 7);
    let proxy = v4(10, 1, 2, 3);
    // client -> proxy -> peer(127.0.0.1); the attacker prepended a spoofed address.
    let hops = [spoofed, client, proxy];
    assert_eq!(resolve_client_ip(&t, v4(127, 0, 0, 1), &hops), client);
    // Every hop trusted: the leftmost hop is the client.
    assert_eq!(resolve_client_ip(&t, v4(127, 0, 0, 1), &[v4(10, 0, 0, 2)]), v4(10, 0, 0, 2));
    assert_eq!(resolve_client_ip(&t, v4(127, 0, 0, 1), &[]), v4(127, 0, 0, 1));
}

#[test]
fn networks_match_by_prefix() {
    let net = cidr("10.0.0.0/8");
    assert!(network_contains(&net, v4(10, 255, 0, 1)));
    assert!(!network_contains(&net, v4(11, 0, 0, 1)));
    assert!(!network_contains(&net, IpAddress::V6(1)));
    let all = cidr("0.0.0.0/0");
    assert!(network_contains(&all, v4(8, 8, 8, 8)));
    let v6 = cidr("2001:db8::/32");
    assert!(network_contains(&v6, IpAddress::V6(0x2001_0db8_0000_0000_0000_0000_0000_0001)));
    assert!(is_trusted_proxy(&trusted(), v4(127, 0, 0, 1)));
    assert!(!is_trusted_proxy(&trusted(), v4(127, 0, 0, 2)));
}

#[test]
fn forwarded_header_values_split_into_trimmed_hops() {
    let hops = forwarded_hop_texts(&vec!["1.1.1.1, 2.2.2.2".to_string(), " 3.3.3.3 ".to_string()]);
    assert_eq!(hops, vec!["1.1.1.1", "2.2.2.2", "3.3.3.3"]);
    assert_eq!(forwarded_hop_texts(&vec![]).len(), 0);
}

#[test]
fn order_creation_is_limited_to_five_per_three_minutes() {
    assert_eq!((ORDER_CREATION_LIMIT, ORDER_CREATION_WINDOW_SECONDS), (5, 180));
    let mut state = None;
    for t in [1000u64, 1001, 1050, 1100, 1179] {
        let (decision, next) = admit_order_creation(state, t);
        assert_eq!(decision, WindowDecision::Admitted);
        state = Some(next);
    }
    assert_eq!(state, Some(WindowState { started_at: 1000, count: 5 }));
    // The sixth request within the window is refused until the window ends.
    let (decision, next) = admit_order_creation(state, 1179);
    assert_eq!(decision, WindowDecision::Refused { retry_after_seconds: 1 });
    assert_eq!(next, WindowState { started_at: 1000, count: 5 });
    assert!(!window_ended(next, 1179));
    // A fixed window: the next one opens at the first request after it ended.
    assert!(window_ended(next, 1180));
    let (decision, next) = admit_order_creation(Some(next), 1180);
    assert_eq!(decision, WindowDecision::Admitted);
    assert_eq!(next, WindowState { started_at: 1180, count: 1 });
}

#[test]
fn rejections_are_answered_per_reason() {
    let r = rejection_reply("order_creation", RejectionKind::QuotaExceeded { wait_seconds: 0 });
    assert_eq!((r.status, r.error.as_str(), r.retry_after_seconds), (429, "too_many_requests", Some(1)));
    let r = rejection_reply("x", RejectionKind::QuotaExceeded { wait_seconds: 12 });
    assert_eq!(r.retry_after_seconds, Some(12));
    let r = rejection_reply("x", RejectionKind::InvalidForwarding);
    assert_eq!((r.status, r.error.as_str()), (400, "invalid client IP forwarding metadata"));
    let r = rejection_reply("x", RejectionKind::ClientIpUnavailable);
    assert_eq!((r.status, r.error.as_str()), (500, "unable to determine client IP"));
    assert_eq!(r.rate_limit_scope, "x");
}
