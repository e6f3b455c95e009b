//! The application's one rate limit: order creation, counted per client address in
//! fixed windows; the client address a request is counted against; and the answer to a
//! refused request.
use vstd::prelude::*;
use vstd::string::*;
use crate::net::{IpAddress, IpNetwork, all_wf, any_network_contains, spec_any_contains};
use crate::text::{spec_split, spec_trim, split_char, strings_view, trim};

verus! {

/// Order creations (`POST /api/orders`) a client address may make per window. No other
/// endpoint is limited by the application.
pub const ORDER_CREATION_LIMIT: u32 = 5;

/// Length of an order-creation window, in seconds.
pub const ORDER_CREATION_WINDOW_SECONDS: u64 = 180;

/// The fixed window of one client address: when it started (seconds) and how many
/// order creations it admitted.
#[derive(Debug, Clone, Copy, PartialEq, Eq, Structural)]
pub struct WindowState {
    pub started_at: u64,
    pub count: u32,
}

/// Whether a request is admitted; a refused one may be retried after the given seconds.
#[derive(Debug, Clone, Copy, PartialEq, Eq, Structural)]
pub enum WindowDecision {
    Admitted,
    Refused { retry_after_seconds: u64 },
}

/// Whether a window still runs at `now`: it started no later than `now` and less than a
/// window length ago.
pub open spec fn spec_window_runs(w: WindowState, now: u64) -> bool {
    w.started_at <= now && now < w.started_at + ORDER_CREATION_WINDOW_SECONDS
}

/// The decision on an order creation at `now` and the client's window afterwards: a
/// client without a running window opens a new one and is admitted; within a running
/// window the first `ORDER_CREATION_LIMIT` requests are admitted and later ones are
/// refused until the window ends.
pub open spec fn spec_admit(state: Option<WindowState>, now: u64) -> (WindowDecision, WindowState) {
    match state {
        Some(w) => if spec_window_runs(w, now) {
            if w.count < ORDER_CREATION_LIMIT {
                (WindowDecision::Admitted, WindowState { started_at: w.started_at, count: (w.count + 1) as u32 })
            } else {
                (
                    WindowDecision::Refused {
                        retry_after_seconds: (w.started_at + ORDER_CREATION_WINDOW_SECONDS - now) as u64,
                    },
                    w,
                )
            }
        } else {
            (WindowDecision::Admitted, WindowState { started_at: now, count: 1 })
        },
        None => (WindowDecision::Admitted, WindowState { started_at: now, count: 1 }),
    }
}

/// Decides an order creation of a client at `now` (seconds), given the client's window.
pub fn admit_order_creation(state: Option<WindowState>, now: u64) -> (res: (WindowDecision, WindowState))
    requires
        now + ORDER_CREATION_WINDOW_SECONDS <= u64::MAX,
        state matches Some(w) ==> w.started_at + ORDER_CREATION_WINDOW_SECONDS <= u64::MAX,
    ensures
        res == spec_admit(state, now),
{
    match state {
        Some(w) => {
            if w.started_at <= now && now < w.started_at + ORDER_CREATION_WINDOW_SECONDS {
                if w.count < ORDER_CREATION_LIMIT {
                    (WindowDecision::Admitted, WindowState { started_at: w.started_at, count: w.count + 1 })
                } else {
                    (
                        WindowDecision::Refused {
                            retry_after_seconds: w.started_at + ORDER_CREATION_WINDOW_SECONDS - now,
                        },
                        w,
                    )
                }
            } else {
                (WindowDecision::Admitted, WindowState { started_at: now, count: 1 })
            }
        },
        None => (WindowDecision::Admitted, WindowState { started_at: now, count: 1 }),
    }
}

/// Whether a stored window may be forgotten at `now`: it no longer runs, so the next
/// request opens a new one either way.
pub fn window_ended(w: WindowState, now: u64) -> (res: bool)
    requires
        w.started_at + ORDER_CREATION_WINDOW_SECONDS <= u64::MAX,
    ensures
        res == !spec_window_runs(w, now),
        res ==> spec_admit(Some(w), now) == spec_admit(None, now),
{
    !(w.started_at <= now && now < w.started_at + ORDER_CREATION_WINDOW_SECONDS)
}

/// How many of a series of requests, made at the given times in order, are admitted.
pub open spec fn spec_admitted(state: Option<WindowState>, times: Seq<u64>) -> nat
    decreases times.len(),
{
    if times.len() == 0 {
        0
    } else {
        let (d, next) = spec_admit(state, times[0]);
        (if d is Admitted { 1nat } else { 0nat }) + spec_admitted(Some(next), times.drop_first())
    }
}

/// A window that counted at most the limit.
pub open spec fn spec_window_wf(w: WindowState) -> bool {
    w.count <= ORDER_CREATION_LIMIT
}

/// Within a running window, at most `ORDER_CREATION_LIMIT` requests in all are admitted:
/// of any series of requests made before the window ends, no more are admitted than the
/// window has left.
pub proof fn lemma_window_admits_at_most_limit(w: WindowState, times: Seq<u64>)
    requires
        spec_window_wf(w),
        forall|i: int| 0 <= i < times.len() ==> spec_window_runs(w, #[trigger] times[i]),
    ensures
        spec_admitted(Some(w), times) + w.count <= ORDER_CREATION_LIMIT,
    decreases times.len(),
{
    if times.len() > 0 {
        let (d, next) = spec_admit(Some(w), times[0]);
        assert(spec_window_runs(w, times[0]));
        assert forall|i: int| 0 <= i < times.drop_first().len() implies spec_window_runs(
            next,
            #[trigger] times.drop_first()[i],
        ) by {
            assert(times.drop_first()[i] == times[i + 1]);
            assert(spec_window_runs(w, times[i + 1]));
        }
        lemma_window_admits_at_most_limit(next, times.drop_first());
    }
}

/// Five order creations in three minutes: a client's requests within one window, counted
/// from the first that opened it, are admitted at most `ORDER_CREATION_LIMIT` times, so
/// the sixth is refused.
pub proof fn lemma_at_most_limit_per_window(times: Seq<u64>)
    requires
        times.len() > 0,
        forall|i: int| 0 <= i < times.len() ==> times[0] <= #[trigger] times[i] < times[0] + ORDER_CREATION_WINDOW_SECONDS,
    ensures
        spec_admitted(None, times) <= ORDER_CREATION_LIMIT,
{
    let first = WindowState { started_at: times[0], count: 1 };
    assert(spec_admit(None, times[0]) == (WindowDecision::Admitted, first));
    assert forall|i: int| 0 <= i < times.drop_first().len() implies spec_window_runs(
        first,
        #[trigger] times.drop_first()[i],
    ) by {
        assert(times.drop_first()[i] == times[i + 1]);
    }
    lemma_window_admits_at_most_limit(first, times.drop_first());
}

/// Whether a direct peer is a trusted proxy.
pub fn is_trusted_proxy(trusted: &[IpNetwork], ip: IpAddress) -> (res: bool)
    requires
        all_wf(trusted@),
    ensures
        res == spec_any_contains(trusted@, ip),
{
    any_network_contains(trusted, ip)
}

/// The address a request is counted against. `X-Forwarded-For` lists the chain from the
/// client to the last proxy, left to right; starting from the direct peer, each step to
/// the left is taken only while the current address is a trusted proxy. An address an
/// attacker prepends therefore never gets past the first untrusted address.
pub open spec fn spec_client_ip(trusted: Seq<IpNetwork>, current: IpAddress, hops: Seq<IpAddress>) -> IpAddress
    decreases hops.len(),
{
    if hops.len() == 0 || !spec_any_contains(trusted, current) {
        current
    } else {
        spec_client_ip(trusted, hops.last(), hops.drop_last())
    }
}

/// Resolves the client address from the direct peer and the forwarded hops.
pub fn resolve_client_ip(trusted: &[IpNetwork], peer: IpAddress, hops: &[IpAddress]) -> (ip: IpAddress)
    requires
        all_wf(trusted@),
    ensures
        ip == spec_client_ip(trusted@, peer, hops@),
{
    let mut client = peer;
    let mut i: usize = hops.len();
    assert(hops@.take(i as int) =~= hops@);
    while i > 0
        invariant
            i <= hops@.len(),
            all_wf(trusted@),
            spec_client_ip(trusted@, client, hops@.take(i as int)) == spec_client_ip(
                trusted@,
                peer,
                hops@,
            ),
        decreases i,
    {
        if !any_network_contains(trusted, client) {
            return client;
        }
        proof {
            assert(hops@.take(i as int).drop_last() =~= hops@.take(i - 1));
        }
        client = hops[i - 1];
        i = i - 1;
    }
    client
}

/// The counted address is the peer itself when the peer is not a trusted proxy; else
/// one of the forwarded hops, reached only across trusted proxies: the peer and every
/// hop to its right are trusted.
pub proof fn lemma_client_ip_crosses_only_trusted_proxies(
    trusted: Seq<IpNetwork>,
    peer: IpAddress,
    hops: Seq<IpAddress>,
)
    ensures
        !spec_any_contains(trusted, peer) ==> spec_client_ip(trusted, peer, hops) == peer,
        spec_client_ip(trusted, peer, hops) == peer || exists|i: int|
            #![trigger hops[i]]
            0 <= i < hops.len() && spec_client_ip(trusted, peer, hops) == hops[i]
                && spec_any_contains(trusted, peer) && forall|j: int|
                i < j < hops.len() ==> spec_any_contains(trusted, #[trigger] hops[j]),
    decreases hops.len(),
{
    if hops.len() > 0 && spec_any_contains(trusted, peer) {
        let last = hops.last();
        let rest = hops.drop_last();
        lemma_client_ip_crosses_only_trusted_proxies(trusted, last, rest);
        let r = spec_client_ip(trusted, peer, hops);
        if r == last {
            assert(hops[hops.len() - 1] == r);
        } else {
            let i = choose|i: int|
                #![trigger rest[i]]
                0 <= i < rest.len() && r == rest[i] && spec_any_contains(trusted, last) && forall|
                    j: int,
                |
                    i < j < rest.len() ==> spec_any_contains(trusted, #[trigger] rest[j]);
            assert(hops[i] == r);
            assert forall|j: int| i < j < hops.len() implies spec_any_contains(
                trusted,
                #[trigger] hops[j],
            ) by {
                if j < hops.len() - 1 {
                    assert(hops[j] == rest[j]);
                }
            }
        }
    }
}

/// The hop texts of the `X-Forwarded-For` header values, in order: every value split
/// at commas, each piece trimmed.
pub open spec fn spec_forwarded_hops(values: Seq<Seq<char>>) -> Seq<Seq<char>>
    decreases values.len(),
{
    if values.len() == 0 {
        Seq::empty()
    } else {
        spec_forwarded_hops(values.drop_last()) + spec_split(values.last(), ',').map_values(
            |p: Seq<char>| spec_trim(p),
        )
    }
}

/// Splits the `X-Forwarded-For` header values into trimmed hop texts; each must then
/// read as an IP address, or the header is malformed.
pub fn forwarded_hop_texts(values: &Vec<String>) -> (hops: Vec<String>)
    ensures
        strings_view(hops@) == spec_forwarded_hops(strings_view(values@)),
{
    let ghost vv = strings_view(values@);
    let mut hops: Vec<String> = Vec::new();
    let mut i: usize = 0;
    assert(vv.take(0) =~= Seq::<Seq<char>>::empty());
    while i < values.len()
        invariant
            i <= values@.len(),
            vv == strings_view(values@),
            strings_view(hops@) == spec_forwarded_hops(vv.take(i as int)),
        decreases values.len() - i,
    {
        let pieces = split_char(values[i].as_str(), ',');
        let ghost before = strings_view(hops@);
        let ghost pv = strings_view(pieces@);
        let mut k: usize = 0;
        while k < pieces.len()
            invariant
                k <= pieces@.len(),
                pv == strings_view(pieces@),
                strings_view(hops@) == before + pv.take(k as int).map_values(
                    |p: Seq<char>| spec_trim(p),
                ),
            decreases pieces.len() - k,
        {
            let t = trim(pieces[k].as_str());
            let ghost prev_hops = strings_view(hops@);
            hops.push(String::from_str(t));
            assert(pv[k as int] == pieces@[k as int]@);
            assert(strings_view(hops@) =~= prev_hops.push(spec_trim(pv[k as int])));
            assert(pv.take(k + 1) =~= pv.take(k as int).push(pv[k as int]));
            assert(strings_view(hops@) =~= before + pv.take(k + 1).map_values(
                |p: Seq<char>| spec_trim(p),
            ));
            k = k + 1;
        }
        proof {
            assert(pv.take(pieces@.len() as int) =~= pv);
            assert(vv.take(i + 1).drop_last() =~= vv.take(i as int));
            assert(vv.take(i + 1).last() == values@[i as int]@);
        }
        i = i + 1;
    }
    assert(vv.take(values@.len() as int) =~= vv);
    hops
}

/// Why a request was refused.
#[derive(Debug, Clone, Copy, PartialEq, Eq, Structural)]
pub enum RejectionKind {
    /// The client's window is full; a new one opens after this many seconds.
    QuotaExceeded { wait_seconds: u64 },
    /// The forwarding header is malformed, missing, or comes from an untrusted proxy.
    InvalidForwarding,
    /// The connection's address is unknown, or another failure.
    ClientIpUnavailable,
}

/// The answer to a refused request: HTTP status and the fields of its JSON body.
#[derive(Debug)]
pub struct RejectionReply {
    pub status: u16,
    pub error: String,
    pub rate_limit_scope: String,
    pub retry_after_seconds: Option<u64>,
}

/// Answers a refused request of the group `scope`: 429 with the seconds to wait (at
/// least one) when the quota is spent; 400 for bad forwarding metadata; 500 when the
/// client address cannot be determined.
pub fn rejection_reply(scope: &str, reason: RejectionKind) -> (r: RejectionReply)
    ensures
        r.rate_limit_scope@ == scope@,
        match reason {
            RejectionKind::QuotaExceeded { wait_seconds } => {
                &&& r.status == 429
                &&& r.error@ == "too_many_requests"@
                &&& r.retry_after_seconds == Some(if wait_seconds < 1 { 1u64 } else { wait_seconds })
            },
            RejectionKind::InvalidForwarding => {
                &&& r.status == 400
                &&& r.error@ == "invalid client IP forwarding metadata"@
                &&& r.retry_after_seconds is None
            },
            RejectionKind::ClientIpUnavailable => {
                &&& r.status == 500
                &&& r.error@ == "unable to determine client IP"@
                &&& r.retry_after_seconds is None
            },
        },
{
    match reason {
        RejectionKind::QuotaExceeded { wait_seconds } => RejectionReply {
            status: 429,
            error: String::from_str("too_many_requests"),
            rate_limit_scope: String::from_str(scope),
            retry_after_seconds: Some(if wait_seconds < 1 { 1 } else { wait_seconds }),
        },
        RejectionKind::InvalidForwarding => RejectionReply {
            status: 400,
            error: String::from_str("invalid client IP forwarding metadata"),
            rate_limit_scope: String::from_str(scope),
            retry_after_seconds: None,
        },
        RejectionKind::ClientIpUnavailable => RejectionReply {
            status: 500,
            error: String::from_str("unable to determine client IP"),
            rate_limit_scope: String::from_str(scope),
            retry_after_seconds: None,
        },
    }
}

} // verus!
