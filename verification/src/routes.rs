//! The discovery server's request handlers, as functions from the request
//! (and the server's store) to the answer.
use vstd::prelude::*;
use vstd::string::*;
use crate::structures::{IpAddr, DiscoveryRequest, DiscoveryRequestView, DiscoveryResponse, DiscoveryResponseView, Status};
use crate::discovery::{Advertisement, AdvertisementView, DiscoveryQueue, cleaned};

verus! {

/// How long an advertisement placed by [`discover`] stays valid, in milliseconds.
pub const ADVERTISEMENT_LIFETIME_MS: u64 = 5000;

/// The answer to `GET /`.
pub fn home() -> (r: String)
    ensures
        r@ == "Hello Jabacat!"@,
{
    String::from_str("Hello Jabacat!")
}

/// The JSON body of `GET /info` for a given message of the day and version.
pub open spec fn info_json(motd: Seq<char>, version: Seq<char>) -> Seq<char> {
    "{\"motd\":\""@ + motd + "\",\"version\":\""@ + version + "\",\"acceptingrequests\":true}"@
}

/// The value of an optional string, or `default` when it is absent.
pub open spec fn str_or(o: Option<&str>, default: Seq<char>) -> Seq<char> {
    match o {
        Some(s) => s@,
        None => default,
    }
}

/// The answer to `GET /info`: the message of the day (`motd`) and the
/// server's version, each replaced by a fixed text when it was not configured.
pub fn info(motd: Option<&str>, version: Option<&str>) -> (r: String)
    ensures
        r@ == info_json(
            str_or(motd, "Set an MOTD with the RCLC_DISCOVERY_MOTD environment variable"@),
            str_or(version, "unknown"@),
        ),
{
    let m: &str = match motd {
        Some(m) => m,
        None => "Set an MOTD with the RCLC_DISCOVERY_MOTD environment variable",
    };
    let v: &str = match version {
        Some(v) => v,
        None => "unknown",
    };
    let mut out = String::from_str("{\"motd\":\"");
    out.append(m);
    out.append("\",\"version\":\"");
    out.append(v);
    out.append("\",\"acceptingrequests\":true}");
    out
}

/// The request with its address filled in from the connection when the
/// requester did not give one.
pub open spec fn with_ip(req: DiscoveryRequestView, remote: Option<IpAddr>) -> DiscoveryRequestView {
    if req.ip is None {
        DiscoveryRequestView { ip: remote, ..req }
    } else {
        req
    }
}

/// The advertisement that a request placed at time `now` becomes.
pub open spec fn placed(req: DiscoveryRequestView, now: u64) -> AdvertisementView {
    AdvertisementView { discovery: req, created_at: now, expires_in: ADVERTISEMENT_LIFETIME_MS }
}

/// The store after a discovery request: the requester's advertisement,
/// stored under its name, replaces any earlier one of the same name.
pub open spec fn queue_after_discover(
    q: Map<Seq<char>, AdvertisementView>,
    req: DiscoveryRequestView,
    remote: Option<IpAddr>,
    now: u64,
) -> Map<Seq<char>, AdvertisementView> {
    q.insert(with_ip(req, remote).requested_by, placed(with_ip(req, remote), now))
}

/// The answer to a request `req` given the store `q` after it was placed: a
/// match when the peer it looks for has advertised and looks for it in turn.
pub open spec fn discover_answer(q: Map<Seq<char>, AdvertisementView>, req: DiscoveryRequestView) -> DiscoveryResponseView {
    if q.contains_key(req.looking_for) && q[req.looking_for].discovery.looking_for == req.requested_by {
        DiscoveryResponseView {
            status: Status::Match,
            error: None,
            discovery: Some(q[req.looking_for].discovery),
            message: "It's a match!"@,
        }
    } else {
        DiscoveryResponseView {
            status: Status::NoMatch,
            error: None,
            discovery: None,
            message: "No client found, advertisement placed"@,
        }
    }
}

/// The answer to `POST /discover`: places the request in the store as an
/// advertisement (taking the connection's address `remote_addr` when the
/// request has none) made at `now`, then reports whether the peer it looks
/// for is looking for it too.
pub fn discover(
    remote_addr: Option<IpAddr>,
    discoveryrequest: DiscoveryRequest,
    discoveryqueue: &mut DiscoveryQueue,
    now: u64,
) -> (r: DiscoveryResponse)
    ensures
        final(discoveryqueue)@ == queue_after_discover(old(discoveryqueue)@, discoveryrequest@, remote_addr, now),
        r@ == discover_answer(final(discoveryqueue)@, with_ip(discoveryrequest@, remote_addr)),
{
    let mut req = discoveryrequest;
    if req.ip.is_none() {
        req.ip = remote_addr;
    }
    let advert = Advertisement { discovery: req.clone(), created_at: now, expires_in: ADVERTISEMENT_LIFETIME_MS };
    discoveryqueue.insert(req.requested_by.clone(), advert);
    match discoveryqueue.get(&req.looking_for) {
        Some(a) => {
            if req.requested_by == a.discovery.looking_for {
                DiscoveryResponse {
                    status: Status::Match,
                    discovery: Some(a.discovery.clone()),
                    error: None,
                    message: String::from_str("It's a match!"),
                }
            } else {
                DiscoveryResponse {
                    status: Status::NoMatch,
                    discovery: None,
                    error: None,
                    message: String::from_str("No client found, advertisement placed"),
                }
            }
        },
        None => DiscoveryResponse {
            status: Status::NoMatch,
            discovery: None,
            error: None,
            message: String::from_str("No client found, advertisement placed"),
        },
    }
}

/// An HTTP method the server answers.
#[derive(Clone, Copy, Debug, PartialEq, Eq, Structural)]
pub enum Method {
    Get,
    Post,
}

/// One route of the server: method, path, the handler that answers it, the
/// content format the request body must have (if any) and the name of the
/// handler parameter the body is handed to (if any).
#[derive(Debug)]
pub struct Route {
    pub method: Method,
    pub path: String,
    pub handler: String,
    pub format: Option<String>,
    pub data: Option<String>,
}

/// The server's routes: `GET /` ([`home`]), `POST /discover` ([`discover`],
/// which takes a JSON body handed to its `discoveryrequest` parameter) and
/// `GET /info` ([`info`]).
pub fn get_routes() -> (r: Vec<Route>)
    ensures
        r@.len() == 3,
        r@[0].method == Method::Get && r@[0].path@ == "/"@ && r@[0].handler@ == "home"@,
        r@[0].format is None && r@[0].data is None,
        r@[1].method == Method::Post && r@[1].path@ == "/discover"@ && r@[1].handler@ == "discover"@,
        r@[1].format matches Some(f) && f@ == "json"@,
        r@[1].data matches Some(d) && d@ == "discoveryrequest"@,
        r@[2].method == Method::Get && r@[2].path@ == "/info"@ && r@[2].handler@ == "info"@,
        r@[2].format is None && r@[2].data is None,
{
    let mut v: Vec<Route> = Vec::new();
    v.push(Route {
        method: Method::Get,
        path: String::from_str("/"),
        handler: String::from_str("home"),
        format: None,
        data: None,
    });
    v.push(Route {
        method: Method::Post,
        path: String::from_str("/discover"),
        handler: String::from_str("discover"),
        format: Some(String::from_str("json")),
        data: Some(String::from_str("discoveryrequest")),
    });
    v.push(Route {
        method: Method::Get,
        path: String::from_str("/info"),
        handler: String::from_str("info"),
        format: None,
        data: None,
    });
    v
}

/// Two peers that look for each other are matched: whatever the store held,
/// once `a` and then `b` have made their requests, `b` is told of a match with
/// `a`'s request (its address filled in as the server stored it).
pub proof fn lemma_mutual_requests_match(
    q: Map<Seq<char>, AdvertisementView>,
    a: DiscoveryRequestView,
    ra: Option<IpAddr>,
    ta: u64,
    b: DiscoveryRequestView,
    rb: Option<IpAddr>,
    tb: u64,
)
    requires
        a.requested_by == b.looking_for,
        b.requested_by == a.looking_for,
        a.requested_by != b.requested_by,
    ensures
        ({
            let q2 = queue_after_discover(queue_after_discover(q, a, ra, ta), b, rb, tb);
            let ans = discover_answer(q2, with_ip(b, rb));
            &&& ans.status == Status::Match
            &&& ans.discovery == Some(with_ip(a, ra))
            &&& ans.error is None
        }),
{
    let q1 = queue_after_discover(q, a, ra, ta);
    let q2 = queue_after_discover(q1, b, rb, tb);
    assert(q2.contains_key(a.requested_by));
    assert(q2[a.requested_by] == q1[a.requested_by]);
}

/// A peer whose counterpart has not advertised is not matched: if the store
/// holds nothing under the name `a` looks for (and `a` does not look for
/// itself), `a` is told its advertisement was placed.
pub proof fn lemma_first_request_not_matched(
    q: Map<Seq<char>, AdvertisementView>,
    a: DiscoveryRequestView,
    ra: Option<IpAddr>,
    ta: u64,
)
    requires
        !q.contains_key(a.looking_for),
        a.looking_for != a.requested_by,
    ensures
        ({
            let ans = discover_answer(queue_after_discover(q, a, ra, ta), with_ip(a, ra));
            &&& ans.status == Status::NoMatch
            &&& ans.discovery is None
        }),
{
}

/// Every advertisement in the store is stored under the name of the peer
/// that placed it.
pub open spec fn keyed_by_requester(q: Map<Seq<char>, AdvertisementView>) -> bool {
    forall|k: Seq<char>| #[trigger] q.contains_key(k) ==> q[k].discovery.requested_by == k
}

/// Requests and cleaning keep every advertisement stored under its
/// requester's name, so a match always names the peer that was looked for.
pub proof fn lemma_keyed_by_requester_kept(
    q: Map<Seq<char>, AdvertisementView>,
    req: DiscoveryRequestView,
    remote: Option<IpAddr>,
    now: u64,
    later: u64,
)
    requires
        keyed_by_requester(q),
    ensures
        keyed_by_requester(queue_after_discover(q, req, remote, now)),
        keyed_by_requester(cleaned(q, later)),
        ({
            let ans = discover_answer(queue_after_discover(q, req, remote, now), with_ip(req, remote));
            ans.discovery matches Some(d) ==> d.requested_by == req.looking_for && d.looking_for == req.requested_by
        }),
{
}

/// An advertisement lives for its lifetime and no longer: right after a
/// request placed at `t`, cleaning at `now` keeps the requester's
/// advertisement exactly when `now` comes before `t` plus the lifetime.
pub proof fn lemma_advertisement_lifetime(
    q: Map<Seq<char>, AdvertisementView>,
    req: DiscoveryRequestView,
    remote: Option<IpAddr>,
    t: u64,
    now: u64,
)
    ensures
        cleaned(queue_after_discover(q, req, remote, t), now).contains_key(req.requested_by)
            <==> (now as int) < t as int + ADVERTISEMENT_LIFETIME_MS as int,
{
    let q1 = queue_after_discover(q, req, remote, t);
    assert(with_ip(req, remote).requested_by == req.requested_by);
    assert(q1.contains_key(req.requested_by));
}

/// A request places the requester's advertisement under its name: the
/// stored request has the request's port, name, wanted peer and public key,
/// its address when it gave one and the connection's address otherwise; it
/// was made at `now` and lives for 5000 ms. Every other entry is untouched.
pub proof fn lemma_discover_stores_request(
    q: Map<Seq<char>, AdvertisementView>,
    req: DiscoveryRequestView,
    remote: Option<IpAddr>,
    now: u64,
    other: Seq<char>,
)
    ensures
        ({
            let q2 = queue_after_discover(q, req, remote, now);
            let d = q2[req.requested_by].discovery;
            &&& q2.contains_key(req.requested_by)
            &&& d.port == req.port
            &&& d.requested_by == req.requested_by
            &&& d.looking_for == req.looking_for
            &&& d.public_key == req.public_key
            &&& d.ip == (if req.ip is Some { req.ip } else { remote })
            &&& q2[req.requested_by].created_at == now
            &&& q2[req.requested_by].expires_in == 5000
            &&& (other != req.requested_by ==> (q2.contains_key(other) == q.contains_key(other)
                && (q.contains_key(other) ==> q2[other] == q[other])))
        }),
{
}

/// When `b` is matched with `a` after `a` asked first, the request handed to
/// `b` is `a`'s request as `a` sent it, with only a missing address filled in
/// from `a`'s connection.
pub proof fn lemma_match_returns_sent_request(
    q: Map<Seq<char>, AdvertisementView>,
    a: DiscoveryRequestView,
    ra: Option<IpAddr>,
    ta: u64,
    b: DiscoveryRequestView,
    rb: Option<IpAddr>,
    tb: u64,
)
    requires
        a.requested_by == b.looking_for,
        b.requested_by == a.looking_for,
        a.requested_by != b.requested_by,
    ensures
        ({
            let q2 = queue_after_discover(queue_after_discover(q, a, ra, ta), b, rb, tb);
            let ans = discover_answer(q2, with_ip(b, rb));
            &&& ans.discovery is Some
            &&& ans.discovery->0.port == a.port
            &&& ans.discovery->0.requested_by == a.requested_by
            &&& ans.discovery->0.looking_for == a.looking_for
            &&& ans.discovery->0.public_key == a.public_key
            &&& ans.discovery->0.ip == (if a.ip is Some { a.ip } else { ra })
        }),
{
    lemma_mutual_requests_match(q, a, ra, ta, b, rb, tb);
}

/// Cleaning at `now` keeps exactly the advertisements whose lifetime has not
/// fully elapsed: an entry stays when its creation time plus its lifetime,
/// whatever that lifetime is, is still later than `now`, and is removed
/// otherwise; kept entries are unchanged.
pub proof fn lemma_clean_keeps_unexpired(q: Map<Seq<char>, AdvertisementView>, now: u64, k: Seq<char>)
    ensures
        cleaned(q, now).contains_key(k) <==> (q.contains_key(k) && q[k].created_at as int + q[k].expires_in as int > now as int),
        cleaned(q, now).contains_key(k) ==> cleaned(q, now)[k] == q[k],
{
}

} // verus!
