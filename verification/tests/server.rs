use rclc::cleanable::Cleanable;
use rclc::discovery::{Advertisement, DiscoveryQueue};
use rclc::routes::{discover, get_routes, home, info, Method, ADVERTISEMENT_LIFETIME_MS};
use rclc::structures::{DiscoveryRequest, IpAddr, Status};
use std::time::{SystemTime, UNIX_EPOCH};

fn now_ms() -> u64 {
    SystemTime::now().duration_since(UNIX_EPOCH).unwrap().as_millis() as u64
}

fn request(ip: Option<IpAddr>, port: u16, by: &str, for_: &str, key: &str) -> DiscoveryRequest {
    DiscoveryRequest {
        ip,
        port,
        requested_by: by.to_string(),
        looking_for: for_.to_string(),
        public_key: key.to_string(),
    }
}

#[test]
/// The queue holds two advertisements, one old enough to have expired and one
/// that has not; cleaning removes exactly the expired one.
fn clean_test() {
    let mut discoveryqueue = DiscoveryQueue::new();
    let disc_req_a = request(Some(IpAddr::V4([127, 0, 0, 1])), 2121, "A", "B", "qwertyuiop");
    let disc_req_b = request(Some(IpAddr::V4([127, 0, 0, 1])), 2121, "B", "A", "qwertyuiop");
    let now = now_ms();
    discoveryqueue.insert(
        "A".to_string(),
        Advertisement { discovery: disc_req_a, created_at: now, expires_in: 100 },
    );
    discoveryqueue.insert(
        "B".to_string(),
        Advertisement { discovery: disc_req_b, created_at: now.checked_sub(5000).unwrap(), expires_in: 100 },
    );

    assert_eq!(discoveryqueue.clean(now_ms()).unwrap(), 1);

    discoveryqueue.get(&"A".to_string()).expect("Person A does not exist in map");
    if discoveryqueue.get(&"B".to_string()).is_some() {
        panic!("Person B should not exist in map")
    };
}

#[test]
fn discover_test() {
    let mut queue = DiscoveryQueue::new();
    let now = now_ms();
    let ip = Some(IpAddr::V4([123, 123, 123, 123]));
    let response_a = discover(None, request(ip, 1000, "PersonA", "PersonB", "abcdefg1"), &mut queue, now);
    let response_b = discover(None, request(ip, 1000, "PersonB", "PersonA", "abcdefg2"), &mut queue, now);

    assert_eq!(response_a.status, Status::NoMatch);
    assert!(response_a.error.is_none());
    assert!(response_a.discovery.is_none());
    assert_eq!(response_a.message, "No client found, advertisement placed");

    assert_eq!(response_b.status, Status::Match);
    assert!(response_b.error.is_none());
    let d = response_b.discovery.expect("the match names the other peer");
    assert_eq!(d.ip, Some(IpAddr::V4([123, 123, 123, 123])));
    assert_eq!(d.port, 1000);
    assert_eq!(d.requested_by, "PersonA");
    assert_eq!(d.looking_for, "PersonB");
    assert_eq!(d.public_key, "abcdefg1");
    assert_eq!(response_b.message, "It's a match!");
}

#[test]
fn info_test() {
    assert_eq!(
        info(None, Some("0.1.0")),
        format!(
            r#"{{"motd":"{}","version":"{}","acceptingrequests":true}}"#,
            "Set an MOTD with the RCLC_DISCOVERY_MOTD environment variable",
            "0.1.0"
        )
    );
}

#[test]
fn info_with_motd_and_unknown_version() {
    assert_eq!(
        info(Some("Welcome"), None),
        r#"{"motd":"Welcome","version":"unknown","acceptingrequests":true}"#
    );
}

#[test]
fn home_says_hello() {
    assert_eq!(home(), "Hello Jabacat!");
}

#[test]
fn routes_are_home_discover_info() {
    let routes = get_routes();
    assert_eq!(routes.len(), 3);
    assert_eq!(routes[0].method, Method::Get);
    assert_eq!(routes[0].path, "/");
    assert_eq!(routes[0].handler, "home");
    assert!(routes[0].format.is_none() && routes[0].data.is_none());
    assert_eq!(routes[1].method, Method::Post);
    assert_eq!(routes[1].path, "/discover");
    assert_eq!(routes[1].handler, "discover");
    assert_eq!(routes[1].format.as_deref(), Some("json"));
    assert_eq!(routes[1].data.as_deref(), Some("discoveryrequest"));
    assert_eq!(routes[2].method, Method::Get);
    assert_eq!(routes[2].path, "/info");
    assert_eq!(routes[2].handler, "info");
    assert!(routes[2].format.is_none() && routes[2].data.is_none());
}

#[test]
fn discover_fills_missing_ip_from_connection() {
    let mut queue = DiscoveryQueue::new();
    let remote = Some(IpAddr::V4([10, 0, 0, 7]));
    let r = discover(remote, request(None, 9, "X", "Y", "k"), &mut queue, 1000);
    assert_eq!(r.status, Status::NoMatch);
    let stored = queue.get(&"X".to_string()).unwrap();
    assert_eq!(stored.discovery.ip, remote);
    assert_eq!(stored.created_at, 1000);
    assert_eq!(stored.expires_in, ADVERTISEMENT_LIFETIME_MS);
    // an address given in the request is kept
    let r2 = discover(remote, request(Some(IpAddr::V4([1, 2, 3, 4])), 9, "Z", "W", "k"), &mut queue, 1000);
    assert_eq!(r2.status, Status::NoMatch);
    assert_eq!(queue.get(&"Z".to_string()).unwrap().discovery.ip, Some(IpAddr::V4([1, 2, 3, 4])));
    assert_eq!(queue.len(), 2);
}

#[test]
fn discover_one_sided_interest_is_no_match() {
    let mut queue = DiscoveryQueue::new();
    discover(None, request(None, 1, "A", "C", "k"), &mut queue, 0);
    let r = discover(None, request(None, 1, "B", "A", "k"), &mut queue, 0);
    assert_eq!(r.status, Status::NoMatch);
    assert!(r.discovery.is_none());
    assert_eq!(r.message, "No client found, advertisement placed");
}

#[test]
fn discover_replaces_earlier_advertisement_of_same_peer() {
    let mut queue = DiscoveryQueue::new();
    discover(None, request(None, 1, "A", "B", "old"), &mut queue, 0);
    discover(None, request(None, 2, "A", "B", "new"), &mut queue, 10);
    assert_eq!(queue.len(), 1);
    let a = queue.get(&"A".to_string()).unwrap();
    assert_eq!(a.discovery.public_key, "new");
    assert_eq!(a.created_at, 10);
}

#[test]
fn advertisement_lives_for_its_lifetime() {
    let mut queue = DiscoveryQueue::new();
    discover(None, request(None, 1, "A", "B", "k"), &mut queue, 1000);
    assert_eq!(queue.clean(1000 + ADVERTISEMENT_LIFETIME_MS - 1), Ok(0));
    assert!(queue.contains_key(&"A".to_string()));
    assert_eq!(queue.clean(1000 + ADVERTISEMENT_LIFETIME_MS), Ok(1));
    assert!(!queue.contains_key(&"A".to_string()));
    assert_eq!(queue.len(), 0);
}

#[test]
fn clean_counts_and_is_idempotent() {
    let mut queue = DiscoveryQueue::new();
    for (i, name) in ["a", "b", "c", "d", "e"].iter().enumerate() {
        let req = request(None, 1, name, "z", "k");
        queue.insert(name.to_string(), Advertisement { discovery: req, created_at: 100 * i as u64, expires_in: 50 });
    }
    // at time 260: a (expires 50), b (150), c (250) have expired; d (350), e (450) have not
    assert_eq!(queue.clean(260), Ok(3));
    assert_eq!(queue.len(), 2);
    assert!(queue.contains_key(&"d".to_string()));
    assert!(queue.contains_key(&"e".to_string()));
    assert_eq!(queue.clean(260), Ok(0));
}

#[test]
fn advertisement_expiry_boundary() {
    let a = Advertisement { discovery: request(None, 1, "a", "b", "k"), created_at: u64::MAX, expires_in: u64::MAX };
    assert!(!a.is_expired(u64::MAX));
    let b = Advertisement { discovery: request(None, 1, "a", "b", "k"), created_at: 10, expires_in: 5 };
    assert!(!b.is_expired(14));
    assert!(b.is_expired(15));
}
