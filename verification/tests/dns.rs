use wan_ddns::dns::{
    get_current_ip, get_ip, get_zone_id, notify_new_ip, notify_request, publish_new_ip,
    record_request, update_request, zone_request, Body, DnsInfo, DnsItem, Envelope, Field, Method,
    Notification, RecordUpdate, ZoneIdItem, TTL, ZONES_URL,
};
use wan_ddns::failure::Failure;

fn s(text: &str) -> String {
    text.to_string()
}

fn field(name: &str, value: &str) -> Field {
    Field { name: s(name), value: s(value) }
}

fn zone(id: &str) -> ZoneIdItem {
    ZoneIdItem { id: s(id) }
}

fn record(id: &str, content: &str) -> DnsItem {
    DnsItem { id: s(id), content: s(content) }
}

#[test]
fn zone_request_asks_for_the_zone_by_name() {
    let request = zone_request(&s("tok"), &s("example.com"));
    assert_eq!(request.method, Method::Get);
    assert_eq!(request.url, "https://api.cloudflare.com/client/v4/zones");
    assert_eq!(request.url, ZONES_URL);
    assert_eq!(request.query, vec![field("name", "example.com")]);
    assert_eq!(
        request.headers,
        vec![field("Authorization", "Bearer tok"), field("Content-Type", "application/json")]
    );
    assert_eq!(request.body, Body::Empty);
}

#[test]
fn record_request_asks_for_the_address_records_of_the_zone() {
    let request = record_request(&s("tok"), &s("z1"));
    assert_eq!(request.method, Method::Get);
    assert_eq!(request.url, "https://api.cloudflare.com/client/v4/zones/z1/dns_records");
    assert_eq!(request.query, vec![field("type", "A")]);
    assert_eq!(
        request.headers,
        vec![field("Authorization", "Bearer tok"), field("Content-type", "application/json")]
    );
    assert_eq!(request.body, Body::Empty);
}

#[test]
fn update_request_puts_the_new_address() {
    let info = DnsInfo { zone: s("z1"), dns: s("r1"), ip: s("10.0.0.7") };
    let request = update_request(&s("10.0.0.8"), &s("edit"), &info, &s("example.com"));
    assert_eq!(request.method, Method::Put);
    assert_eq!(request.url, "https://api.cloudflare.com/client/v4/zones/z1/dns_records/r1");
    assert_eq!(request.query, vec![]);
    assert_eq!(
        request.headers,
        vec![field("Authorization", "Bearer edit"), field("Content-type", "application/json")]
    );
    assert_eq!(
        request.body,
        Body::Update(RecordUpdate {
            record_type: s("A"),
            name: s("example.com"),
            content: s("10.0.0.8"),
            ttl: 120,
            proxied: true,
        })
    );
    assert_eq!(TTL, 120);
}

#[test]
fn zone_id_is_that_of_the_last_zone_listed() {
    assert_eq!(get_zone_id(Some(vec![zone("z1")])), Some(s("z1")));
    assert_eq!(get_zone_id(Some(vec![zone("z1"), zone("z2")])), Some(s("z2")));
}

#[test]
fn zone_id_is_missing_without_zones() {
    assert_eq!(get_zone_id(Some(vec![])), None);
    assert_eq!(get_zone_id(None), None);
}

#[test]
fn record_state_is_the_first_record_listed() {
    let expected = DnsInfo { zone: s("z1"), dns: s("r1"), ip: s("10.0.0.7") };
    assert_eq!(get_ip(&s("z1"), Some(vec![record("r1", "10.0.0.7")])), Some(expected.clone()));
    assert_eq!(
        get_ip(&s("z1"), Some(vec![record("r1", "10.0.0.7"), record("r2", "10.0.0.9")])),
        Some(expected)
    );
}

#[test]
fn record_state_is_missing_without_records() {
    assert_eq!(get_ip(&s("z1"), Some(vec![])), None);
    assert_eq!(get_ip(&s("z1"), None), None);
}

#[test]
fn test_get_current_ip() {
    let state = get_current_ip(Some(s("zone")), Some(vec![record("record", "93.184.216.34")]));
    assert_eq!(state.unwrap().ip, "93.184.216.34");
}

#[test]
fn current_ip_fails_by_the_lookup_that_gave_nothing() {
    assert_eq!(get_current_ip(None, None), Err(Failure::ZoneLookupFailed));
    assert_eq!(
        get_current_ip(None, Some(vec![record("r1", "10.0.0.7")])),
        Err(Failure::ZoneLookupFailed)
    );
    assert_eq!(get_current_ip(Some(s("z1")), None), Err(Failure::RecordLookupFailed));
    assert_eq!(get_current_ip(Some(s("z1")), Some(vec![])), Err(Failure::RecordLookupFailed));
    assert_eq!(
        get_current_ip(Some(s("z1")), Some(vec![record("r1", "10.0.0.7")])),
        Ok(DnsInfo { zone: s("z1"), dns: s("r1"), ip: s("10.0.0.7") })
    );
}

#[test]
fn publish_result_follows_the_provider() {
    assert_eq!(publish_new_ip(true, None), Ok(()));
    assert_eq!(publish_new_ip(true, Some(s("ignored"))), Ok(()));
    assert_eq!(publish_new_ip(false, Some(s("denied"))), Err(Failure::PublishFailed(s("denied"))));
    assert_eq!(
        publish_new_ip(false, None),
        Err(Failure::PublishFailed(s("could not get response")))
    );
}

#[test]
fn notify_request_posts_domain_and_address_under_the_subject() {
    let request = notify_request(&s("https://bus.example/publish"), &s("dns"), &s("example.com"), &s("10.0.0.8"));
    assert_eq!(request.method, Method::Post);
    assert_eq!(request.url, "https://bus.example/publish");
    assert_eq!(request.query, vec![]);
    assert_eq!(request.headers, vec![]);
    assert_eq!(
        request.body,
        Body::Notice(Notification { subject: s("dns"), message: s("example.com:10.0.0.8") })
    );
}

#[test]
fn notify_result_follows_the_envelope() {
    assert_eq!(notify_new_ip(Some(Envelope { ok: true, message: s("queued") })), Ok(()));
    assert_eq!(
        notify_new_ip(Some(Envelope { ok: false, message: s("no such subject") })),
        Err(Failure::PublishFailed(s("no such subject")))
    );
    assert_eq!(notify_new_ip(None), Err(Failure::PublishFailed(s("could not get response"))));
}
