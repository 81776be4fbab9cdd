//! Decisions of the DNS updater that runs around the address lookup: when a
//! record needs updating, the record's full name, which existing record to
//! replace, and the method, URL and body of the update call.

use vstd::prelude::*;
use vstd::string::StringExecFns;

verus! {

/// Seconds between two checks when the configuration sets none.
pub const DEFAULT_CHECK_INTERVAL: u64 = 10;

/// The characters of `s` in lower case, as `str::to_lowercase` gives them.
pub uninterp spec fn lower_of(s: Seq<char>) -> Seq<char>;

/// Relies on `str::to_lowercase`: the result depends on the characters of
/// its argument alone, and an empty string stays empty.
#[verifier::external_body]
fn lowercase(s: &str) -> (r: String)
    ensures
        r@ == lower_of(s@),
        s@.len() == 0 ==> r@.len() == 0,
{
    s.to_lowercase()
}

/// One record of a zone's record list: its name and its identifier, each
/// absent where the listing did not give it as a string.
pub struct ZoneRecord {
    pub name: Option<String>,
    pub id: Option<String>,
}

/// HTTP method of an update call.
pub enum UpdateMethod {
    /// Replace the record with the given identifier.
    Put,
    /// Create a new record.
    Post,
}

/// Where and how an update is sent.
pub struct UpdateTarget {
    pub method: UpdateMethod,
    pub url: String,
}

/// Whether a record must be written: it is configured, an address was
/// found, and that address differs from the one last written (the
/// unspecified address, zero, before the first write).
pub open spec fn update_needed(configured: bool, current: Option<u128>, saved: Option<u128>) -> bool {
    match current {
        Some(ip) => configured && ip != match saved {
            Some(s) => s,
            None => 0,
        },
        None => false,
    }
}

/// Whether a record carries the name `name`.
pub open spec fn is_named(r: ZoneRecord, name: Seq<char>) -> bool {
    r.name matches Some(n) && n@ == name
}

/// The position of the first record named `name`, if any.
pub open spec fn first_named(records: Seq<ZoneRecord>, name: Seq<char>) -> Option<int>
    decreases records.len(),
{
    if records.len() == 0 {
        None
    } else if is_named(records[0], name) {
        Some(0)
    } else {
        match first_named(records.drop_first(), name) {
            Some(i) => Some(i + 1),
            None => None,
        }
    }
}

/// `first_named` names exactly the first record that carries the name.
proof fn lemma_first_named(records: Seq<ZoneRecord>, name: Seq<char>)
    ensures
        match first_named(records, name) {
            Some(i) => 0 <= i < records.len() && is_named(records[i], name) && forall|j: int|
                0 <= j < i ==> !is_named(#[trigger] records[j], name),
            None => forall|j: int| 0 <= j < records.len() ==> !is_named(#[trigger] records[j], name),
        },
    decreases records.len(),
{
    if records.len() > 0 && !is_named(records[0], name) {
        lemma_first_named(records.drop_first(), name);
        assert forall|j: int| 1 <= j < records.len() implies records[j] == records.drop_first()[j
            - 1] by {}
    }
}

/// The identifier that an update replaces: that of the first record named
/// `name`, when that record has one.
pub open spec fn record_id_for(records: Seq<ZoneRecord>, name: Seq<char>) -> Option<Seq<char>> {
    match first_named(records, name) {
        Some(i) => match records[i].id {
            Some(id) => Some(id@),
            None => None,
        },
        None => None,
    }
}

/// The URL of the update call for a zone and, where the record exists, its
/// identifier.
pub open spec fn update_url(zone_id: Seq<char>, record_id: Option<Seq<char>>) -> Seq<char> {
    let list = "https://api.cloudflare.com/client/v4/zones/"@ + zone_id + "/dns_records"@;
    match record_id {
        Some(id) => list + "/"@ + id,
        None => list,
    }
}

/// The URL that lists a zone's records of one type and full name.
pub open spec fn list_url_text(zone_id: Seq<char>, record_type: Seq<char>, name: Seq<char>) -> Seq<char> {
    "https://api.cloudflare.com/client/v4/zones/"@ + zone_id + "/dns_records?type="@ + record_type
        + "&name="@ + name
}

/// The JSON body of an update call.
pub open spec fn update_body_text(record_type: Seq<char>, name: Seq<char>, content: Seq<char>) -> Seq<char> {
    "{\"type\":\""@ + record_type + "\",\"name\":\""@ + name + "\",\"content\":\""@ + content
        + "\",\"ttl\":1,\"proxied\":false}"@
}

/// The check interval in seconds: the configured one, or the default.
pub fn check_interval(configured: Option<u64>) -> (secs: u64)
    ensures
        secs == match configured {
            Some(s) => s,
            None => DEFAULT_CHECK_INTERVAL,
        },
{
    match configured {
        Some(s) => s,
        None => DEFAULT_CHECK_INTERVAL,
    }
}

/// Decides whether a record must be written, from whether it is configured,
/// the address just found and the address last written.
pub fn needs_update(configured: bool, current: Option<u128>, saved: Option<u128>) -> (r: bool)
    ensures
        r == update_needed(configured, current, saved),
{
    let last = match saved {
        Some(s) => s,
        None => 0,
    };
    match current {
        Some(ip) => configured && ip != last,
        None => false,
    }
}

/// The full name of a record from its lower-cased name and its domain.
pub fn record_fqdn(lowered: &str, domain: &str) -> (r: String)
    ensures
        r@ == lowered@ + "."@ + domain@,
{
    let mut r = String::from_str(lowered);
    r.append(".");
    r.append(domain);
    r
}

/// The full name of a record: its name in lower case, a dot, its domain.
pub fn full_record_name(record_name: &str, domain: &str) -> (r: String)
    ensures
        r@ == lower_of(record_name@) + "."@ + domain@,
{
    let lowered = lowercase(record_name);
    record_fqdn(lowered.as_str(), domain)
}

/// Finds the identifier of the record to replace: that of the first record
/// whose name is `name`.
pub fn find_record_id(records: &Vec<ZoneRecord>, name: &String) -> (id: Option<String>)
    ensures
        match (id, record_id_for(records@, name@)) {
            (Some(a), Some(b)) => a@ == b,
            (None, None) => true,
            _ => false,
        },
{
    proof {
        lemma_first_named(records@, name@);
    }
    let mut i: usize = 0;
    while i < records.len()
        invariant
            i <= records@.len(),
            forall|j: int| 0 <= j < i ==> !is_named(#[trigger] records@[j], name@),
            match first_named(records@, name@) {
                Some(k) => 0 <= k < records@.len() && is_named(records@[k], name@) && forall|j: int|
                    0 <= j < k ==> !is_named(#[trigger] records@[j], name@),
                None => forall|j: int|
                    0 <= j < records@.len() ==> !is_named(#[trigger] records@[j], name@),
            },
        decreases records@.len() - i,
    {
        let hit = match &records[i].name {
            Some(n) => n.eq(name),
            None => false,
        };
        if hit {
            proof {
                assert(is_named(records@[i as int], name@));
            }
            return match &records[i].id {
                Some(s) => Some(s.clone()),
                None => None,
            };
        }
        i = i + 1;
    }
    None
}

/// The URL that lists the zone's records of the given type and full name.
pub fn list_url(zone_id: &str, record_type: &str, name: &str) -> (url: String)
    ensures
        url@ == list_url_text(zone_id@, record_type@, name@),
{
    let mut url = String::from_str("https://api.cloudflare.com/client/v4/zones/");
    url.append(zone_id);
    url.append("/dns_records?type=");
    url.append(record_type);
    url.append("&name=");
    url.append(name);
    url
}

/// Where and how to send an update: replace the record with `record_id`
/// where there is one, else create one in the zone.
pub fn update_target(zone_id: &str, record_id: Option<&str>) -> (t: UpdateTarget)
    ensures
        t.method is Put <==> record_id is Some,
        t.url@ == update_url(
            zone_id@,
            match record_id {
                Some(id) => Some(id@),
                None => None,
            },
        ),
{
    let mut url = String::from_str("https://api.cloudflare.com/client/v4/zones/");
    url.append(zone_id);
    url.append("/dns_records");
    match record_id {
        Some(id) => {
            url.append("/");
            url.append(id);
            UpdateTarget { method: UpdateMethod::Put, url }
        },
        None => UpdateTarget { method: UpdateMethod::Post, url },
    }
}

/// The JSON body of an update call: the record's type, full name and
/// content, an automatic TTL, and no proxying.
pub fn update_body(record_type: &str, name: &str, content: &str) -> (body: String)
    ensures
        body@ == update_body_text(record_type@, name@, content@),
{
    let mut b = String::from_str("{\"type\":\"");
    b.append(record_type);
    b.append("\",\"name\":\"");
    b.append(name);
    b.append("\",\"content\":\"");
    b.append(content);
    b.append("\",\"ttl\":1,\"proxied\":false}");
    b
}

} // verus!
