//! Fresh identifiers and the time.
use crate::text::opt_view;
use crate::warp::{Timestamp, TimestampView};
use vstd::prelude::*;

verus! {

/// A lower case hexadecimal digit.
pub open spec fn lower_hex(c: char) -> bool {
    ('0' <= c <= '9') || ('a' <= c <= 'f')
}

/// Whether a text has the form of a UUID: 36 characters, hyphens at four of them, and lower case
/// hexadecimal digits else.
pub open spec fn uuid_text(s: Seq<char>) -> bool {
    &&& s.len() == 36
    &&& forall|i: int|
        0 <= i < 36 ==> if i == 8 || i == 13 || i == 18 || i == 23 {
            #[trigger] s[i] == '-'
        } else {
            lower_hex(s[i])
        }
}

/// Whether an identifier is the prefix and then a UUID.
pub open spec fn fresh_id(prefix: Seq<char>, id: Seq<char>) -> bool {
    &&& prefix.len() <= id.len()
    &&& id.take(prefix.len() as int) == prefix
    &&& uuid_text(id.skip(prefix.len() as int))
}

/// A random UUID: `uuid::Uuid::new_v4`, written by its `Display`, which gives the hyphenated lower
/// case form. Which UUID it is, is chance.
#[verifier::external_body]
fn random_uuid() -> (r: String)
    ensures
        uuid_text(r@),
{
    uuid::Uuid::new_v4().to_string()
}

/// A new identifier: the prefix and a random UUID.
pub fn new_id(prefix: &str) -> (r: String)
    ensures
        fresh_id(prefix@, r@),
{
    let uuid = random_uuid();
    let mut id = prefix.to_owned();
    id.append(uuid.as_str());
    assert(id@.take(prefix@.len() as int) == prefix@);
    assert(id@.skip(prefix@.len() as int) == uuid@);
    id
}

/// New identifiers with one prefix.
pub fn new_ids(prefix: &str, count: usize) -> (r: Vec<String>)
    ensures
        r@.len() == count,
        forall|i: int| 0 <= i < count ==> fresh_id(prefix@, #[trigger] r@[i]@),
{
    let mut ids: Vec<String> = Vec::new();
    while ids.len() < count
        invariant
            ids@.len() <= count,
            forall|i: int| 0 <= i < ids@.len() ==> fresh_id(prefix@, #[trigger] ids@[i]@),
        decreases count - ids@.len(),
    {
        ids.push(new_id(prefix));
    }
    ids
}

/// The seconds and nanoseconds since 1970 (`SystemTime::elapsed` of `UNIX_EPOCH`), or nothing where
/// the clock stands before that. The nanoseconds are less than a second.
#[verifier::external_body]
fn time_since_epoch() -> (r: Option<(u64, u32)>)
    ensures
        r matches Some(time) ==> time.1 < 1_000_000_000,
{
    match std::time::UNIX_EPOCH.elapsed() {
        Ok(time) => Some((time.as_secs(), time.subsec_nanos())),
        Err(_) => None,
    }
}

/// Whether a time is none, or one that a clock shows: its nanoseconds are less than a second.
pub open spec fn shown_by_clock(time: Option<TimestampView>) -> bool {
    time matches Some(time) ==> 0 <= time.nanos < 1_000_000_000
}

/// A time since 1970 as a timestamp.
pub fn timestamp_of(seconds: u64, nanos: u32) -> (r: Timestamp)
    requires
        nanos < 1_000_000_000,
    ensures
        r.seconds == seconds as i64,
        r.nanos == nanos,
{
    Timestamp { seconds: seconds as i64, nanos: nanos as i32 }
}

/// The time now, where the clock stands in or after 1970.
pub fn current_timestamp() -> (r: Option<Timestamp>)
    ensures
        shown_by_clock(opt_view(r)),
{
    match time_since_epoch() {
        Some((seconds, nanos)) => Some(timestamp_of(seconds, nanos)),
        None => None,
    }
}

/// A new identifier is its prefix and a UUID: 36 characters, hyphens at four places, and lower case
/// hexadecimal digits at the others.
pub proof fn lemma_form_of_identifiers(prefix: Seq<char>, id: Seq<char>, i: int)
    requires
        fresh_id(prefix, id),
    ensures
        id.len() == prefix.len() + 36,
        prefix.is_prefix_of(id),
        ({
            let c = id[prefix.len() + i];
            &&& i == 8 || i == 13 || i == 18 || i == 23 ==> c == '-'
            &&& 0 <= i < 36 && i != 8 && i != 13 && i != 18 && i != 23 ==> ('0' <= c <= '9') || (
            'a' <= c <= 'f')
        }),
{
    let uuid = id.skip(prefix.len() as int);
    assert(uuid_text(uuid));
    if 0 <= i < 36 {
        assert(uuid[i] == id[prefix.len() + i]);
    }
    assert forall|k: int| 0 <= k < prefix.len() implies prefix[k] == id[k] by {
        assert(id.take(prefix.len() as int)[k] == id[k]);
    }
}

} // verus!
