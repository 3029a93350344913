//! Counting the requests the service answers, by endpoint and outcome.

use vstd::prelude::*;
use prometheus::{IntCounterVec, Registry};

verus! {

/// The family of counters that counts answered requests, one counter per
/// pair of label values. It holds a `prometheus::IntCounterVec`, which is
/// hidden from verification: that type's generic parameters cannot be named
/// outside its crate, so it cannot be declared; what it holds is known
/// through the names `request_counts`, `family_name`, `family_help` and
/// `label_names`.
#[verifier::external_body]
pub struct RequestCounter {
    family: IntCounterVec,
}

/// `prometheus::Registry`, passed through to the registration call.
#[verifier::external_type_specification]
#[verifier::external_body]
pub struct ExRegistry(prometheus::Registry);

/// The key under which a family files the counter of a pair of label values
/// (endpoint, status): the 64-bit FNV-1a hash of the values' bytes written
/// one after the other, with nothing between them. Pairs with the same key
/// share one counter.
pub uninterp spec fn label_values_key(endpoint: Seq<char>, status: Seq<char>) -> u64;

/// The counts of a family of counters: for each key that was counted, the
/// value of the counter filed under it. A key never counted is absent, and
/// reads as zero.
pub uninterp spec fn request_counts(counter: RequestCounter) -> Map<u64, nat>;

/// The name a family of counters was made with.
pub uninterp spec fn family_name(counter: RequestCounter) -> Seq<char>;

/// The help text a family of counters was made with.
pub uninterp spec fn family_help(counter: RequestCounter) -> Seq<char>;

/// The label names a family of counters was made with: every counter of the
/// family is addressed by that many label values, in that order.
pub uninterp spec fn label_names(counter: RequestCounter) -> Seq<Seq<char>>;

/// The value of the counter filed under a key.
pub open spec fn count_of(counts: Map<u64, nat>, key: u64) -> nat {
    if counts.contains_key(key) {
        counts[key]
    } else {
        0
    }
}

/// The counts after one more count of `key`; a count is a 64-bit unsigned
/// integer and wraps around past its largest value.
pub open spec fn bumped(counts: Map<u64, nat>, key: u64) -> Map<u64, nat> {
    counts.insert(key, ((count_of(counts, key) + 1) % 0x1_0000_0000_0000_0000) as nat)
}

/// Whether a character may begin a metric name (`colon`) or a label name:
/// an ASCII letter, `_`, and for a metric name also `:`.
pub open spec fn ident_start(c: char, colon: bool) -> bool {
    ||| ('a' <= c && c <= 'z')
    ||| ('A' <= c && c <= 'Z')
    ||| c == '_'
    ||| (colon && c == ':')
}

/// Whether a text is a metric name (`colon`) or a label name: a starting
/// character followed by starting characters and ASCII digits.
pub open spec fn valid_ident(s: Seq<char>, colon: bool) -> bool {
    &&& s.len() > 0
    &&& ident_start(s[0], colon)
    &&& forall|i: int| 1 <= i < s.len() ==> ident_start(#[trigger] s[i], colon) || ('0' <= s[i] && s[i] <= '9')
}

/// Whether a family can be made with this name, help text and label names:
/// the help text is not empty, the name is a metric name, and the label
/// names are label names, no two alike.
pub open spec fn valid_family(name: Seq<char>, help: Seq<char>, labels: Seq<Seq<char>>) -> bool {
    &&& help.len() > 0
    &&& valid_ident(name, true)
    &&& forall|i: int| 0 <= i < labels.len() ==> valid_ident(#[trigger] labels[i], false)
    &&& labels.no_duplicates()
}

/// Calls `prometheus::IntCounterVec::new` with the options `name` and
/// `help` and the label names `labels`; a refusal becomes its text.
/// Trusted: the source makes the family exactly when its description is
/// valid (`Desc::new`: a non-empty help text, a metric name, label names
/// that are valid and distinct); it keeps the given name, help text and
/// label names as the family's description, and a new family holds no
/// counter yet.
#[verifier::external_body]
fn new_counter_family(name: &str, help: &str, labels: &[&str]) -> (r: Result<
    RequestCounter,
    String,
>)
    ensures
        r is Ok <==> valid_family(name@, help@, labels@.map_values(|l: &str| l@)),
        r matches Ok(counter) ==> {
            &&& family_name(counter) == name@
            &&& family_help(counter) == help@
            &&& label_names(counter) == labels@.map_values(|l: &str| l@)
            &&& request_counts(counter) == Map::<u64, nat>::empty()
        },
{
    match IntCounterVec::new(prometheus::Opts::new(name, help), labels) {
        Ok(family) => Ok(RequestCounter { family }),
        Err(e) => Err(e.to_string()),
    }
}

/// Calls `prometheus::Registry::register` with a copy of the family; a
/// refusal becomes its text.
/// Trusted: nothing is claimed of the outcome, which depends on what the
/// registry already holds; the registry only reads the family's counts.
#[verifier::external_body]
fn register_family(registry: &Registry, counter: &RequestCounter) -> (r: Result<(), String>) {
    match registry.register(Box::new(counter.family.clone())) {
        Ok(()) => Ok(()),
        Err(e) => Err(e.to_string()),
    }
}

/// Calls `prometheus::IntCounterVec::with_label_values` with the two label
/// values and increments the counter it gives.
/// Trusted: the source panics when the number of label values differs from
/// the family's number of label names, which the `requires` rules out;
/// otherwise it hashes the values into the key `label_values_key`, finds the
/// counter filed under that key or files a new one at zero, and adds one to
/// it with a wrapping atomic addition, leaving every other counter and the
/// family's description as they were.
#[verifier::external_body]
fn increment(counter: &mut RequestCounter, endpoint: &str, status: &str)
    requires
        label_names(*old(counter)).len() == 2,
    ensures
        request_counts(*final(counter)) == bumped(
            request_counts(*old(counter)),
            label_values_key(endpoint@, status@),
        ),
        family_name(*final(counter)) == family_name(*old(counter)),
        family_help(*final(counter)) == family_help(*old(counter)),
        label_names(*final(counter)) == label_names(*old(counter)),
{
    counter.family.with_label_values(&[endpoint, status]).inc();
}

/// The name of the family that counts requests.
pub open spec fn request_counter_name() -> Seq<char> {
    "sol_to_uml_so2uml_requests"@
}

/// The help text of the family that counts requests.
pub open spec fn request_counter_help() -> Seq<char> {
    "number of uml and storage requests"@
}

/// The label names of the family that counts requests.
pub open spec fn request_counter_labels() -> Seq<Seq<char>> {
    seq!["endpoint"@, "status"@]
}

/// The request counter's name, help text and labels make a valid family, so
/// making it never fails; only registering it can.
pub proof fn lemma_request_counter_valid()
    ensures
        valid_family(request_counter_name(), request_counter_help(), request_counter_labels()),
{
    reveal_strlit("sol_to_uml_so2uml_requests");
    reveal_strlit("number of uml and storage requests");
    reveal_strlit("endpoint");
    reveal_strlit("status");
    let name = request_counter_name();
    assert forall|i: int| 1 <= i < name.len() implies ident_start(#[trigger] name[i], true) || (
    '0' <= name[i] && name[i] <= '9') by {}
    let labels = request_counter_labels();
    assert forall|i: int| 0 <= i < labels.len() implies valid_ident(#[trigger] labels[i], false) by {
        assert(labels[0] == "endpoint"@ && labels[1] == "status"@);
    }
    assert(labels[0] != labels[1]) by {
        assert(labels[0][0] != labels[1][0]);
    }
}

/// Makes the family that counts requests by endpoint and status, and
/// registers it. Whether that succeeds depends on what the registry already
/// holds; a family that is returned has the request counter's name, help
/// text and labels, and has counted nothing yet.
pub fn register_request_counter(registry: &Registry) -> (r: Result<RequestCounter, String>)
    ensures
        r matches Ok(counter) ==> {
            &&& family_name(counter) == request_counter_name()
            &&& family_help(counter) == request_counter_help()
            &&& label_names(counter) == request_counter_labels()
            &&& request_counts(counter) == Map::<u64, nat>::empty()
        },
{
    let labels: [&str; 2] = ["endpoint", "status"];
    let counter = new_counter_family(
        "sol_to_uml_so2uml_requests",
        "number of uml and storage requests",
        &labels,
    )?;
    assert(labels@.map_values(|l: &str| l@) =~= request_counter_labels());
    register_family(registry, &counter)?;
    Ok(counter)
}

/// The status label of a request: `ok` when it succeeded, `fail` otherwise.
pub open spec fn status_label(status: bool) -> Seq<char> {
    if status {
        seq!['o', 'k']
    } else {
        seq!['f', 'a', 'i', 'l']
    }
}

/// The status label of a request outcome.
pub fn request_status_label(status: bool) -> (r: &'static str)
    ensures
        r@ == status_label(status),
{
    if status {
        proof {
            reveal_strlit("ok");
        }
        assert("ok"@ =~= status_label(true));
        "ok"
    } else {
        proof {
            reveal_strlit("fail");
        }
        assert("fail"@ =~= status_label(false));
        "fail"
    }
}

/// Counts one answered request of the endpoint `method`, as succeeded or
/// failed: the counter filed under the key of (`method`, `ok`/`fail`) goes up
/// by one and no other counter changes.
pub fn count_sol2uml_request(counter: &mut RequestCounter, status: bool, method: &str)
    requires
        label_names(*old(counter)).len() == 2,
    ensures
        request_counts(*final(counter)) == bumped(
            request_counts(*old(counter)),
            label_values_key(method@, status_label(status)),
        ),
        family_name(*final(counter)) == family_name(*old(counter)),
        family_help(*final(counter)) == family_help(*old(counter)),
        label_names(*final(counter)) == label_names(*old(counter)),
{
    let label = request_status_label(status);
    increment(counter, method, label);
}

/// One more count under a key raises that key's counter by one, wrapping at
/// 2^64, and changes no other counter.
pub proof fn lemma_bumped(counts: Map<u64, nat>, key: u64, other: u64)
    ensures
        bumped(counts, key).contains_key(key),
        count_of(bumped(counts, key), key) == (count_of(counts, key) + 1) % 0x1_0000_0000_0000_0000,
        other != key ==> count_of(bumped(counts, key), other) == count_of(counts, other),
        count_of(Map::<u64, nat>::empty(), key) == 0,
{
}

/// A request is labelled `ok` when it succeeded and `fail` otherwise.
pub proof fn lemma_status_labels()
    ensures
        status_label(true) == "ok"@,
        status_label(false) == "fail"@,
{
    reveal_strlit("ok");
    reveal_strlit("fail");
}

/// The request counter is named `sol_to_uml_so2uml_requests`, described as
/// counting uml and storage requests, and labelled by endpoint and status,
/// in that order.
pub proof fn lemma_request_counter_description()
    ensures
        request_counter_name() == "sol_to_uml_so2uml_requests"@,
        request_counter_help() == "number of uml and storage requests"@,
        request_counter_labels().len() == 2,
        request_counter_labels()[0] == "endpoint"@,
        request_counter_labels()[1] == "status"@,
{
}

} // verus!
