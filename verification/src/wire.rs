//! The wire payload and its serialization: the JSON-shaped body the gateway
//! expects, the five request headers, and the request value one dispatch
//! needs. Everything is stated over byte sequences.

use crate::codec::{dec_chars, escape_extend, escape_str_extend, escaped, extend_with_str,
    u64_to_dec};
use crate::message::MessageView;
use crate::time::{add_clamped, utc_timestamp};
use vstd::prelude::*;
use vstd::utf8::encode_utf8;

verus! {

/// One recipient group of the wire payload: the gateway models a message as
/// sent to a list of phone numbers wrapped in a single element.
pub struct Phonenumber {
    phone: Vec<String>,
}

impl View for Phonenumber {
    type V = Seq<Seq<char>>;

    closed spec fn view(&self) -> Seq<Seq<char>> {
        self.phone.deep_view()
    }
}

impl Phonenumber {
    /// Wraps a full recipient list into the single wire group.
    pub fn group(numbers: Vec<String>) -> (r: Phonenumber)
        ensures
            r@ == numbers.deep_view(),
    {
        Phonenumber { phone: numbers }
    }

    /// The numbers in the group, in call order.
    pub fn numbers(&self) -> (r: &Vec<String>)
        ensures
            r.deep_view() == self@,
    {
        &self.phone
    }
}

/// The wire payload derived from builder state `m` at call time `now`:
/// body and sender carried over, each instant explicit if set and otherwise
/// defaulted from `now`, and the whole recipient list as one group.
pub ghost struct PayloadView {
    pub message_body: Seq<char>,
    pub from: Seq<char>,
    pub send_at: Seq<u8>,
    pub valid_until: Seq<u8>,
    pub to_group: Seq<Seq<char>>,
}

/// The scheduled send instant: the explicit one if set, else `now` plus five
/// minutes (saturating at the latest representable instant).
pub open spec fn resolved_send_at(m: MessageView, now: i64) -> i64 {
    match m.schedule_time {
        Some(t) => t,
        None => add_clamped(now, 300),
    }
}

/// The expiry instant: the explicit one if set, else `now` plus two days
/// (saturating at the latest representable instant).
pub open spec fn resolved_valid_until(m: MessageView, now: i64) -> i64 {
    match m.valid_until {
        Some(t) => t,
        None => add_clamped(now, 172800),
    }
}

/// The payload that builder state `m` yields at call time `now`.
pub open spec fn payload_of(m: MessageView, now: i64) -> PayloadView {
    PayloadView {
        message_body: m.body,
        from: m.from,
        send_at: utc_timestamp(resolved_send_at(m, now)),
        valid_until: utc_timestamp(resolved_valid_until(m, now)),
        to_group: m.to,
    }
}

/// `s` as a JSON string: quoted, escaped UTF-8 bytes.
pub open spec fn json_string(s: Seq<char>) -> Seq<u8> {
    json_string_bytes(encode_utf8(s))
}

/// UTF-8 text given as bytes, as a JSON string: quoted and escaped.
pub open spec fn json_string_bytes(s: Seq<u8>) -> Seq<u8> {
    seq![0x22u8] + escaped(s) + seq![0x22u8]
}

/// The members of the group's phone array: each number a JSON string, comma
/// separated, in call order.
pub open spec fn phone_array_members(to: Seq<Seq<char>>) -> Seq<u8>
    decreases to.len(),
{
    if to.len() == 0 {
        Seq::empty()
    } else if to.len() == 1 {
        json_string(to[0])
    } else {
        phone_array_members(to.drop_last()) + seq![0x2cu8] + json_string(to.last())
    }
}

/// The serialized JSON body: the five fields in wire order, with the one
/// recipient group wrapped in the `to` array.
pub open spec fn json_body(p: PayloadView) -> Seq<u8> {
    encode_utf8("{\"message_body\":"@) + json_string(p.message_body) + encode_utf8(",\"from\":"@)
        + json_string(p.from) + encode_utf8(",\"send_at\":"@) + json_string_bytes(p.send_at)
        + encode_utf8(",\"valid_until\":"@) + json_string_bytes(p.valid_until)
        + encode_utf8(",\"to\":[{\"phone\":["@) + phone_array_members(p.to_group)
        + encode_utf8("]}]}"@)
}

/// The five request headers sent with every dispatch, in order, with
/// `Content-Length` the decimal byte length of the serialized body.
pub open spec fn spec_headers(apikey: Seq<char>, body_len: int) -> Seq<(Seq<char>, Seq<char>)> {
    seq![
        ("accept"@, "application/json"@),
        ("Content-Type"@, "application/json"@),
        ("X-auth-key"@, apikey),
        ("Content-Length"@, dec_chars(body_len)),
        ("User-Agent"@, "Rust/interact.rs"@),
    ]
}

/// Everything one dispatch needs: the endpoint, the five headers in order,
/// and the serialized JSON body.
pub struct HttpRequest {
    pub url: String,
    pub headers: Vec<(String, String)>,
    pub body: Vec<u8>,
}

/// The abstract content of an [`HttpRequest`].
pub ghost struct HttpRequestView {
    pub url: Seq<char>,
    pub headers: Seq<(Seq<char>, Seq<char>)>,
    pub body: Seq<u8>,
}

impl View for HttpRequest {
    type V = HttpRequestView;

    open spec fn view(&self) -> HttpRequestView {
        HttpRequestView {
            url: self.url@,
            headers: self.headers.deep_view(),
            body: self.body@,
        }
    }
}

/// `r` is exactly the request that builder state `m` yields at call time
/// `now`: the endpoint as target, the serialized payload as body, and the
/// five headers measured against that body.
pub open spec fn prepared_from(r: HttpRequestView, m: MessageView, now: i64) -> bool {
    &&& r.url == m.api_endpoint
    &&& r.body == json_body(payload_of(m, now))
    &&& r.headers == spec_headers(m.apikey, r.body.len() as int)
}

fn push_json_string(out: &mut Vec<u8>, s: &str)
    ensures
        final(out)@ == old(out)@ + json_string(s@),
{
    out.push(0x22);
    escape_str_extend(out, s);
    out.push(0x22);
    proof {
        assert(out@ =~= old(out)@ + json_string(s@));
    }
}

fn push_json_bytes_string(out: &mut Vec<u8>, s: &Vec<u8>)
    ensures
        final(out)@ == old(out)@ + json_string_bytes(s@),
{
    out.push(0x22);
    escape_extend(out, s.as_slice());
    out.push(0x22);
    proof {
        assert(out@ =~= old(out)@ + json_string_bytes(s@));
    }
}

proof fn lemma_phone_members_snoc(to: Seq<Seq<char>>, i: int)
    requires
        0 <= i < to.len(),
    ensures
        phone_array_members(to.take(i + 1)) == if i == 0 {
            json_string(to[0])
        } else {
            phone_array_members(to.take(i)) + seq![0x2cu8] + json_string(to[i])
        },
{
    assert(to.take(i + 1).drop_last() =~= to.take(i));
    assert(to.take(i + 1).last() == to[i]);
    if i == 0 {
        assert(to.take(1)[0] == to[0]);
    }
}

fn push_phone_members(out: &mut Vec<u8>, group: &Phonenumber)
    ensures
        final(out)@ == old(out)@ + phone_array_members(group@),
{
    let n = group.phone.len();
    let mut i: usize = 0;
    proof {
        assert(group@.len() == n);
        assert(group@.take(0) =~= Seq::<Seq<char>>::empty());
        assert(out@ =~= out@ + phone_array_members(group@.take(0)));
    }
    while i < n
        invariant
            n == group.phone@.len(),
            n == group@.len(),
            i <= n,
            group@ == group.phone.deep_view(),
            out@ == old(out)@ + phone_array_members(group@.take(i as int)),
        decreases n - i,
    {
        if i > 0 {
            out.push(0x2c);
        }
        push_json_string(out, group.phone[i].as_str());
        proof {
            assert(group@[i as int] == group.phone@[i as int]@);
            lemma_phone_members_snoc(group@, i as int);
            assert(out@ =~= old(out)@ + phone_array_members(group@.take(i as int + 1)));
        }
        i = i + 1;
    }
    proof {
        assert(group@.take(n as int) =~= group@);
    }
}

/// Serializes the payload pieces into the gateway's JSON body.
pub fn encode_payload(
    message_body: &str,
    from: &str,
    send_at: &Vec<u8>,
    valid_until: &Vec<u8>,
    group: &Phonenumber,
) -> (r: Vec<u8>)
    ensures
        r@ == json_body(
            PayloadView {
                message_body: message_body@,
                from: from@,
                send_at: send_at@,
                valid_until: valid_until@,
                to_group: group@,
            },
        ),
{
    let mut out: Vec<u8> = Vec::new();
    extend_with_str(&mut out, "{\"message_body\":");
    push_json_string(&mut out, message_body);
    extend_with_str(&mut out, ",\"from\":");
    push_json_string(&mut out, from);
    extend_with_str(&mut out, ",\"send_at\":");
    push_json_bytes_string(&mut out, send_at);
    extend_with_str(&mut out, ",\"valid_until\":");
    push_json_bytes_string(&mut out, valid_until);
    extend_with_str(&mut out, ",\"to\":[{\"phone\":[");
    push_phone_members(&mut out, group);
    extend_with_str(&mut out, "]}]}");
    proof {
        assert(out@ =~= json_body(
            PayloadView {
                message_body: message_body@,
                from: from@,
                send_at: send_at@,
                valid_until: valid_until@,
                to_group: group@,
            },
        ));
    }
    out
}

/// Builds the five request headers for a body of `body_len` bytes.
pub fn build_headers(apikey: &String, body_len: u64) -> (r: Vec<(String, String)>)
    ensures
        r.deep_view() == spec_headers(apikey@, body_len as int),
{
    let mut h: Vec<(String, String)> = Vec::new();
    h.push(("accept".to_owned(), "application/json".to_owned()));
    h.push(("Content-Type".to_owned(), "application/json".to_owned()));
    h.push(("X-auth-key".to_owned(), apikey.clone()));
    h.push(("Content-Length".to_owned(), u64_to_dec(body_len)));
    h.push(("User-Agent".to_owned(), "Rust/interact.rs".to_owned()));
    proof {
        assert(h.deep_view() =~= spec_headers(apikey@, body_len as int));
    }
    h
}

} // verus!
