//! The library-wide laws: how the defaults, the recipient grouping, the
//! last-write-wins mutators and the fixed header set show up in every
//! dispatched request.

use crate::codec::dec_chars;
use crate::message::{with_body, with_from, with_recipients, MessageView};
use crate::time::{utc_timestamp, MAX_TIMESTAMP};
use crate::wire::{payload_of, prepared_from, HttpRequestView};
use vstd::prelude::*;

verus! {

/// With no explicit send instant, the emitted `send_at` is the rendering of
/// call-time `now` plus five minutes (for instants whose sum is still
/// representable).
pub proof fn lemma_default_send_at(m: MessageView, now: i64)
    requires
        m.schedule_time is None,
        now + 300 <= MAX_TIMESTAMP,
    ensures
        payload_of(m, now).send_at == utc_timestamp((now + 300) as i64),
{
}

/// With no explicit expiry instant, the emitted `valid_until` is the
/// rendering of call-time `now` plus two days (for instants whose sum is
/// still representable).
pub proof fn lemma_default_valid_until(m: MessageView, now: i64)
    requires
        m.valid_until is None,
        now + 172800 <= MAX_TIMESTAMP,
    ensures
        payload_of(m, now).valid_until == utc_timestamp((now + 172800) as i64),
{
}

/// After any sequence of `add_recipient` calls, the payload's single
/// recipient group lists exactly the numbers already present plus those
/// calls' arguments, in call order, with no deduplication.
pub proof fn lemma_recipients_in_call_order(m: MessageView, phones: Seq<Seq<char>>, now: i64)
    ensures
        payload_of(with_recipients(m, phones), now).to_group == m.to + phones,
    decreases phones.len(),
{
    if phones.len() == 0 {
        assert(m.to + phones =~= m.to);
    } else {
        lemma_recipients_in_call_order(m, phones.drop_last(), now);
        assert(m.to + phones =~= (m.to + phones.drop_last()).push(phones.last()));
    }
}

/// Repeated `message` calls keep only the last body, repeated
/// `set_originator` calls only the last sender, and the payload carries
/// those last-set values.
pub proof fn lemma_last_write_wins(m: MessageView, first: Seq<char>, last: Seq<char>, now: i64)
    ensures
        with_body(with_body(m, first), last) == with_body(m, last),
        with_from(with_from(m, first), last) == with_from(m, last),
        payload_of(with_body(m, last), now).message_body == last,
        payload_of(with_from(m, last), now).from == last,
{
}

/// Every dispatched request carries exactly the five fixed headers, in
/// order, with `Content-Length` the decimal byte length of the serialized
/// body.
pub proof fn lemma_request_headers(r: HttpRequestView, m: MessageView, now: i64)
    requires
        prepared_from(r, m, now),
    ensures
        r.headers.len() == 5,
        r.headers[0] == ("accept"@, "application/json"@),
        r.headers[1] == ("Content-Type"@, "application/json"@),
        r.headers[2] == ("X-auth-key"@, m.apikey),
        r.headers[3] == ("Content-Length"@, dec_chars(r.body.len() as int)),
        r.headers[4] == ("User-Agent"@, "Rust/interact.rs"@),
{
}

} // verus!
