//! The fluent message builder: pure data accumulation, no validation and no
//! I/O. Every mutator consumes the builder and returns the updated value.

use crate::time::{format_timestamp, now_utc, UtcTime, MAX_TIMESTAMP, MIN_TIMESTAMP};
use crate::wire::{build_headers, encode_payload, prepared_from, HttpRequest, Phonenumber};
use vstd::prelude::*;

verus! {

/// The gateway's fixed submission endpoint.
pub open spec fn spec_api_endpoint() -> Seq<char> {
    "https://api.webexinteract.com/v1/sms"@
}

/// The abstract state of a message under construction.
pub ghost struct MessageView {
    pub api_endpoint: Seq<char>,
    pub apikey: Seq<char>,
    pub body: Seq<char>,
    pub from: Seq<char>,
    pub to: Seq<Seq<char>>,
    pub schedule_time: Option<i64>,
    pub valid_until: Option<i64>,
}

/// The state `sms_api` starts from: the fixed endpoint, the caller's key,
/// empty body and sender, no recipients, no explicit times.
pub open spec fn initial_message(apikey: Seq<char>) -> MessageView {
    MessageView {
        api_endpoint: spec_api_endpoint(),
        apikey: apikey,
        body: Seq::empty(),
        from: Seq::empty(),
        to: Seq::empty(),
        schedule_time: None,
        valid_until: None,
    }
}

/// One more recipient appended, in call order.
pub open spec fn with_recipient(m: MessageView, phone: Seq<char>) -> MessageView {
    MessageView { to: m.to.push(phone), ..m }
}

/// The builder state after appending each of `phones`, in order.
pub open spec fn with_recipients(m: MessageView, phones: Seq<Seq<char>>) -> MessageView
    decreases phones.len(),
{
    if phones.len() == 0 {
        m
    } else {
        with_recipient(with_recipients(m, phones.drop_last()), phones.last())
    }
}

/// The message body replaced (last write wins).
pub open spec fn with_body(m: MessageView, text: Seq<char>) -> MessageView {
    MessageView { body: text, ..m }
}

/// The sender identity replaced (last write wins).
pub open spec fn with_from(m: MessageView, name: Seq<char>) -> MessageView {
    MessageView { from: name, ..m }
}

/// An explicit expiry instant set.
pub open spec fn with_valid_until(m: MessageView, t: i64) -> MessageView {
    MessageView { valid_until: Some(t), ..m }
}

/// An explicit scheduled send instant set.
pub open spec fn with_schedule(m: MessageView, t: i64) -> MessageView {
    MessageView { schedule_time: Some(t), ..m }
}

/// A message being assembled for the gateway: body, sender, recipients and
/// timing, together with the endpoint and credential fixed at creation.
#[derive(Debug, Clone)]
pub struct InteractSMS {
    api_endpoint: String,
    apikey: String,
    body: String,
    from: String,
    to: Vec<String>,
    schedule_time: Option<UtcTime>,
    valid_until: Option<UtcTime>,
}

impl View for InteractSMS {
    type V = MessageView;

    closed spec fn view(&self) -> MessageView {
        MessageView {
            api_endpoint: self.api_endpoint@,
            apikey: self.apikey@,
            body: self.body@,
            from: self.from@,
            to: self.to.deep_view(),
            schedule_time: match self.schedule_time {
                Some(t) => Some(t.spec_timestamp()),
                None => None,
            },
            valid_until: match self.valid_until {
                Some(t) => Some(t.spec_timestamp()),
                None => None,
            },
        }
    }
}

/// Starts a builder for the fixed gateway endpoint with the given API key;
/// everything else begins at its default.
pub fn sms_api(api_key: String) -> (r: InteractSMS)
    ensures
        r@ == initial_message(api_key@),
{
    let r = InteractSMS {
        api_endpoint: "https://api.webexinteract.com/v1/sms".to_owned(),
        apikey: api_key,
        body: "".to_owned(),
        from: "".to_owned(),
        to: Vec::new(),
        schedule_time: None,
        valid_until: None,
    };
    proof {
        reveal_strlit("");
        assert(r@.body =~= Seq::<char>::empty());
        assert(r@.from =~= Seq::<char>::empty());
        assert(r@.to =~= Seq::<Seq<char>>::empty());
    }
    r
}

impl InteractSMS {
    /// Appends one recipient phone number; calls accumulate in order, with no
    /// de-duplication and no format validation.
    pub fn add_recipient(self, recipient: String) -> (r: InteractSMS)
        ensures
            r@ == with_recipient(self@, recipient@),
    {
        let ghost orig = self@;
        let mut m = self;
        m.to.push(recipient);
        proof {
            assert(m@.to =~= with_recipient(orig, recipient@).to);
        }
        m
    }

    /// Replaces the message body; the last call wins.
    pub fn message(self, message_body: String) -> (r: InteractSMS)
        ensures
            r@ == with_body(self@, message_body@),
    {
        let mut m = self;
        m.body = message_body;
        m
    }

    /// Replaces the sender identity; the last call wins.
    pub fn set_originator(self, sender_name: String) -> (r: InteractSMS)
        ensures
            r@ == with_from(self@, sender_name@),
    {
        let mut m = self;
        m.from = sender_name;
        m
    }

    /// Sets an explicit expiry instant.
    pub fn expires(self, expiry_timestamp: UtcTime) -> (r: InteractSMS)
        ensures
            r@ == with_valid_until(self@, expiry_timestamp.spec_timestamp()),
    {
        let mut m = self;
        m.valid_until = Some(expiry_timestamp);
        m
    }

    /// Sets an explicit scheduled send instant.
    pub fn send_at(self, send_timestamp: UtcTime) -> (r: InteractSMS)
        ensures
            r@ == with_schedule(self@, send_timestamp.spec_timestamp()),
    {
        let mut m = self;
        m.schedule_time = Some(send_timestamp);
        m
    }

    /// Builds the dispatchable request from the current builder state, with
    /// `now` standing for the call-time instant the two defaults come from.
    pub fn prepare_at(&self, now: UtcTime) -> (r: HttpRequest)
        ensures
            prepared_from(r@, self@, now.spec_timestamp()),
    {
        let send_at = match &self.schedule_time {
            Some(t) => *t,
            None => now.plus_seconds(300),
        };
        let valid_until = match &self.valid_until {
            Some(t) => *t,
            None => now.plus_seconds(172800),
        };
        let send_at_bytes = format_timestamp(&send_at);
        let valid_until_bytes = format_timestamp(&valid_until);
        let group = Phonenumber::group(clone_recipients(&self.to));
        let body = encode_payload(
            self.body.as_str(),
            self.from.as_str(),
            &send_at_bytes,
            &valid_until_bytes,
            &group,
        );
        let headers = build_headers(&self.apikey, body.len() as u64);
        HttpRequest { url: self.api_endpoint.clone(), headers, body }
    }

    /// Builds the dispatchable request, reading the clock for the two
    /// defaults: for some call-time instant `now`, the result is exactly what
    /// `prepare_at` yields for it.
    pub fn prepare(&self) -> (r: HttpRequest)
        ensures
            exists|now: i64|
                #[trigger] prepared_from(r@, self@, now) && MIN_TIMESTAMP <= now <= MAX_TIMESTAMP,
    {
        let now = now_utc();
        let now_secs = now.timestamp();
        let r = self.prepare_at(now);
        proof {
            assert(prepared_from(r@, self@, now_secs) && MIN_TIMESTAMP <= now_secs
                <= MAX_TIMESTAMP);
        }
        r
    }
}

fn clone_recipients(v: &Vec<String>) -> (r: Vec<String>)
    ensures
        r@ == v@,
{
    let mut r: Vec<String> = Vec::new();
    let n = v.len();
    let mut i: usize = 0;
    while i < n
        invariant
            n == v@.len(),
            i <= n,
            r@ == v@.take(i as int),
        decreases n - i,
    {
        r.push(v[i].clone());
        proof {
            assert(r@ =~= v@.take(i as int + 1));
        }
        i = i + 1;
    }
    proof {
        assert(v@.take(n as int) =~= v@);
    }
    r
}

} // verus!
