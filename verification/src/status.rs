//! Transaction status updates: the message the gateway posts to the
//! merchant's result URL (or returns to a poll), its fixed status
//! vocabulary, the optional tokenization payload, and the signature
//! check that must pass before any field of an update is trusted.
use vstd::prelude::*;

use crate::date;
use crate::date::Date;
use crate::form;
use crate::digest;
use crate::error::Error;
use crate::key::Key;
use crate::payment::opt_text;
use crate::text;

verus! {

/// Where a transaction stands at the gateway.
#[derive(Clone, Copy, PartialEq, Eq, Structural, Debug)]
pub enum Status {
    /// Created in Paynow but not yet paid by the customer.
    Created,
    /// Cancelled in Paynow; it may not be resumed.
    Cancelled,
    /// Referred to an upstream system, payment not yet made.
    Sent,
    /// Paid, in suspense until the merchant confirms delivery.
    AwaitingDelivery,
    /// Delivery acknowledged, funds await the confirmation window.
    Delivered,
    /// Paid; the merchant receives the funds at next settlement.
    Paid,
    /// Disputed by the customer; funds held in suspense.
    Disputed,
    /// Funds refunded to the customer.
    Refunded,
}

/// The fixed wire text of each status.
pub open spec fn spec_status_text(s: Status) -> Seq<char> {
    match s {
        Status::Created => "Created"@,
        Status::Cancelled => "Cancelled"@,
        Status::Sent => "Sent"@,
        Status::AwaitingDelivery => "Awaiting Delivery"@,
        Status::Delivered => "Delivered"@,
        Status::Paid => "Paid"@,
        Status::Disputed => "Disputed"@,
        Status::Refunded => "Refunded"@,
    }
}

/// Whether `s` is the wire text of some status.
pub open spec fn is_status_text(s: Seq<char>) -> bool {
    s == "Created"@ || s == "Cancelled"@ || s == "Sent"@ || s == "Awaiting Delivery"@ || s
        == "Delivered"@ || s == "Paid"@ || s == "Disputed"@ || s == "Refunded"@
}

impl Status {
    /// The fixed wire text of this status.
    pub fn text(&self) -> (r: &'static str)
        ensures
            r@ == spec_status_text(*self),
    {
        match self {
            Status::Created => "Created",
            Status::Cancelled => "Cancelled",
            Status::Sent => "Sent",
            Status::AwaitingDelivery => "Awaiting Delivery",
            Status::Delivered => "Delivered",
            Status::Paid => "Paid",
            Status::Disputed => "Disputed",
            Status::Refunded => "Refunded",
        }
    }

    /// Parse a wire status text; any other literal is rejected.
    pub fn parse(s: &str) -> (r: Option<Status>)
        ensures
            match r {
                Option::Some(st) => s@ == spec_status_text(st),
                Option::None => !is_status_text(s@),
            },
    {
        if text::str_eq(s, "Created") {
            Some(Status::Created)
        } else if text::str_eq(s, "Cancelled") {
            Some(Status::Cancelled)
        } else if text::str_eq(s, "Sent") {
            Some(Status::Sent)
        } else if text::str_eq(s, "Awaiting Delivery") {
            Some(Status::AwaitingDelivery)
        } else if text::str_eq(s, "Delivered") {
            Some(Status::Delivered)
        } else if text::str_eq(s, "Paid") {
            Some(Status::Paid)
        } else if text::str_eq(s, "Disputed") {
            Some(Status::Disputed)
        } else if text::str_eq(s, "Refunded") {
            Some(Status::Refunded)
        } else {
            None
        }
    }
}

/// The tokenized payment instrument returned when the merchant asked
/// for tokenization: the token and its expiry date.
#[derive(Clone)]
pub struct Token {
    pub token: String,
    pub expiry: Date,
}

impl Token {
    /// The token string.
    pub fn token(&self) -> (r: &str)
        ensures
            r@ == self.token@,
    {
        self.token.as_str()
    }

    /// Consume the token payload, keeping the token string.
    pub fn take_token(self) -> (r: String)
        ensures
            r@ == self.token@,
    {
        self.token
    }

    /// The token's expiry date.
    pub fn expiry(&self) -> (r: Date)
        ensures
            r == self.expiry,
    {
        self.expiry
    }
}

/// What an optional token contributes to the canonical string: the
/// token text then the `DDMonYYYY` expiry, or nothing.
pub open spec fn spec_token_text(t: Option<Token>) -> Seq<char> {
    match t {
        Option::Some(t) => t.token@ + date::spec_format(t.expiry),
        Option::None => Seq::<char>::empty(),
    }
}

/// A status update as decoded from the wire. Its fields may be trusted
/// only after `validate` has accepted the signature.
#[derive(Clone)]
pub struct Update {
    pub reference: String,
    pub paynow_reference: u64,
    pub amount: String,
    pub status: Status,
    pub poll_url: String,
    pub token: Option<Token>,
    pub hash: String,
}

/// The canonical string of a status update: reference, vendor
/// reference, amount, status text, poll URL, then token and expiry or
/// nothing.
pub open spec fn spec_canonical(u: Update) -> Seq<char> {
    u.reference@ + text::dec_digits(u.paynow_reference as nat) + u.amount@ + spec_status_text(
        u.status,
    ) + u.poll_url@ + spec_token_text(u.token)
}

impl Update {
    /// Build the canonical string whose signature the vendor sent.
    pub fn canonical(&self) -> (r: String)
        requires
            (match self.token {
                Option::Some(t) => t.expiry.wf(),
                Option::None => true,
            }),
        ensures
            r@ == spec_canonical(*self),
    {
        let mut out = String::new();
        out.append(self.reference.as_str());
        text::append_u64(&mut out, self.paynow_reference);
        out.append(self.amount.as_str());
        out.append(self.status.text());
        out.append(self.poll_url.as_str());
        match &self.token {
            Option::Some(t) => {
                out.append(t.token.as_str());
                let expiry = t.expiry.format();
                out.append(expiry.as_str());
            },
            Option::None => {},
        }
        proof {
            assert(out@ =~= spec_canonical(*self));
        }
        out
    }

    /// The merchant's reference for the transaction.
    pub fn reference(&self) -> (r: &str)
        ensures
            r@ == self.reference@,
    {
        self.reference.as_str()
    }

    /// Consume the update, keeping the reference.
    pub fn take_reference(self) -> (r: String)
        ensures
            r@ == self.reference@,
    {
        self.reference
    }

    /// The vendor's reference number for the transaction.
    pub fn paynow_reference(self) -> (r: u64)
        ensures
            r == self.paynow_reference,
    {
        self.paynow_reference
    }

    /// The transaction amount, as its exact decimal text.
    pub fn amount(self) -> (r: String)
        ensures
            r@ == self.amount@,
    {
        self.amount
    }

    /// Where the transaction stands.
    pub fn status(self) -> (r: Status)
        ensures
            r == self.status,
    {
        self.status
    }

    /// The URL to poll for further updates.
    pub fn poll_url(&self) -> (r: &str)
        ensures
            r@ == self.poll_url@,
    {
        self.poll_url.as_str()
    }

    /// Consume the update, keeping the poll URL.
    pub fn take_poll_url(self) -> (r: String)
        ensures
            r@ == self.poll_url@,
    {
        self.poll_url
    }

    /// The tokenized payment instrument, when one was returned.
    pub fn token(&self) -> (r: Option<&Token>)
        ensures
            match r {
                Option::Some(t) => self.token matches Option::Some(t0) && t == t0,
                Option::None => self.token is None,
            },
    {
        self.token.as_ref()
    }

    /// Consume the update, keeping the token.
    pub fn take_token(self) -> (r: Option<Token>)
        ensures
            r == self.token,
    {
        self.token
    }

    /// Check the update's signature against the integration key. An
    /// update whose signature does not verify must never be trusted:
    /// the error carries the canonical string that failed.
    pub fn validate(&self, key: &Key) -> (r: Result<(), Error>)
        requires
            (match self.token {
                Option::Some(t) => t.expiry.wf(),
                Option::None => true,
            }),
        ensures
            r is Ok <==> digest::spec_verify(self.hash@, spec_canonical(*self), key@),
            (match r {
                Result::Err(e) => e matches Error::HashMismatch(c) && c@ == spec_canonical(*self),
                Result::Ok(()) => true,
            }),
    {
        let canonical = self.canonical();
        if digest::verify_signature(self.hash.as_str(), canonical.as_str(), key) {
            Ok(())
        } else {
            Err(Error::HashMismatch(canonical))
        }
    }
}

/// A merchant-initiated status lookup by trace id, with its own
/// signature: merchant id, trace id, then the fixed tag `Message`.
pub struct MerchantTrace {
    pub id: u64,
    pub merchant_trace: String,
    pub hash: String,
}

/// The canonical string of a trace lookup.
pub open spec fn spec_trace_canonical(id: u64, merchant_trace: Seq<char>) -> Seq<char> {
    text::dec_digits(id as nat) + merchant_trace + "Message"@
}

/// The wire fields of a trace lookup.
pub open spec fn spec_trace_fields(t: MerchantTrace) -> Seq<(Seq<char>, Seq<char>)> {
    seq![
        ("id"@, text::dec_digits(t.id as nat)),
        ("merchanttrace"@, t.merchant_trace@),
        ("status"@, "Message"@),
        ("hash"@, t.hash@),
    ]
}

impl MerchantTrace {
    /// The wire fields of this lookup, in order.
    pub fn fields(&self) -> (r: Vec<(String, String)>)
        ensures
            form::pairs_view(r@) == spec_trace_fields(*self),
    {
        let mut out: Vec<(String, String)> = Vec::new();
        crate::payment::push_field(&mut out, "id", text::u64_to_string(self.id));
        crate::payment::push_field(&mut out, "merchanttrace", self.merchant_trace.clone());
        crate::payment::push_field(&mut out, "status", String::from_str("Message"));
        crate::payment::push_field(&mut out, "hash", self.hash.clone());
        proof {
            assert(form::pairs_view(out@) =~= spec_trace_fields(*self));
        }
        out
    }

    /// Build a signed trace lookup for a merchant id and trace id.
    pub fn new(id: u64, merchant_trace: String, key: &Key) -> (r: MerchantTrace)
        ensures
            r.id == id,
            r.merchant_trace@ == merchant_trace@,
            r.hash@ == digest::spec_signature(spec_trace_canonical(id, merchant_trace@), key@),
    {
        let mut canonical = text::u64_to_string(id);
        canonical.append(merchant_trace.as_str());
        canonical.append("Message");
        proof {
            assert(canonical@ =~= spec_trace_canonical(id, merchant_trace@));
        }
        let hash = digest::sign(canonical.as_str(), key);
        MerchantTrace { id, merchant_trace, hash }
    }
}

/// Whether a decoded body has the status-update shape: the required
/// fields exactly once, a numeric vendor reference, a decimal amount, a
/// known status text, and the token fields either both present (with a
/// parsable expiry) or both absent.
pub open spec fn update_shape(ps: Seq<(Seq<char>, Seq<char>)>) -> bool {
    form::count_key(ps, "reference"@) == 1 && form::count_key(ps, "paynowreference"@) == 1
        && text::is_u64_text(form::first_val(ps, "paynowreference"@)) && form::count_key(
        ps,
        "amount"@,
    ) == 1 && text::is_decimal_text(form::first_val(ps, "amount"@)) && form::count_key(
        ps,
        "status"@,
    ) == 1 && is_status_text(form::first_val(ps, "status"@)) && form::count_key(ps, "pollurl"@)
        == 1 && form::count_key(ps, "hash"@) == 1 && update_token_shape(ps)
}

/// The token part of the update shape.
pub open spec fn update_token_shape(ps: Seq<(Seq<char>, Seq<char>)>) -> bool {
    (form::count_key(ps, "token"@) == 0 && form::count_key(ps, "tokenexpiry"@) == 0) || (
    form::count_key(ps, "token"@) == 1 && form::count_key(ps, "tokenexpiry"@) == 1
        && date::spec_parse(form::first_val(ps, "tokenexpiry"@)) is Some)
}

/// Whether an update carries exactly the values of a decoded body.
pub open spec fn update_matches(u: Update, ps: Seq<(Seq<char>, Seq<char>)>) -> bool {
    u.reference@ == form::first_val(ps, "reference"@) && u.paynow_reference as int
        == text::digits_value(form::first_val(ps, "paynowreference"@)) && u.amount@
        == form::first_val(ps, "amount"@) && spec_status_text(u.status) == form::first_val(
        ps,
        "status"@,
    ) && u.poll_url@ == form::first_val(ps, "pollurl"@) && u.hash@ == form::first_val(ps, "hash"@)
        && (match u.token {
        Option::Some(t) => form::count_key(ps, "token"@) == 1 && t.token@ == form::first_val(
            ps,
            "token"@,
        ) && Option::Some(t.expiry) == date::spec_parse(form::first_val(ps, "tokenexpiry"@)),
        Option::None => form::count_key(ps, "token"@) == 0,
    })
}

/// The canonical string the vendor signed, read off the wire fields of
/// an update body: the vendor reference re-rendered from its numeric
/// value, the token expiry exactly as it came.
pub open spec fn spec_update_wire_canonical(ps: Seq<(Seq<char>, Seq<char>)>) -> Seq<char> {
    form::first_val(ps, "reference"@) + text::dec_digits(
        text::digits_value(form::first_val(ps, "paynowreference"@)) as nat,
    ) + form::first_val(ps, "amount"@) + form::first_val(ps, "status"@) + form::first_val(
        ps,
        "pollurl"@,
    ) + (if form::count_key(ps, "token"@) == 1 {
        form::first_val(ps, "token"@) + form::first_val(ps, "tokenexpiry"@)
    } else {
        Seq::<char>::empty()
    })
}

impl Update {
    /// The bounds under which the update's canonical string is defined.
    pub open spec fn wf(self) -> bool {
        match self.token {
            Option::Some(t) => t.expiry.wf(),
            Option::None => true,
        }
    }
}

/// An update that carries a decoded body's values canonicalizes to the
/// very string the wire fields spell out.
pub proof fn lemma_update_canonical(u: Update, ps: Seq<(Seq<char>, Seq<char>)>)
    requires
        update_shape(ps),
        update_matches(u, ps),
    ensures
        spec_canonical(u) == spec_update_wire_canonical(ps),
        u.wf(),
{
    match u.token {
        Option::Some(t) => {
            date::lemma_format_parse_round_trip(form::first_val(ps, "tokenexpiry"@), t.expiry);
            assert(spec_token_text(u.token) == form::first_val(ps, "token"@) + form::first_val(
                ps,
                "tokenexpiry"@,
            ));
        },
        Option::None => {},
    }
}

/// Decode a field list as a status update, without yet checking its
/// signature.
pub fn decode_update(pairs: &Vec<(String, String)>) -> (r: Option<Update>)
    ensures
        match r {
            Option::Some(u) => update_shape(form::pairs_view(pairs@)) && update_matches(
                u,
                form::pairs_view(pairs@),
            ) && u.wf(),
            Option::None => !update_shape(form::pairs_view(pairs@)),
        },
{
    let reference = match form::field_of(pairs, "reference") {
        form::FieldLookup::One(v) => v,
        _ => {
            return None;
        },
    };
    let pn_text = match form::field_of(pairs, "paynowreference") {
        form::FieldLookup::One(v) => v,
        _ => {
            return None;
        },
    };
    let paynow_reference = match text::parse_u64(pn_text.as_str()) {
        Option::Some(v) => v,
        Option::None => {
            return None;
        },
    };
    let amount = match form::field_of(pairs, "amount") {
        form::FieldLookup::One(v) => v,
        _ => {
            return None;
        },
    };
    if !text::is_decimal_str(amount.as_str()) {
        return None;
    }
    let status_text = match form::field_of(pairs, "status") {
        form::FieldLookup::One(v) => v,
        _ => {
            return None;
        },
    };
    let status = match Status::parse(status_text.as_str()) {
        Option::Some(st) => st,
        Option::None => {
            return None;
        },
    };
    let poll_url = match form::field_of(pairs, "pollurl") {
        form::FieldLookup::One(v) => v,
        _ => {
            return None;
        },
    };
    let hash = match form::field_of(pairs, "hash") {
        form::FieldLookup::One(v) => v,
        _ => {
            return None;
        },
    };
    let token = match (form::field_of(pairs, "token"), form::field_of(pairs, "tokenexpiry")) {
        (form::FieldLookup::Absent, form::FieldLookup::Absent) => None,
        (form::FieldLookup::One(t), form::FieldLookup::One(e)) => {
            match date::parse(e.as_str()) {
                Option::Some(d) => {
                    proof {
                        date::lemma_format_parse_round_trip(e@, d);
                    }
                    Some(Token { token: t, expiry: d })
                },
                Option::None => {
                    return None;
                },
            }
        },
        _ => {
            return None;
        },
    };
    Some(
        Update { reference, paynow_reference, amount, status, poll_url, token, hash },
    )
}

/// Whether a decoded body has the trace not-found shape: status
/// `NotFound` and its own signature.
pub open spec fn notfound_shape(ps: Seq<(Seq<char>, Seq<char>)>) -> bool {
    form::count_key(ps, "status"@) == 1 && form::first_val(ps, "status"@) == "NotFound"@
        && form::count_key(ps, "hash"@) == 1
}

/// Decode a field list as a trace not-found body, yielding its
/// signature, which must itself verify before the answer is trusted.
pub fn decode_notfound(pairs: &Vec<(String, String)>) -> (r: Option<String>)
    ensures
        match r {
            Option::Some(h) => notfound_shape(form::pairs_view(pairs@)) && h@ == form::first_val(
                form::pairs_view(pairs@),
                "hash"@,
            ),
            Option::None => !notfound_shape(form::pairs_view(pairs@)),
        },
{
    let st = match form::field_of(pairs, "status") {
        form::FieldLookup::One(v) => v,
        _ => {
            return None;
        },
    };
    if !text::str_eq(st.as_str(), "NotFound") {
        return None;
    }
    match form::field_of(pairs, "hash") {
        form::FieldLookup::One(v) => Some(v),
        _ => None,
    }
}

} // verus!
