//! The standard payment request: its fields, the builder-style setters
//! for the optional ones, and its canonical string — the exact
//! concatenation of its fields, in the protocol's fixed order, that is
//! signed when the request is submitted.
use vstd::prelude::*;

use crate::form;
use crate::text;

verus! {

/// The text an optional field contributes to a canonical string: the
/// field itself, or nothing when absent.
pub open spec fn opt_text(o: Option<String>) -> Seq<char> {
    match o {
        Option::Some(s) => s@,
        Option::None => Seq::<char>::empty(),
    }
}

/// The text an optional boolean contributes: its true/false form, or
/// nothing when absent.
pub open spec fn opt_bool_text(o: Option<bool>) -> Seq<char> {
    match o {
        Option::Some(b) => text::bool_text(b),
        Option::None => Seq::<char>::empty(),
    }
}

/// Append an optional field to a canonical string under construction.
pub fn append_opt(out: &mut String, o: &Option<String>)
    ensures
        final(out)@ == old(out)@ + opt_text(*o),
{
    match o {
        Option::Some(s) => out.append(s.as_str()),
        Option::None => {
            proof {
                assert(old(out)@ + opt_text(Option::<String>::None) =~= old(out)@);
            }
        },
    }
}

/// A standard payment request. The amount travels as its exact decimal
/// text; no field is validated locally — the vendor rejects bad values
/// through the error channel.
pub struct Payment {
    pub id: u64,
    pub reference: String,
    pub amount: String,
    pub additional_info: Option<String>,
    pub return_url: Option<String>,
    pub result_url: String,
    pub auth_email: Option<String>,
    pub tokenize: Option<bool>,
    pub merchant_trace: Option<String>,
}

/// The canonical string of a standard payment: merchant id, reference,
/// amount, optional additional info, optional return URL, result URL,
/// optional auth email, optional tokenize flag, optional merchant
/// trace, then the fixed status tag `Message` — concatenated with no
/// separator.
pub open spec fn spec_canonical(p: Payment) -> Seq<char> {
    text::dec_digits(p.id as nat) + p.reference@ + p.amount@ + opt_text(p.additional_info)
        + opt_text(p.return_url) + p.result_url@ + opt_text(p.auth_email) + opt_bool_text(
        p.tokenize,
    ) + opt_text(p.merchant_trace) + "Message"@
}

impl Payment {
    /// Build the canonical string that is signed on submission.
    pub fn canonical(&self) -> (r: String)
        ensures
            r@ == spec_canonical(*self),
    {
        let mut out = String::new();
        text::append_u64(&mut out, self.id);
        out.append(self.reference.as_str());
        out.append(self.amount.as_str());
        append_opt(&mut out, &self.additional_info);
        append_opt(&mut out, &self.return_url);
        out.append(self.result_url.as_str());
        append_opt(&mut out, &self.auth_email);
        match self.tokenize {
            Option::Some(b) => out.append(text::bool_to_str(b)),
            Option::None => {},
        }
        append_opt(&mut out, &self.merchant_trace);
        out.append("Message");
        proof {
            assert(out@ =~= spec_canonical(*self));
        }
        out
    }

    /// Set the optional additional information.
    pub fn additional_info(&mut self, info: String)
        ensures
            *final(self) == (Payment { additional_info: Option::Some(info), ..*old(self) }),
    {
        self.additional_info = Some(info);
    }

    /// Set the optional customer email for authentication.
    pub fn auth_email(&mut self, email: String)
        ensures
            *final(self) == (Payment { auth_email: Option::Some(email), ..*old(self) }),
    {
        self.auth_email = Some(email);
    }

    /// Set the optional merchant trace identifier.
    pub fn merchant_trace(&mut self, id: String)
        ensures
            *final(self) == (Payment { merchant_trace: Option::Some(id), ..*old(self) }),
    {
        self.merchant_trace = Some(id);
    }

    /// Ask the vendor to tokenize the payment instrument.
    pub fn tokenize(&mut self, tokenize: bool)
        ensures
            *final(self) == (Payment { tokenize: Option::Some(tokenize), ..*old(self) }),
    {
        self.tokenize = Some(tokenize);
    }
}

/// A successful response to a standard payment: where to send the
/// customer's browser, where to poll for status, and the vendor's
/// signature over (status, browser URL, poll URL).
pub struct Response {
    pub browser_url: String,
    pub poll_url: String,
    pub hash: String,
}

/// The canonical string the vendor signed in a standard response.
pub open spec fn spec_response_canonical(r: Response) -> Seq<char> {
    "Ok"@ + r.browser_url@ + r.poll_url@
}

impl Response {
    /// The URL the customer's browser is redirected to.
    pub fn browser_url(&self) -> (r: &str)
        ensures
            r@ == self.browser_url@,
    {
        self.browser_url.as_str()
    }

    /// Consume the response, keeping the browser URL.
    pub fn take_browser_url(self) -> (r: String)
        ensures
            r@ == self.browser_url@,
    {
        self.browser_url
    }

    /// The URL to poll for the transaction's status.
    pub fn poll_url(&self) -> (r: &str)
        ensures
            r@ == self.poll_url@,
    {
        self.poll_url.as_str()
    }

    /// Consume the response, keeping the poll URL.
    pub fn take_poll_url(self) -> (r: String)
        ensures
            r@ == self.poll_url@,
    {
        self.poll_url
    }
}

/// Whether a decoded body has the standard success shape: status `Ok`
/// and exactly one browser URL, poll URL and signature.
pub open spec fn ok_shape(ps: Seq<(Seq<char>, Seq<char>)>) -> bool {
    form::count_key(ps, "status"@) == 1 && form::first_val(ps, "status"@) == "Ok"@
        && form::count_key(ps, "browserurl"@) == 1 && form::count_key(ps, "pollurl"@) == 1
        && form::count_key(ps, "hash"@) == 1
}

/// The canonical string the vendor signed, read off the wire fields of
/// a standard success body.
pub open spec fn spec_ok_wire_canonical(ps: Seq<(Seq<char>, Seq<char>)>) -> Seq<char> {
    "Ok"@ + form::first_val(ps, "browserurl"@) + form::first_val(ps, "pollurl"@)
}

/// Decode a field list as a standard success response, without yet
/// checking its signature.
pub fn decode_standard_ok(pairs: &Vec<(String, String)>) -> (r: Option<Response>)
    ensures
        match r {
            Option::Some(res) => ok_shape(form::pairs_view(pairs@)) && res.browser_url@
                == form::first_val(form::pairs_view(pairs@), "browserurl"@) && res.poll_url@
                == form::first_val(form::pairs_view(pairs@), "pollurl"@) && res.hash@
                == form::first_val(form::pairs_view(pairs@), "hash"@),
            Option::None => !ok_shape(form::pairs_view(pairs@)),
        },
{
    let st = match form::field_of(pairs, "status") {
        form::FieldLookup::One(v) => v,
        _ => {
            return None;
        },
    };
    if !text::str_eq(st.as_str(), "Ok") {
        return None;
    }
    let browser_url = match form::field_of(pairs, "browserurl") {
        form::FieldLookup::One(v) => v,
        _ => {
            return None;
        },
    };
    let poll_url = match form::field_of(pairs, "pollurl") {
        form::FieldLookup::One(v) => v,
        _ => {
            return None;
        },
    };
    let hash = match form::field_of(pairs, "hash") {
        form::FieldLookup::One(v) => v,
        _ => {
            return None;
        },
    };
    Some(Response { browser_url, poll_url, hash })
}

/// What an optional field contributes to a wire field list: one named
/// pair, or nothing when absent.
pub open spec fn opt_field(name: Seq<char>, o: Option<String>) -> Seq<(Seq<char>, Seq<char>)> {
    match o {
        Option::Some(s) => seq![(name, s@)],
        Option::None => Seq::<(Seq<char>, Seq<char>)>::empty(),
    }
}

/// What an optional boolean contributes to a wire field list.
pub open spec fn opt_bool_field(name: Seq<char>, o: Option<bool>) -> Seq<
    (Seq<char>, Seq<char>),
> {
    match o {
        Option::Some(b) => seq![(name, text::bool_text(b))],
        Option::None => Seq::<(Seq<char>, Seq<char>)>::empty(),
    }
}

/// The wire fields of a standard payment submission, in order, absent
/// optionals skipped, closed by the fixed status tag and the
/// signature.
pub open spec fn spec_fields(p: Payment, key: Seq<char>) -> Seq<(Seq<char>, Seq<char>)> {
    seq![
        ("id"@, text::dec_digits(p.id as nat)),
        ("reference"@, p.reference@),
        ("amount"@, p.amount@),
    ] + opt_field("additionalinfo"@, p.additional_info) + opt_field("returnurl"@, p.return_url)
        + seq![("resulturl"@, p.result_url@)] + opt_field("authemail"@, p.auth_email)
        + opt_bool_field("tokenize"@, p.tokenize) + opt_field("merchanttrace"@, p.merchant_trace)
        + seq![
        ("status"@, "Message"@),
        ("hash"@, crate::digest::spec_signature(spec_canonical(p), key)),
    ]
}

/// Push one named field onto a wire field list.
pub fn push_field(out: &mut Vec<(String, String)>, name: &str, value: String)
    ensures
        form::pairs_view(final(out)@) == form::pairs_view(old(out)@) + seq![(name@, value@)],
{
    let owned = name.to_owned();
    let ghost pre = out@;
    out.push((owned, value));
    proof {
        assert(form::pairs_view(out@) =~= form::pairs_view(pre) + seq![(name@, value@)]);
    }
}

fn push_opt_field(out: &mut Vec<(String, String)>, name: &str, value: &Option<String>)
    ensures
        form::pairs_view(final(out)@) == form::pairs_view(old(out)@) + opt_field(name@, *value),
{
    match value {
        Option::Some(v) => push_field(out, name, v.clone()),
        Option::None => {
            proof {
                assert(form::pairs_view(out@) =~= form::pairs_view(out@) + opt_field(
                    name@,
                    Option::<String>::None,
                ));
            }
        },
    }
}

impl Payment {
    /// The wire fields of this payment's submission, signed with the
    /// given key.
    pub fn fields(&self, key: &crate::key::Key) -> (r: Vec<(String, String)>)
        ensures
            form::pairs_view(r@) == spec_fields(*self, key@),
    {
        let mut out: Vec<(String, String)> = Vec::new();
        push_field(&mut out, "id", text::u64_to_string(self.id));
        push_field(&mut out, "reference", self.reference.clone());
        push_field(&mut out, "amount", self.amount.clone());
        push_opt_field(&mut out, "additionalinfo", &self.additional_info);
        push_opt_field(&mut out, "returnurl", &self.return_url);
        push_field(&mut out, "resulturl", self.result_url.clone());
        push_opt_field(&mut out, "authemail", &self.auth_email);
        match self.tokenize {
            Option::Some(b) => push_field(&mut out, "tokenize", String::from_str(
                text::bool_to_str(b),
            )),
            Option::None => {},
        }
        push_opt_field(&mut out, "merchanttrace", &self.merchant_trace);
        push_field(&mut out, "status", String::from_str("Message"));
        let canonical = self.canonical();
        push_field(&mut out, "hash", crate::digest::sign(canonical.as_str(), key));
        proof {
            assert(form::pairs_view(out@) =~= spec_fields(*self, key@));
        }
        out
    }
}

/// Canonicalization is deterministic: logically identical requests
/// canonicalize to the identical string.
pub proof fn lemma_canonical_deterministic(p1: Payment, p2: Payment)
    requires
        p1 == p2,
    ensures
        spec_canonical(p1) == spec_canonical(p2),
{
}

} // verus!
