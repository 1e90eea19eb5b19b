//! Client-side core of the Paynow Zimbabwe payment-gateway protocol:
//! canonical field concatenation, the keyed SHA-512 signature scheme
//! that signs outgoing requests and authenticates inbound responses,
//! the payment-request model, the form-encoded response decoder and
//! the vendor-error classifier. Network transport stays with the
//! caller: this crate builds and signs what is sent, and decodes,
//! classifies and signature-checks what comes back.
pub mod date;
pub mod digest;
pub mod error;
pub mod express;
pub mod form;
pub mod key;
pub mod payment;
pub mod status;
pub mod text;

use vstd::prelude::*;

use crate::error::Error;
use crate::error::VendorError;
use crate::key::Key;
use crate::status::MerchantTrace;
use crate::status::Update;

verus! {

broadcast use vstd::string::group_string_axioms;

/// How a vendor error message decides a submission's result: the fixed
/// table maps it to a structured error, anything else stays an opaque
/// vendor response with the success transport status.
pub open spec fn spec_submit_error<T>(
    r: Result<T, Error>,
    m: Seq<char>,
    id: u64,
    amount: Seq<char>,
) -> bool {
    if m == "Invalid Id."@ {
        r matches Err(Error::InvalidId(i)) && i == id
    } else if m == "Invalid amount field."@ {
        r matches Err(Error::InvalidAmount(a)) && a@ == amount
    } else if m == "Conversion overflows."@ {
        r matches Err(Error::AmountOverflow(a)) && a@ == amount
    } else if m == "Insufficient balance"@ {
        r matches Err(Error::InsufficientBalance)
    } else {
        r matches Err(Error::Response(c, s)) && c == 200 && s@ == m
    }
}

/// How a vendor error message decides a poll or trace result: amount
/// errors cannot arise from a lookup, so they stay an unexpected
/// response carrying the raw body.
pub open spec fn spec_lookup_error<T>(
    r: Result<T, Error>,
    m: Seq<char>,
    id: u64,
    body: Seq<char>,
) -> bool {
    if m == "Invalid Id."@ {
        r matches Err(Error::InvalidId(i)) && i == id
    } else if m == "Insufficient balance"@ {
        r matches Err(Error::InsufficientBalance)
    } else if m == "Invalid amount field."@ || m == "Conversion overflows."@ {
        r matches Err(Error::UnexpectedResponse(b)) && b@ == body
    } else {
        r matches Err(Error::Response(c, s)) && c == 200 && s@ == m
    }
}

/// The Paynow client configuration: merchant id, secret integration
/// key, and the gateway's base path. Read-only after construction, so
/// it is safe to share across any number of concurrent calls.
pub struct Client {
    pub id: u64,
    pub key: Key,
    pub base: String,
}

impl Client {
    /// Create a client for a merchant id and integration key, against
    /// the fixed production gateway base.
    pub fn new(id: u64, key: Key) -> (r: Self)
        ensures
            r.id == id,
            r.key@ == key@,
            r.base@ == "https://www.paynow.co.zw/interface/"@,
    {
        Client { id, key, base: String::from_str("https://www.paynow.co.zw/interface/") }
    }

    /// Begin a standard payment; optional fields start absent and are
    /// set through the builder methods.
    pub fn payment(
        &self,
        reference: String,
        amount: String,
        return_url: String,
        result_url: String,
    ) -> (r: payment::Payment)
        ensures
            r == (payment::Payment {
                id: self.id,
                reference,
                amount,
                additional_info: Option::None,
                return_url: Option::Some(return_url),
                result_url,
                auth_email: Option::None,
                tokenize: Option::None,
                merchant_trace: Option::None,
            }),
    {
        payment::Payment {
            id: self.id,
            reference,
            amount,
            additional_info: None,
            return_url: Some(return_url),
            result_url,
            auth_email: None,
            tokenize: None,
            merchant_trace: None,
        }
    }

    /// Begin an express payment: no browser redirect, so no return
    /// URL, and the auth email and merchant trace are required.
    pub fn express_payment(
        &self,
        method: express::Method,
        reference: String,
        amount: String,
        result_url: String,
        auth_email: String,
        merchant_trace: String,
    ) -> (r: express::Payment)
        ensures
            r.method == method,
            r.payment == (payment::Payment {
                id: self.id,
                reference,
                amount,
                additional_info: Option::None,
                return_url: Option::None,
                result_url,
                auth_email: Option::Some(auth_email),
                tokenize: Option::None,
                merchant_trace: Option::Some(merchant_trace),
            }),
    {
        let payment = payment::Payment {
            id: self.id,
            reference,
            amount,
            additional_info: None,
            return_url: None,
            result_url,
            auth_email: Some(auth_email),
            tokenize: None,
            merchant_trace: Some(merchant_trace),
        };
        express::Payment { payment, method }
    }

    /// The endpoint a standard payment is posted to.
    pub fn payment_endpoint(&self) -> (r: String)
        ensures
            r@ == self.base@ + "initiatetransaction"@,
    {
        let mut url = self.base.clone();
        url.append("initiatetransaction");
        url
    }

    /// The endpoint an express payment is posted to.
    pub fn express_payment_endpoint(&self) -> (r: String)
        ensures
            r@ == self.base@ + "remotetransaction"@,
    {
        let mut url = self.base.clone();
        url.append("remotetransaction");
        url
    }

    /// The endpoint a trace lookup is posted to.
    pub fn trace_endpoint(&self) -> (r: String)
        ensures
            r@ == self.base@ + "trace"@,
    {
        let mut url = self.base.clone();
        url.append("trace");
        url
    }

    /// Sign a standard payment: the `hash` field of its submission.
    pub fn payment_hash(&self, p: &payment::Payment) -> (r: String)
        ensures
            r@ == digest::spec_signature(payment::spec_canonical(*p), self.key@),
    {
        let canonical = p.canonical();
        digest::sign(canonical.as_str(), &self.key)
    }

    /// Sign an express payment: the `hash` field of its submission.
    pub fn express_payment_hash(&self, p: &express::Payment) -> (r: String)
        ensures
            r@ == digest::spec_signature(express::spec_canonical(*p), self.key@),
    {
        let canonical = p.canonical();
        digest::sign(canonical.as_str(), &self.key)
    }

    /// Build a signed trace lookup for a merchant trace id.
    pub fn trace_request(&self, merchant_trace: String) -> (r: MerchantTrace)
        ensures
            r.id == self.id,
            r.merchant_trace@ == merchant_trace@,
            r.hash@ == digest::spec_signature(
                status::spec_trace_canonical(self.id, merchant_trace@),
                self.key@,
            ),
    {
        MerchantTrace::new(self.id, merchant_trace, &self.key)
    }

    /// Interpret the body a standard payment submission came back
    /// with: first as a success (whose signature must verify), then as
    /// a classified vendor error, else as an unexpected response.
    pub fn process_payment_response(&self, request: &payment::Payment, body: &str) -> (r: Result<
        payment::Response,
        Error,
    >)
        ensures
            (match form::spec_decode_form(body@) {
                Option::None => r matches Err(Error::UnexpectedResponse(b)) && b@ == body@,
                Option::Some(ps) => {
                    if payment::ok_shape(ps) {
                        &&& r is Ok <==> digest::spec_verify(
                            form::first_val(ps, "hash"@),
                            payment::spec_ok_wire_canonical(ps),
                            self.key@,
                        )
                        &&& r matches Ok(res) ==> res.browser_url@ == form::first_val(
                            ps,
                            "browserurl"@,
                        ) && res.poll_url@ == form::first_val(ps, "pollurl"@) && res.hash@
                            == form::first_val(ps, "hash"@)
                        &&& r matches Err(e) ==> e matches Error::HashMismatch(c) && c@
                            == payment::spec_ok_wire_canonical(ps)
                    } else if error::error_shape(ps) {
                        spec_submit_error(r, form::first_val(ps, "error"@), self.id, request.amount@)
                    } else {
                        r matches Err(Error::UnexpectedResponse(b)) && b@ == body@
                    }
                },
            }),
    {
        let pairs = match form::decode_form(body) {
            Option::Some(p) => p,
            Option::None => {
                return Err(Error::UnexpectedResponse(body.to_owned()));
            },
        };
        match payment::decode_standard_ok(&pairs) {
            Option::Some(res) => {
                let canonical = standard_ok_canonical(&res);
                if digest::verify_signature(res.hash.as_str(), canonical.as_str(), &self.key) {
                    Ok(res)
                } else {
                    Err(Error::HashMismatch(canonical))
                }
            },
            Option::None => {
                match error::decode_vendor_error(&pairs) {
                    Option::Some(m) => {
                        match VendorError::classify(m) {
                            VendorError::InvalidId => Err(Error::InvalidId(self.id)),
                            VendorError::InvalidAmount => Err(
                                Error::InvalidAmount(request.amount.clone()),
                            ),
                            VendorError::AmountOverflow => Err(
                                Error::AmountOverflow(request.amount.clone()),
                            ),
                            VendorError::InsufficientBalance => Err(Error::InsufficientBalance),
                            VendorError::Response(msg) => Err(Error::Response(200, msg)),
                        }
                    },
                    Option::None => Err(Error::UnexpectedResponse(body.to_owned())),
                }
            },
        }
    }

    /// Interpret the body an express payment submission came back
    /// with, as `process_payment_response` does for standard payments.
    pub fn process_express_response(&self, request: &express::Payment, body: &str) -> (r: Result<
        express::Response,
        Error,
    >)
        ensures
            (match form::spec_decode_form(body@) {
                Option::None => r matches Err(Error::UnexpectedResponse(b)) && b@ == body@,
                Option::Some(ps) => {
                    if express::ok_shape(ps) {
                        &&& r is Ok <==> digest::spec_verify(
                            form::first_val(ps, "hash"@),
                            express::spec_ok_wire_canonical(ps),
                            self.key@,
                        )
                        &&& r matches Ok(res) ==> res.instructions@ == form::first_val(
                            ps,
                            "instructions"@,
                        ) && res.paynow_reference as int == text::digits_value(
                            form::first_val(ps, "paynowreference"@),
                        ) && res.poll_url@ == form::first_val(ps, "pollurl"@) && res.hash@
                            == form::first_val(ps, "hash"@)
                        &&& r matches Err(e) ==> e matches Error::HashMismatch(c) && c@
                            == express::spec_ok_wire_canonical(ps)
                    } else if error::error_shape(ps) {
                        spec_submit_error(
                            r,
                            form::first_val(ps, "error"@),
                            self.id,
                            request.payment.amount@,
                        )
                    } else {
                        r matches Err(Error::UnexpectedResponse(b)) && b@ == body@
                    }
                },
            }),
    {
        let pairs = match form::decode_form(body) {
            Option::Some(p) => p,
            Option::None => {
                return Err(Error::UnexpectedResponse(body.to_owned()));
            },
        };
        match express::decode_express_ok(&pairs) {
            Option::Some(res) => {
                let canonical = express_ok_canonical(&res);
                if digest::verify_signature(res.hash.as_str(), canonical.as_str(), &self.key) {
                    Ok(res)
                } else {
                    Err(Error::HashMismatch(canonical))
                }
            },
            Option::None => {
                match error::decode_vendor_error(&pairs) {
                    Option::Some(m) => {
                        match VendorError::classify(m) {
                            VendorError::InvalidId => Err(Error::InvalidId(self.id)),
                            VendorError::InvalidAmount => Err(
                                Error::InvalidAmount(request.payment.amount.clone()),
                            ),
                            VendorError::AmountOverflow => Err(
                                Error::AmountOverflow(request.payment.amount.clone()),
                            ),
                            VendorError::InsufficientBalance => Err(Error::InsufficientBalance),
                            VendorError::Response(msg) => Err(Error::Response(200, msg)),
                        }
                    },
                    Option::None => Err(Error::UnexpectedResponse(body.to_owned())),
                }
            },
        }
    }

    /// Interpret the body a status poll came back with: a status
    /// update whose signature must verify, a classified vendor error,
    /// or an unexpected response. A caller never sees an update whose
    /// signature was not checked.
    pub fn process_poll_response(&self, body: &str) -> (r: Result<Update, Error>)
        ensures
            (match form::spec_decode_form(body@) {
                Option::None => r matches Err(Error::UnexpectedResponse(b)) && b@ == body@,
                Option::Some(ps) => {
                    if status::update_shape(ps) {
                        &&& r is Ok <==> digest::spec_verify(
                            form::first_val(ps, "hash"@),
                            status::spec_update_wire_canonical(ps),
                            self.key@,
                        )
                        &&& r matches Ok(u) ==> status::update_matches(u, ps)
                        &&& r matches Err(e) ==> e matches Error::HashMismatch(c) && c@
                            == status::spec_update_wire_canonical(ps)
                    } else if error::error_shape(ps) {
                        spec_lookup_error(r, form::first_val(ps, "error"@), self.id, body@)
                    } else {
                        r matches Err(Error::UnexpectedResponse(b)) && b@ == body@
                    }
                },
            }),
    {
        let pairs = match form::decode_form(body) {
            Option::Some(p) => p,
            Option::None => {
                return Err(Error::UnexpectedResponse(body.to_owned()));
            },
        };
        match status::decode_update(&pairs) {
            Option::Some(u) => {
                proof {
                    status::lemma_update_canonical(u, form::pairs_view(pairs@));
                }
                match u.validate(&self.key) {
                    Ok(()) => Ok(u),
                    Err(e) => Err(e),
                }
            },
            Option::None => self.lookup_error(&pairs, body),
        }
    }

    /// Interpret the body a trace lookup came back with: a status
    /// update, a signed not-found answer (whose own signature must
    /// verify before it is believed), a classified vendor error, or an
    /// unexpected response.
    pub fn process_trace_response(&self, merchant_trace: &str, body: &str) -> (r: Result<
        Update,
        Error,
    >)
        ensures
            (match form::spec_decode_form(body@) {
                Option::None => r matches Err(Error::UnexpectedResponse(b)) && b@ == body@,
                Option::Some(ps) => {
                    if status::update_shape(ps) {
                        &&& r is Ok <==> digest::spec_verify(
                            form::first_val(ps, "hash"@),
                            status::spec_update_wire_canonical(ps),
                            self.key@,
                        )
                        &&& r matches Ok(u) ==> status::update_matches(u, ps)
                        &&& r matches Err(e) ==> e matches Error::HashMismatch(c) && c@
                            == status::spec_update_wire_canonical(ps)
                    } else if status::notfound_shape(ps) {
                        if digest::spec_verify(
                            form::first_val(ps, "hash"@),
                            "NotFound"@,
                            self.key@,
                        ) {
                            r matches Err(Error::NotFound(t)) && t@ == merchant_trace@
                        } else {
                            r matches Err(Error::HashMismatch(c)) && c@ == "NotFound"@
                        }
                    } else if error::error_shape(ps) {
                        spec_lookup_error(r, form::first_val(ps, "error"@), self.id, body@)
                    } else {
                        r matches Err(Error::UnexpectedResponse(b)) && b@ == body@
                    }
                },
            }),
    {
        let pairs = match form::decode_form(body) {
            Option::Some(p) => p,
            Option::None => {
                return Err(Error::UnexpectedResponse(body.to_owned()));
            },
        };
        match status::decode_update(&pairs) {
            Option::Some(u) => {
                proof {
                    status::lemma_update_canonical(u, form::pairs_view(pairs@));
                }
                match u.validate(&self.key) {
                    Ok(()) => Ok(u),
                    Err(e) => Err(e),
                }
            },
            Option::None => {
                match status::decode_notfound(&pairs) {
                    Option::Some(nf_hash) => {
                        if digest::verify_signature(nf_hash.as_str(), "NotFound", &self.key) {
                            Err(Error::NotFound(merchant_trace.to_owned()))
                        } else {
                            Err(Error::HashMismatch(String::from_str("NotFound")))
                        }
                    },
                    Option::None => self.lookup_error(&pairs, body),
                }
            },
        }
    }

    /// The shared vendor-error tail of a poll or trace lookup.
    fn lookup_error(&self, pairs: &Vec<(String, String)>, body: &str) -> (r: Result<Update, Error>)
        ensures
            r is Err,
            (if error::error_shape(form::pairs_view(pairs@)) {
                spec_lookup_error(
                    r,
                    form::first_val(form::pairs_view(pairs@), "error"@),
                    self.id,
                    body@,
                )
            } else {
                r matches Err(Error::UnexpectedResponse(b)) && b@ == body@
            }),
    {
        proof {
            reveal_strlit("Invalid Id.");
            reveal_strlit("Invalid amount field.");
            reveal_strlit("Conversion overflows.");
            reveal_strlit("Insufficient balance");
            assert("Invalid Id."@.len() == 11);
            assert("Invalid amount field."@.len() == 21);
            assert("Conversion overflows."@.len() == 21);
            assert("Insufficient balance"@.len() == 20);
            assert("Invalid Id."@ != "Invalid amount field."@);
            assert("Invalid Id."@ != "Conversion overflows."@);
            assert("Invalid Id."@ != "Insufficient balance"@);
            assert("Invalid amount field."@[0] == 'I' && "Conversion overflows."@[0] == 'C');
            assert("Invalid amount field."@ != "Conversion overflows."@);
            assert("Invalid amount field."@ != "Insufficient balance"@);
            assert("Conversion overflows."@ != "Insufficient balance"@);
        }
        match error::decode_vendor_error(pairs) {
            Option::Some(m) => {
                match VendorError::classify(m) {
                    VendorError::InvalidId => Err(Error::InvalidId(self.id)),
                    VendorError::InsufficientBalance => Err(Error::InsufficientBalance),
                    VendorError::InvalidAmount => Err(Error::UnexpectedResponse(body.to_owned())),
                    VendorError::AmountOverflow => Err(Error::UnexpectedResponse(body.to_owned())),
                    VendorError::Response(msg) => Err(Error::Response(200, msg)),
                }
            },
            Option::None => Err(Error::UnexpectedResponse(body.to_owned())),
        }
    }
}

/// The canonical string a standard success response is checked
/// against.
fn standard_ok_canonical(res: &payment::Response) -> (r: String)
    ensures
        r@ == payment::spec_response_canonical(*res),
{
    let mut out = String::from_str("Ok");
    out.append(res.browser_url.as_str());
    out.append(res.poll_url.as_str());
    proof {
        assert(out@ =~= payment::spec_response_canonical(*res));
    }
    out
}

/// The canonical string an express success response is checked
/// against.
fn express_ok_canonical(res: &express::Response) -> (r: String)
    ensures
        r@ == express::spec_response_canonical(*res),
{
    let mut out = String::from_str("Ok");
    out.append(res.instructions.as_str());
    text::append_u64(&mut out, res.paynow_reference);
    out.append(res.poll_url.as_str());
    proof {
        assert(out@ =~= express::spec_response_canonical(*res));
    }
    out
}

} // verus!
