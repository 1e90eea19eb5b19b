//! The express (remote) payment request: mobile-money and card
//! payments that need no browser redirect. The payment method's name
//! both selects the wire `method` field and opens the canonical string,
//! so the two cannot drift apart.
use vstd::prelude::*;

use crate::form;
use crate::payment;
use crate::payment::opt_text;
use crate::text;

verus! {

broadcast use vstd::string::group_string_axioms;

/// An opaque card description; this layer never validates it — the
/// vendor does.
pub struct Card {
    pub number: String,
    pub name: String,
    pub cvv: String,
    pub expiry: String,
}

/// The billing address for a card payment. The country carries the
/// validated country name looked up by the caller.
pub struct Address {
    pub line1: String,
    pub line2: Option<String>,
    pub city: String,
    pub province: Option<String>,
    pub country: String,
}

/// How an express payment is funded.
pub enum Method {
    Ecocash { phone: String },
    OneMoney { phone: String },
    VisaOrMastercard { card: Card, address: Address, token: String },
}

/// The wire name of a payment method, also the first canonical field.
pub open spec fn spec_method_name(m: Method) -> Seq<char> {
    match m {
        Method::Ecocash { .. } => "ecocash"@,
        Method::OneMoney { .. } => "onemoney"@,
        Method::VisaOrMastercard { .. } => "vmc"@,
    }
}

/// The method-specific canonical fields, in the protocol's fixed order
/// (phone, card number, card holder, cvv, expiry, billing lines, city,
/// province, country, token), absent fields contributing nothing.
pub open spec fn spec_method_fields(m: Method) -> Seq<char> {
    match m {
        Method::Ecocash { phone } => phone@,
        Method::OneMoney { phone } => phone@,
        Method::VisaOrMastercard { card, address, token } => card.number@ + card.name@ + card.cvv@
            + card.expiry@ + address.line1@ + opt_text(address.line2) + address.city@ + opt_text(
            address.province,
        ) + address.country@ + token@,
    }
}

impl Method {
    /// The wire name of the method.
    pub fn name(&self) -> (r: &'static str)
        ensures
            r@ == spec_method_name(*self),
    {
        match self {
            Method::Ecocash { .. } => "ecocash",
            Method::OneMoney { .. } => "onemoney",
            Method::VisaOrMastercard { .. } => "vmc",
        }
    }

    /// Pay from an Ecocash wallet.
    pub fn ecocash(phone: String) -> (r: Self)
        ensures
            r == (Method::Ecocash { phone }),
    {
        Method::Ecocash { phone }
    }

    /// Pay from a OneMoney wallet.
    pub fn onemoney(phone: String) -> (r: Self)
        ensures
            r == (Method::OneMoney { phone }),
    {
        Method::OneMoney { phone }
    }

    /// Pay by Visa or Mastercard.
    pub fn vmc(card: Card, address: Address, token: String) -> (r: Self)
        ensures
            r == (Method::VisaOrMastercard { card, address, token }),
    {
        Method::VisaOrMastercard { card, address, token }
    }
}

/// An express payment: the standard fields plus the funding method.
pub struct Payment {
    pub payment: payment::Payment,
    pub method: Method,
}

/// The canonical string of an express payment: the method name, then
/// the standard payment's canonical string, then the method-specific
/// fields.
pub open spec fn spec_canonical(p: Payment) -> Seq<char> {
    spec_method_name(p.method) + payment::spec_canonical(p.payment) + spec_method_fields(p.method)
}

impl Payment {
    /// Build the canonical string that is signed on submission.
    pub fn canonical(&self) -> (r: String)
        ensures
            r@ == spec_canonical(*self),
    {
        let mut out = String::from_str(self.method.name());
        let base = self.payment.canonical();
        out.append(base.as_str());
        match &self.method {
            Method::Ecocash { phone } => out.append(phone.as_str()),
            Method::OneMoney { phone } => out.append(phone.as_str()),
            Method::VisaOrMastercard { card, address, token } => {
                out.append(card.number.as_str());
                out.append(card.name.as_str());
                out.append(card.cvv.as_str());
                out.append(card.expiry.as_str());
                out.append(address.line1.as_str());
                payment::append_opt(&mut out, &address.line2);
                out.append(address.city.as_str());
                payment::append_opt(&mut out, &address.province);
                out.append(address.country.as_str());
                out.append(token.as_str());
            },
        }
        proof {
            assert(out@ =~= spec_canonical(*self));
        }
        out
    }

    /// Set the optional additional information.
    pub fn additional_info(&mut self, info: String)
        ensures
            final(self).method == old(self).method,
            final(self).payment == (payment::Payment {
                additional_info: Option::Some(info),
                ..old(self).payment
            }),
    {
        self.payment.additional_info(info);
    }

    /// Ask the vendor to tokenize the payment instrument.
    pub fn tokenize(&mut self, tokenize: bool)
        ensures
            final(self).method == old(self).method,
            final(self).payment == (payment::Payment {
                tokenize: Option::Some(tokenize),
                ..old(self).payment
            }),
    {
        self.payment.tokenize(tokenize);
    }
}

/// The method name is part of the canonical input: two express
/// payments that differ only in the wallet kind canonicalize to
/// different strings, so their signatures are computed over different
/// inputs.
pub proof fn lemma_method_name_signed(p1: Payment, p2: Payment)
    requires
        p1.method is Ecocash,
        p2.method is OneMoney,
    ensures
        spec_canonical(p1) != spec_canonical(p2),
{
    reveal_strlit("ecocash");
    reveal_strlit("onemoney");
    assert("ecocash"@.len() == 7 && "onemoney"@.len() == 8);
    assert(spec_canonical(p1)[0] == 'e');
    assert(spec_canonical(p2)[0] == 'o');
}

/// Canonicalization of express payments is deterministic: logically
/// identical requests canonicalize to the identical string.
pub proof fn lemma_canonical_deterministic(p1: Payment, p2: Payment)
    requires
        p1 == p2,
    ensures
        spec_canonical(p1) == spec_canonical(p2),
{
}

/// The method-specific wire fields, in order: a wallet sends its
/// phone number; a card sends the card, billing address (absent lines
/// skipped) and token.
pub open spec fn spec_method_wire_fields(m: Method) -> Seq<(Seq<char>, Seq<char>)> {
    match m {
        Method::Ecocash { phone } => seq![("phone"@, phone@)],
        Method::OneMoney { phone } => seq![("phone"@, phone@)],
        Method::VisaOrMastercard { card, address, token } => seq![
            ("cardnumber"@, card.number@),
            ("cardname"@, card.name@),
            ("cardcvv"@, card.cvv@),
            ("cardexpiry"@, card.expiry@),
            ("billingline1"@, address.line1@),
        ] + payment::opt_field("billingline2"@, address.line2) + seq![
            ("billingcity"@, address.city@),
        ] + payment::opt_field("billingprovince"@, address.province) + seq![
            ("billingcountry"@, address.country@),
            ("token"@, token@),
        ],
    }
}

/// The wire fields of an express payment submission: the method name,
/// the standard fields (signed over the express canonical string),
/// then the method-specific fields.
pub open spec fn spec_fields(p: Payment, key: Seq<char>) -> Seq<(Seq<char>, Seq<char>)> {
    seq![("method"@, spec_method_name(p.method))] + standard_fields_with_hash(p, key)
        + spec_method_wire_fields(p.method)
}

/// The standard fields of an express submission; its signature covers
/// the express canonical string, method fields included.
pub open spec fn standard_fields_with_hash(p: Payment, key: Seq<char>) -> Seq<
    (Seq<char>, Seq<char>),
> {
    payment::spec_fields(p.payment, key).update(
        payment::spec_fields(p.payment, key).len() - 1,
        ("hash"@, crate::digest::spec_signature(spec_canonical(p), key)),
    )
}

impl Payment {
    /// The wire fields of this payment's submission, signed with the
    /// given key.
    pub fn fields(&self, key: &crate::key::Key) -> (r: Vec<(String, String)>)
        ensures
            form::pairs_view(r@) == spec_fields(*self, key@),
    {
        let mut out: Vec<(String, String)> = Vec::new();
        payment::push_field(&mut out, "method", String::from_str(self.method.name()));
        let mut standard = self.payment.fields(key);
        let ghost pre_fix = standard@;
        let last = standard.len() - 1;
        let canonical = self.canonical();
        standard.set(last, (String::from_str("hash"), crate::digest::sign(canonical.as_str(), key)));
        proof {
            assert(form::pairs_view(standard@) =~= standard_fields_with_hash(*self, key@));
        }
        let mut i: usize = 0;
        while i < standard.len()
            invariant
                i <= standard@.len(),
                form::pairs_view(standard@) == standard_fields_with_hash(*self, key@),
                form::pairs_view(out@) == seq![("method"@, spec_method_name(self.method))]
                    + standard_fields_with_hash(*self, key@).take(i as int),
            decreases standard@.len() - i,
        {
            let ghost pre = out@;
            let pair_first = standard[i].0.clone();
            let pair_second = standard[i].1.clone();
            out.push((pair_first, pair_second));
            proof {
                assert(form::pairs_view(out@) =~= form::pairs_view(pre) + seq![
                    (standard@[i as int].0@, standard@[i as int].1@),
                ]);
                assert(form::pairs_view(pre) + seq![(standard@[i as int].0@, standard@[i as int].1@)]
                    =~= seq![("method"@, spec_method_name(self.method))]
                    + standard_fields_with_hash(*self, key@).take(i + 1));
            }
            i = i + 1;
        }
        proof {
            assert(standard_fields_with_hash(*self, key@).take(
                standard_fields_with_hash(*self, key@).len() as int,
            ) =~= standard_fields_with_hash(*self, key@));
        }
        match &self.method {
            Method::Ecocash { phone } => payment::push_field(&mut out, "phone", phone.clone()),
            Method::OneMoney { phone } => payment::push_field(&mut out, "phone", phone.clone()),
            Method::VisaOrMastercard { card, address, token } => {
                payment::push_field(&mut out, "cardnumber", card.number.clone());
                payment::push_field(&mut out, "cardname", card.name.clone());
                payment::push_field(&mut out, "cardcvv", card.cvv.clone());
                payment::push_field(&mut out, "cardexpiry", card.expiry.clone());
                payment::push_field(&mut out, "billingline1", address.line1.clone());
                match &address.line2 {
                    Option::Some(v) => payment::push_field(&mut out, "billingline2", v.clone()),
                    Option::None => {},
                }
                payment::push_field(&mut out, "billingcity", address.city.clone());
                match &address.province {
                    Option::Some(v) => payment::push_field(&mut out, "billingprovince", v.clone()),
                    Option::None => {},
                }
                payment::push_field(&mut out, "billingcountry", address.country.clone());
                payment::push_field(&mut out, "token", token.clone());
            },
        }
        proof {
            assert(form::pairs_view(out@) =~= spec_fields(*self, key@));
        }
        out
    }
}

/// A successful response to an express payment: instructions for the
/// customer, the vendor's reference number, the poll URL, and the
/// vendor's signature over (status, instructions, reference, poll URL).
pub struct Response {
    pub instructions: String,
    pub paynow_reference: u64,
    pub poll_url: String,
    pub hash: String,
}

/// The canonical string the vendor signed in an express response.
pub open spec fn spec_response_canonical(r: Response) -> Seq<char> {
    "Ok"@ + r.instructions@ + text::dec_digits(r.paynow_reference as nat) + r.poll_url@
}

impl Response {
    /// What the customer must do to complete the payment.
    pub fn instructions(&self) -> (r: &str)
        ensures
            r@ == self.instructions@,
    {
        self.instructions.as_str()
    }

    /// Consume the response, keeping the instructions.
    pub fn take_instructions(self) -> (r: String)
        ensures
            r@ == self.instructions@,
    {
        self.instructions
    }

    /// The vendor's reference number for the transaction.
    pub fn paynow_reference(self) -> (r: u64)
        ensures
            r == self.paynow_reference,
    {
        self.paynow_reference
    }

    /// The URL to poll for the transaction's status.
    pub fn poll_url(&self) -> (r: &str)
        ensures
            r@ == self.poll_url@,
    {
        self.poll_url.as_str()
    }

    /// Consume the response, keeping the poll URL.
    pub fn take_poll_url(self) -> (r: String)
        ensures
            r@ == self.poll_url@,
    {
        self.poll_url
    }
}

/// Whether a decoded body has the express success shape: status `Ok`
/// and exactly one instructions text, numeric vendor reference, poll
/// URL and signature.
pub open spec fn ok_shape(ps: Seq<(Seq<char>, Seq<char>)>) -> bool {
    form::count_key(ps, "status"@) == 1 && form::first_val(ps, "status"@) == "Ok"@
        && form::count_key(ps, "instructions"@) == 1 && form::count_key(ps, "paynowreference"@)
        == 1 && crate::text::is_u64_text(form::first_val(ps, "paynowreference"@))
        && form::count_key(ps, "pollurl"@) == 1 && form::count_key(ps, "hash"@) == 1
}

/// The canonical string the vendor signed, read off the wire fields of
/// an express success body. The reference is re-rendered from its
/// numeric value, as the vendor rendered it.
pub open spec fn spec_ok_wire_canonical(ps: Seq<(Seq<char>, Seq<char>)>) -> Seq<char> {
    "Ok"@ + form::first_val(ps, "instructions"@) + text::dec_digits(
        text::digits_value(form::first_val(ps, "paynowreference"@)) as nat,
    ) + form::first_val(ps, "pollurl"@)
}

/// Decode a field list as an express success response, without yet
/// checking its signature.
pub fn decode_express_ok(pairs: &Vec<(String, String)>) -> (r: Option<Response>)
    ensures
        match r {
            Option::Some(res) => ok_shape(form::pairs_view(pairs@)) && res.instructions@
                == form::first_val(form::pairs_view(pairs@), "instructions"@)
                && res.paynow_reference as int == text::digits_value(
                form::first_val(form::pairs_view(pairs@), "paynowreference"@),
            ) && res.poll_url@ == form::first_val(form::pairs_view(pairs@), "pollurl"@)
                && res.hash@ == form::first_val(form::pairs_view(pairs@), "hash"@),
            Option::None => !ok_shape(form::pairs_view(pairs@)),
        },
{
    let st = match form::field_of(pairs, "status") {
        form::FieldLookup::One(v) => v,
        _ => {
            return None;
        },
    };
    if !crate::text::str_eq(st.as_str(), "Ok") {
        return None;
    }
    let instructions = match form::field_of(pairs, "instructions") {
        form::FieldLookup::One(v) => v,
        _ => {
            return None;
        },
    };
    let pn_text = match form::field_of(pairs, "paynowreference") {
        form::FieldLookup::One(v) => v,
        _ => {
            return None;
        },
    };
    let paynow_reference = match crate::text::parse_u64(pn_text.as_str()) {
        Option::Some(v) => v,
        Option::None => {
            return None;
        },
    };
    let poll_url = match form::field_of(pairs, "pollurl") {
        form::FieldLookup::One(v) => v,
        _ => {
            return None;
        },
    };
    let hash = match form::field_of(pairs, "hash") {
        form::FieldLookup::One(v) => v,
        _ => {
            return None;
        },
    };
    Some(Response { instructions, paynow_reference, poll_url, hash })
}

} // verus!
