//! The error taxonomy: transport-independent failures this library can
//! itself detect or decode, and the classifier that turns the vendor's
//! free-text error messages into structured kinds.
use vstd::prelude::*;

use crate::form;
use crate::text;

verus! {

/// Why a call against the gateway failed, as far as this library can
/// tell from a response body. Transport failures (sending, reading)
/// belong to the caller that owns the network handle.
#[derive(Debug)]
pub enum Error {
    /// The vendor rejected the merchant id.
    InvalidId(u64),
    /// The vendor rejected the amount; carries the amount text.
    InvalidAmount(String),
    /// The amount is larger than the vendor can handle.
    AmountOverflow(String),
    /// The funding source has insufficient balance.
    InsufficientBalance,
    /// An inbound payload's signature did not verify; carries the
    /// canonical string that was checked.
    HashMismatch(String),
    /// A trace lookup found no transaction; carries the trace id.
    NotFound(String),
    /// The vendor returned an error outside the fixed table, or a
    /// non-success transport status; carries the status code and text.
    Response(u16, String),
    /// The body matched no known shape; carries the raw body.
    UnexpectedResponse(String),
}

/// The vendor's own classification of a rejected request, decoded from
/// the fixed message table.
#[derive(Debug)]
pub enum VendorError {
    InvalidId,
    InvalidAmount,
    AmountOverflow,
    InsufficientBalance,
    Response(String),
}

/// Spec-level shape of a classified vendor error, for stating
/// contracts: the opaque case keeps the message itself.
pub enum SpecVendorError {
    InvalidId,
    InvalidAmount,
    AmountOverflow,
    InsufficientBalance,
    Response(Seq<char>),
}

impl VendorError {
    /// The classified kind, with the opaque message by view.
    pub open spec fn view(self) -> SpecVendorError {
        match self {
            VendorError::InvalidId => SpecVendorError::InvalidId,
            VendorError::InvalidAmount => SpecVendorError::InvalidAmount,
            VendorError::AmountOverflow => SpecVendorError::AmountOverflow,
            VendorError::InsufficientBalance => SpecVendorError::InsufficientBalance,
            VendorError::Response(msg) => SpecVendorError::Response(msg@),
        }
    }

    /// Classify a vendor error message against the fixed table; any
    /// message outside the table stays opaque, carried verbatim.
    pub fn classify(msg: String) -> (r: VendorError)
        ensures
            r.view() == spec_classify_view(msg@),
    {
        if text::str_eq(msg.as_str(), "Invalid Id.") {
            VendorError::InvalidId
        } else if text::str_eq(msg.as_str(), "Invalid amount field.") {
            VendorError::InvalidAmount
        } else if text::str_eq(msg.as_str(), "Conversion overflows.") {
            VendorError::AmountOverflow
        } else if text::str_eq(msg.as_str(), "Insufficient balance") {
            VendorError::InsufficientBalance
        } else {
            VendorError::Response(msg)
        }
    }
}

/// Whether a decoded body has the vendor error shape: status `Error`
/// and exactly one error message.
pub open spec fn error_shape(ps: Seq<(Seq<char>, Seq<char>)>) -> bool {
    form::count_key(ps, "status"@) == 1 && form::first_val(ps, "status"@) == "Error"@
        && form::count_key(ps, "error"@) == 1
}

/// Decode a field list as a vendor error body, yielding the raw error
/// message.
pub fn decode_vendor_error(pairs: &Vec<(String, String)>) -> (r: Option<String>)
    ensures
        match r {
            Option::Some(m) => error_shape(form::pairs_view(pairs@)) && m@ == form::first_val(
                form::pairs_view(pairs@),
                "error"@,
            ),
            Option::None => !error_shape(form::pairs_view(pairs@)),
        },
{
    let st = match form::field_of(pairs, "status") {
        form::FieldLookup::One(v) => v,
        _ => {
            return None;
        },
    };
    if !text::str_eq(st.as_str(), "Error") {
        return None;
    }
    match form::field_of(pairs, "error") {
        form::FieldLookup::One(v) => Some(v),
        _ => None,
    }
}

/// The classified kind of a message, by view.
pub open spec fn spec_classify_view(msg: Seq<char>) -> SpecVendorError {
    if msg == "Invalid Id."@ {
        SpecVendorError::InvalidId
    } else if msg == "Invalid amount field."@ {
        SpecVendorError::InvalidAmount
    } else if msg == "Conversion overflows."@ {
        SpecVendorError::AmountOverflow
    } else if msg == "Insufficient balance"@ {
        SpecVendorError::InsufficientBalance
    } else {
        SpecVendorError::Response(msg)
    }
}

} // verus!
