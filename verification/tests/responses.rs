use paynow::date::Date;
use paynow::digest;
use paynow::error::Error;
use paynow::error::VendorError;
use paynow::key::Key;
use paynow::status::Status;
use paynow::Client;

fn key() -> Key {
    Key::new("3e9fed89-60e1-4ce5-ab6e-6b1eb2d4f977".to_string())
}

fn wrong_key() -> Key {
    Key::new("00000000-0000-0000-0000-000000000001".to_string())
}

fn client() -> Client {
    Client::new(123, key())
}

fn standard_request(c: &Client) -> paynow::payment::Payment {
    c.payment(
        "REF-1".to_string(),
        "314.1874".to_string(),
        "https://r/".to_string(),
        "https://x/".to_string(),
    )
}

#[test]
fn standard_success_round_trip() {
    let c = client();
    let p = standard_request(&c);
    let hash = digest::sign("Okhttps://pay/https://poll/", &key());
    let body = format!("status=Ok&browserurl=https://pay/&pollurl=https://poll/&hash={}", hash);
    let res = c.process_payment_response(&p, &body).unwrap();
    assert_eq!(res.browser_url(), "https://pay/");
    assert_eq!(res.poll_url(), "https://poll/");
}

#[test]
fn standard_success_wrong_key_is_hash_mismatch() {
    let c = client();
    let p = standard_request(&c);
    let hash = digest::sign("Okhttps://pay/https://poll/", &wrong_key());
    let body = format!("status=Ok&browserurl=https://pay/&pollurl=https://poll/&hash={}", hash);
    match c.process_payment_response(&p, &body) {
        Err(Error::HashMismatch(canonical)) => {
            assert_eq!(canonical, "Okhttps://pay/https://poll/");
        },
        other => panic!("expected a hash mismatch, got {:?}", other.is_ok()),
    }
}

#[test]
fn tampered_field_fails_verification() {
    let c = client();
    let p = standard_request(&c);
    let hash = digest::sign("Okhttps://pay/https://poll/", &key());
    let body = format!("status=Ok&browserurl=https://evil/&pollurl=https://poll/&hash={}", hash);
    assert!(matches!(c.process_payment_response(&p, &body), Err(Error::HashMismatch(_))));
}

#[test]
fn vendor_error_invalid_id() {
    let c = client();
    let p = standard_request(&c);
    let body = "status=Error&error=Invalid+Id.";
    assert!(matches!(c.process_payment_response(&p, body), Err(Error::InvalidId(123))));
}

#[test]
fn vendor_error_invalid_amount_echoes_amount() {
    let c = client();
    let p = standard_request(&c);
    let body = "status=Error&error=Invalid+amount+field.";
    match c.process_payment_response(&p, body) {
        Err(Error::InvalidAmount(a)) => assert_eq!(a, "314.1874"),
        _ => panic!("expected an invalid-amount error"),
    }
}

#[test]
fn vendor_error_overflow_echoes_amount() {
    let c = client();
    let p = standard_request(&c);
    let body = "status=Error&error=Conversion+overflows.";
    match c.process_payment_response(&p, body) {
        Err(Error::AmountOverflow(a)) => assert_eq!(a, "314.1874"),
        _ => panic!("expected an overflow error"),
    }
}

#[test]
fn vendor_error_opaque_message() {
    let c = client();
    let p = standard_request(&c);
    let body = "status=Error&error=Foo+bar";
    match c.process_payment_response(&p, body) {
        Err(Error::Response(code, msg)) => {
            assert_eq!(code, 200);
            assert_eq!(msg, "Foo bar");
        },
        _ => panic!("expected an opaque vendor response"),
    }
}

#[test]
fn garbage_body_is_unexpected() {
    let c = client();
    let p = standard_request(&c);
    match c.process_payment_response(&p, "status=Gone&x=1") {
        Err(Error::UnexpectedResponse(b)) => assert_eq!(b, "status=Gone&x=1"),
        _ => panic!("expected an unexpected-response error"),
    }
}

#[test]
fn undecodable_body_is_unexpected() {
    let c = client();
    let p = standard_request(&c);
    assert!(matches!(
        c.process_payment_response(&p, "status=%G1"),
        Err(Error::UnexpectedResponse(_))
    ));
}

#[test]
fn classify_fixed_table() {
    assert!(matches!(
        VendorError::classify("Insufficient balance".to_string()),
        VendorError::InsufficientBalance
    ));
    assert!(matches!(VendorError::classify("Invalid Id.".to_string()), VendorError::InvalidId));
    assert!(matches!(
        VendorError::classify("Invalid amount field.".to_string()),
        VendorError::InvalidAmount
    ));
    assert!(matches!(
        VendorError::classify("Conversion overflows.".to_string()),
        VendorError::AmountOverflow
    ));
    match VendorError::classify("Foo bar".to_string()) {
        VendorError::Response(m) => assert_eq!(m, "Foo bar"),
        _ => panic!("expected the opaque kind"),
    }
}

#[test]
fn express_success_round_trip() {
    let c = client();
    let p = c.express_payment(
        paynow::express::Method::ecocash("0771111111".to_string()),
        "REF-1".to_string(),
        "5.00".to_string(),
        "https://x/".to_string(),
        "a@b.c".to_string(),
        "tr-1".to_string(),
    );
    let hash = digest::sign("OkDial *151#77https://poll/", &key());
    let body = format!(
        "status=Ok&instructions=Dial+*151%23&paynowreference=77&pollurl=https://poll/&hash={}",
        hash
    );
    let res = c.process_express_response(&p, &body).unwrap();
    assert_eq!(res.instructions(), "Dial *151#");
    assert_eq!(res.poll_url(), "https://poll/");
    assert_eq!(res.paynow_reference(), 77);
}

#[test]
fn poll_update_round_trip_with_token() {
    let c = client();
    let canonical = "REF-110010.50Paidhttps://poll/TOK-105Jan2024";
    let hash = digest::sign(canonical, &key());
    let body = format!(
        "reference=REF-1&paynowreference=100&amount=10.50&status=Paid&pollurl=https://poll/\
&token=TOK-1&tokenexpiry=05Jan2024&hash={}",
        hash
    );
    let u = c.process_poll_response(&body).unwrap();
    assert_eq!(u.reference(), "REF-1");
    assert_eq!(u.poll_url(), "https://poll/");
    let token = u.token().expect("token expected");
    assert_eq!(token.token(), "TOK-1");
    assert_eq!(token.expiry(), Date { year: 2024, month: 1, day: 5 });
    assert!(matches!(u.clone().status(), Status::Paid));
}

#[test]
fn poll_update_status_with_space() {
    let c = client();
    let canonical = "REF-2995.00Awaiting Deliveryhttps://poll/";
    let hash = digest::sign(canonical, &key());
    let body = format!(
        "reference=REF-2&paynowreference=99&amount=5.00&status=Awaiting+Delivery\
&pollurl=https://poll/&hash={}",
        hash
    );
    let u = c.process_poll_response(&body).unwrap();
    assert!(matches!(u.clone().status(), Status::AwaitingDelivery));
    assert_eq!(u.clone().amount(), "5.00");
    assert_eq!(u.paynow_reference(), 99);
}

#[test]
fn poll_forged_signature_is_hash_mismatch() {
    let c = client();
    let body = "reference=REF-1&paynowreference=100&amount=10.50&status=Paid\
&pollurl=https://poll/&hash=FORGED";
    match c.process_poll_response(body) {
        Err(Error::HashMismatch(canonical)) => {
            assert_eq!(canonical, "REF-110010.50Paidhttps://poll/");
        },
        _ => panic!("a forged update must fail as a hash mismatch"),
    }
}

#[test]
fn poll_vendor_error_classification() {
    let c = client();
    assert!(matches!(
        c.process_poll_response("status=Error&error=Invalid+Id."),
        Err(Error::InvalidId(123))
    ));
    assert!(matches!(
        c.process_poll_response("status=Error&error=Insufficient+balance"),
        Err(Error::InsufficientBalance)
    ));
    // Amount errors cannot arise from a poll: they stay unexpected.
    assert!(matches!(
        c.process_poll_response("status=Error&error=Invalid+amount+field."),
        Err(Error::UnexpectedResponse(_))
    ));
    assert!(matches!(
        c.process_poll_response("status=Error&error=Nope"),
        Err(Error::Response(200, _))
    ));
}

#[test]
fn trace_not_found_requires_valid_signature() {
    let c = client();
    let good = digest::sign("NotFound", &key());
    let body = format!("status=NotFound&hash={}", good);
    match c.process_trace_response("tr-42", &body) {
        Err(Error::NotFound(t)) => assert_eq!(t, "tr-42"),
        _ => panic!("expected a signed not-found answer"),
    }
    let forged = digest::sign("NotFound", &wrong_key());
    let body = format!("status=NotFound&hash={}", forged);
    match c.process_trace_response("tr-42", &body) {
        Err(Error::HashMismatch(canonical)) => assert_eq!(canonical, "NotFound"),
        _ => panic!("a forged not-found must fail as a hash mismatch"),
    }
}

#[test]
fn trace_returns_update() {
    let c = client();
    let canonical = "REF-371.00Createdhttps://poll/";
    let hash = digest::sign(canonical, &key());
    let body = format!(
        "reference=REF-3&paynowreference=7&amount=1.00&status=Created&pollurl=https://poll/\
&hash={}",
        hash
    );
    let u = c.process_trace_response("tr-1", &body).unwrap();
    assert_eq!(u.take_reference(), "REF-3");
}

#[test]
fn update_duplicate_field_is_rejected() {
    let c = client();
    let body = "reference=A&reference=B&paynowreference=1&amount=1&status=Paid\
&pollurl=p&hash=X";
    assert!(matches!(c.process_poll_response(body), Err(Error::UnexpectedResponse(_))));
}

#[test]
fn update_token_without_expiry_is_rejected() {
    let c = client();
    let body = "reference=A&paynowreference=1&amount=1&status=Paid&pollurl=p&token=T&hash=X";
    assert!(matches!(c.process_poll_response(body), Err(Error::UnexpectedResponse(_))));
}
