use paynow::digest;
use paynow::express;
use sha2::Digest;
use paynow::key::Key;
use paynow::Client;

fn client() -> Client {
    Client::new(123, Key::new("3e9fed89-60e1-4ce5-ab6e-6b1eb2d4f977".to_string()))
}

fn key() -> Key {
    Key::new("3e9fed89-60e1-4ce5-ab6e-6b1eb2d4f977".to_string())
}

#[test]
fn canonical_fixed_order() {
    let c = client();
    let p = c.payment(
        "REF-1".to_string(),
        "314.1874".to_string(),
        "https://r/".to_string(),
        "https://x/".to_string(),
    );
    assert_eq!(p.canonical(), "123REF-1314.1874https://r/https://x/Message");
}

#[test]
fn canonical_optional_fields() {
    let c = client();
    let mut p = c.payment(
        "REF-1".to_string(),
        "10.00".to_string(),
        "https://r/".to_string(),
        "https://x/".to_string(),
    );
    p.additional_info("info".to_string());
    p.auth_email("a@b.c".to_string());
    p.tokenize(true);
    p.merchant_trace("tr-9".to_string());
    assert_eq!(p.canonical(), "123REF-110.00infohttps://r/https://x/a@b.ctruetr-9Message");
}

#[test]
fn canonical_deterministic() {
    let c = client();
    let p1 = c.payment(
        "REF-1".to_string(),
        "314.1874".to_string(),
        "https://r/".to_string(),
        "https://x/".to_string(),
    );
    let p2 = c.payment(
        "REF-1".to_string(),
        "314.1874".to_string(),
        "https://r/".to_string(),
        "https://x/".to_string(),
    );
    assert_eq!(p1.canonical(), p2.canonical());
}

#[test]
fn sign_known_vector() {
    // SHA-512 of "abc": signing canonical "ab" with key "c" hashes "abc".
    let k = Key::new("c".to_string());
    let expected = "DDAF35A193617ABACC417349AE20413112E6FA4E89A97EA20A9EEEE64B55D39A\
2192992A274FC1A836BA3C23A3FEEBBD454D4423643CE80E2A9AC94FA54CA49F";
    assert_eq!(digest::sign("ab", &k), expected);
}

#[test]
fn sign_matches_sha2_directly() {
    let k = key();
    let mut input = String::from("123REF-1Message");
    input.push_str(k.expose_secret());
    let expected = format!("{:X}", sha2::Sha512::digest(input.as_bytes()));
    assert_eq!(digest::sign("123REF-1Message", &k), expected);
}

#[test]
fn sign_deterministic() {
    let k = key();
    assert_eq!(digest::sign("canonical", &k), digest::sign("canonical", &k));
}

#[test]
fn sign_avalanche_on_canonical() {
    let k = key();
    assert_ne!(digest::sign("canonical", &k), digest::sign("canonicaL", &k));
}

#[test]
fn sign_avalanche_on_key() {
    let k1 = Key::new("3e9fed89-60e1-4ce5-ab6e-6b1eb2d4f977".to_string());
    let k2 = Key::new("3e9fed89-60e1-4ce5-ab6e-6b1eb2d4f978".to_string());
    assert_ne!(digest::sign("canonical", &k1), digest::sign("canonical", &k2));
}

#[test]
fn sign_verify_round_trip() {
    let k = key();
    let sig = digest::sign("anything at all", &k);
    assert!(digest::verify_signature(&sig, "anything at all", &k));
}

#[test]
fn verify_rejects_tampered_canonical() {
    let k = key();
    let sig = digest::sign("anything at all", &k);
    assert!(!digest::verify_signature(&sig, "anything at ali", &k));
}

#[test]
fn express_canonical_ends_with_phone() {
    let c = client();
    let p = c.express_payment(
        express::Method::ecocash("0771111111".to_string()),
        "REF-1".to_string(),
        "5.00".to_string(),
        "https://x/".to_string(),
        "a@b.c".to_string(),
        "tr-1".to_string(),
    );
    let canonical = p.canonical();
    assert!(canonical.ends_with("0771111111"));
    assert!(canonical.starts_with("ecocash"));
    assert_eq!(canonical, "ecocash123REF-15.00https://x/a@b.ctr-1Message0771111111");
}

#[test]
fn express_method_changes_signature() {
    let c = client();
    let eco = c.express_payment(
        express::Method::ecocash("0771111111".to_string()),
        "REF-1".to_string(),
        "5.00".to_string(),
        "https://x/".to_string(),
        "a@b.c".to_string(),
        "tr-1".to_string(),
    );
    let one = c.express_payment(
        express::Method::onemoney("0771111111".to_string()),
        "REF-1".to_string(),
        "5.00".to_string(),
        "https://x/".to_string(),
        "a@b.c".to_string(),
        "tr-1".to_string(),
    );
    assert_ne!(eco.canonical(), one.canonical());
    assert_ne!(c.express_payment_hash(&eco), c.express_payment_hash(&one));
}

#[test]
fn express_card_canonical_order() {
    let c = client();
    let method = express::Method::vmc(
        express::Card {
            number: "4111".to_string(),
            name: "J Doe".to_string(),
            cvv: "123".to_string(),
            expiry: "1225".to_string(),
        },
        express::Address {
            line1: "1 Main".to_string(),
            line2: None,
            city: "Harare".to_string(),
            province: None,
            country: "Zimbabwe".to_string(),
        },
        "tok".to_string(),
    );
    assert_eq!(method.name(), "vmc");
    let p = c.express_payment(
        method,
        "R".to_string(),
        "1".to_string(),
        "https://x/".to_string(),
        "a@b.c".to_string(),
        "t".to_string(),
    );
    assert_eq!(p.canonical(), "vmc123R1https://x/a@b.ctMessage4111J Doe12312251 MainHarareZimbabwetok");
}

#[test]
fn endpoints_join_base() {
    let c = client();
    assert_eq!(c.payment_endpoint(), "https://www.paynow.co.zw/interface/initiatetransaction");
    assert_eq!(
        c.express_payment_endpoint(),
        "https://www.paynow.co.zw/interface/remotetransaction"
    );
    assert_eq!(c.trace_endpoint(), "https://www.paynow.co.zw/interface/trace");
}

#[test]
fn trace_request_is_signed() {
    let c = client();
    let k = key();
    let t = c.trace_request("tr-42".to_string());
    assert_eq!(t.id, 123);
    assert_eq!(t.merchant_trace, "tr-42");
    assert!(digest::verify_signature(&t.hash, "123tr-42Message", &k));
}

#[test]
fn key_is_redacted_and_zeroizable() {
    let mut k = Key::new("super-secret".to_string());
    assert_eq!(k.expose_secret(), "super-secret");
    assert_eq!(k.redacted(), "Key([REDACTED])");
    k.zeroize();
    assert_eq!(k.expose_secret(), "00000000-0000-0000-0000-000000000000");
}

#[test]
fn payment_fields_in_wire_order() {
    let c = client();
    let mut p = c.payment(
        "REF-1".to_string(),
        "10.00".to_string(),
        "https://r/".to_string(),
        "https://x/".to_string(),
    );
    p.tokenize(true);
    let fields = p.fields(&key());
    let names: Vec<&str> = fields.iter().map(|f| f.0.as_str()).collect();
    assert_eq!(
        names,
        vec!["id", "reference", "amount", "returnurl", "resulturl", "tokenize", "status", "hash"]
    );
    assert_eq!(fields[0].1, "123");
    assert_eq!(fields[5].1, "true");
    assert_eq!(fields[6].1, "Message");
    assert!(digest::verify_signature(&fields[7].1, &p.canonical(), &key()));
}

#[test]
fn express_fields_carry_method() {
    let c = client();
    let p = c.express_payment(
        express::Method::ecocash("0771111111".to_string()),
        "REF-1".to_string(),
        "5.00".to_string(),
        "https://x/".to_string(),
        "a@b.c".to_string(),
        "tr-1".to_string(),
    );
    let fields = p.fields(&key());
    let names: Vec<&str> = fields.iter().map(|f| f.0.as_str()).collect();
    assert_eq!(
        names,
        vec![
            "method",
            "id",
            "reference",
            "amount",
            "resulturl",
            "authemail",
            "merchanttrace",
            "status",
            "hash",
            "phone"
        ]
    );
    assert_eq!(fields[0].1, "ecocash");
    assert_eq!(fields[9].1, "0771111111");
    let hash = &fields[8].1;
    assert!(digest::verify_signature(hash, &p.canonical(), &key()));
}

#[test]
fn trace_fields_are_signed() {
    let c = client();
    let t = c.trace_request("tr-42".to_string());
    let fields = t.fields();
    let names: Vec<&str> = fields.iter().map(|f| f.0.as_str()).collect();
    assert_eq!(names, vec!["id", "merchanttrace", "status", "hash"]);
    assert_eq!(fields[2].1, "Message");
    assert!(digest::verify_signature(&fields[3].1, "123tr-42Message", &key()));
}
