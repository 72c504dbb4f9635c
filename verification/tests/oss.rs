use taitan::oss::endpoint::Endpoint;
use taitan::oss::header::{CanonicalHeaders, HeaderEntry};
use taitan::oss::request::{Entry, HttpProtocol, HttpRequest};
use std::borrow::Cow;
use taitan::oss::utils::{canonical, trim};

#[test]
pub fn test_endpoint() {
    let endpoint = Endpoint::of("us-west-1");
    assert_eq!(endpoint, "oss-us-west-1.aliyuncs.com");
}

#[test]
fn endpoint_value_matches_of() {
    let e = Endpoint::new("cn-hangzhou");
    assert_eq!(e.value(), "oss-cn-hangzhou.aliyuncs.com");
    assert_eq!(e.value(), Endpoint::of("cn-hangzhou"));
}

#[test]
fn endpoint_of_empty_region() {
    assert_eq!(Endpoint::of(""), "oss-.aliyuncs.com");
}

const SAMPLES: &[&str] = &[
    "",
    " ",
    "abc",
    "  Host  ",
    "\tX-Acs-Date\n",
    "\u{3000}Wide\u{3000}",
    "\u{a0}nbsp\u{85}",
    "in ner",
    "\u{200b}zero-width\u{200b}",
    " \r\n\u{2028}\u{2029}\u{202f}\u{205f}\u{1680}\u{2000}\u{200a} x ",
    "ÄÖÜ ß",
];

#[test]
fn trim_agrees_with_str_trim() {
    for s in SAMPLES {
        assert_eq!(trim(Cow::Borrowed(*s)), s.trim(), "sample {:?}", s);
    }
}

#[test]
fn canonical_trims_then_lowercases() {
    assert_eq!(canonical(Cow::Borrowed("  X-Acs-Action ")), "x-acs-action");
    assert_eq!(canonical(Cow::Borrowed("host")), "host");
    for s in SAMPLES {
        assert_eq!(canonical(Cow::Borrowed(*s)), s.trim().to_lowercase(), "sample {:?}", s);
    }
}

#[test]
fn canonical_and_trim_keep_what_needs_no_change() {
    let host = String::from("host");
    assert!(matches!(canonical(Cow::Borrowed(host.as_str())), Cow::Borrowed(b) if std::ptr::eq(b, host.as_str())));
    assert!(matches!(canonical(Cow::Owned("host".to_string())), Cow::Owned(ref o) if o == "host"));
    assert!(matches!(canonical(Cow::Borrowed(" Host")), Cow::Owned(ref o) if o == "host"));
    assert!(matches!(trim(Cow::Borrowed("a b")), Cow::Borrowed("a b")));
    assert!(matches!(trim(Cow::Borrowed(" a b ")), Cow::Owned(ref o) if o == "a b"));
    assert!(matches!(trim(Cow::Borrowed("A")), Cow::Borrowed("A")));
    let once = trim(Cow::Borrowed("  v  "));
    let twice = trim(once.clone());
    assert_eq!(once, twice);
    assert!(matches!(twice, Cow::Owned(_)));
}

#[test]
fn header_entry_with_value() {
    let e = HeaderEntry::with_value(" Content-Type ", "  application/json  ");
    assert_eq!(e.name, "content-type");
    assert_eq!(e.value, "application/json");
    assert_eq!(e.format(), "content-type:application/json\n");
    let n = HeaderEntry::new(" Content-Type ", "  application/json  ");
    assert_eq!(n.name, e.name);
    assert_eq!(n.value, e.value);
}

#[test]
fn header_entry_with_values_joins_trimmed() {
    let e = HeaderEntry::with_values("X-Acs-List", &[" a ", "b", "  c"]);
    assert_eq!(e.name, "x-acs-list");
    assert_eq!(e.value, "a,b,c");
    let single = HeaderEntry::with_values("h", &["  one  "]);
    assert_eq!(single.value, HeaderEntry::with_value("h", "  one  ").value);
    let none = HeaderEntry::with_values("h", &[]);
    assert_eq!(none.value, "");
    let blanks = HeaderEntry::with_values("h", &[" ", "", " x "]);
    assert_eq!(blanks.value, ",,x");
}

#[test]
fn canonical_headers_format_and_signed() {
    let h = CanonicalHeaders::new(vec![
        HeaderEntry::new("Host", "oss-us-west-1.aliyuncs.com"),
        HeaderEntry::new("X-Acs-Action", " AssumeRole "),
    ]);
    assert_eq!(
        h.format(),
        "host:oss-us-west-1.aliyuncs.com\nx-acs-action:AssumeRole\n"
    );
    assert_eq!(h.signed_headers(), "host;x-acs-action");
    let empty = CanonicalHeaders::new(vec![]);
    assert_eq!(empty.format(), "");
    assert_eq!(empty.signed_headers(), "");
}

#[test]
fn http_request_holds_its_parts() {
    let req: HttpRequest<Vec<u8>> = HttpRequest {
        protocol: HttpProtocol::Https,
        host: "oss-us-west-1.aliyuncs.com".to_string(),
        url: "https://oss-us-west-1.aliyuncs.com/".to_string(),
        queries: vec![Entry("a".to_string(), "1".to_string())],
        headers: vec![],
        body: None,
    };
    let copy = req.clone();
    assert_eq!(copy.protocol, HttpProtocol::Https);
    assert_eq!(copy.queries[0].1, "1");
}
