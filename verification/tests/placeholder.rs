use glimmer::placeholder::lookup_url;

#[test]
fn lookup_url_fills_placeholder() {
    assert_eq!(
        lookup_url("http://ip-api.com/json/{}?fields=lat,lon", "8.8.8.8"),
        "http://ip-api.com/json/8.8.8.8?fields=lat,lon"
    );
}

#[test]
fn lookup_url_without_placeholder_is_unchanged() {
    assert_eq!(lookup_url("http://example.com/where", "1.2.3.4"), "http://example.com/where");
}

#[test]
fn lookup_url_fills_every_placeholder() {
    assert_eq!(lookup_url("{}/{}", "x"), "x/x");
    assert_eq!(lookup_url("{{}}", "ab"), "{ab}");
    assert_eq!(lookup_url("{", "ab"), "{");
    assert_eq!(lookup_url("", "ab"), "");
}

#[test]
fn lookup_url_matches_str_replace() {
    for (url, ip) in [("a{}b{}c", "1"), ("{}{}{", "22"), ("}{}{", "é"), ("ü{}ß", "::1")] {
        assert_eq!(lookup_url(url, ip), url.replace("{}", ip));
    }
}
