use flows_connector_dsi::gmail::outbound;

#[test]
fn gmail_test() {
    let body = outbound("example@example.com")
        .sender("ho-229")
        .subject("Test")
        .content("This is a test message.\n")
        .build()
        .unwrap();

    assert_eq!(&body, "From: me\r\nTo: example@example.com\r\nSender: ho-229\r\nSubject: Test\r\n\r\nThis is a test message.\r\n");
}

#[test]
fn gmail_needs_content() {
    let e = outbound("a@example.com").subject("Hi").build().unwrap_err();
    assert_eq!(e, "OutboundData build failed: Content is empty");
    let e = outbound("a@example.com").content("x").content("").build().unwrap_err();
    assert_eq!(e, "OutboundData build failed: Content is empty");
}

#[test]
fn gmail_last_subject_wins() {
    let body = outbound("a@example.com").subject("A").subject("B").content("hi").build().unwrap();
    assert_eq!(body, "From: me\r\nTo: a@example.com\r\nSubject: B\r\n\r\nhi");
}

#[test]
fn gmail_line_ends() {
    let body = outbound("a@example.com").content("one\ntwo\n\nthree").build().unwrap();
    assert_eq!(body, "From: me\r\nTo: a@example.com\r\n\r\none\r\ntwo\r\n\r\nthree");
    let body = outbound("a@example.com").content("ünï\ncode").build().unwrap();
    assert!(body.ends_with("\r\n\r\nünï\r\ncode"));
}

#[test]
fn gmail_headers_in_call_order() {
    let body = outbound("e@example.com").subject("u").sender("s").content("x").build().unwrap();
    assert_eq!(body, "From: me\r\nTo: e@example.com\r\nSubject: u\r\nSender: s\r\n\r\nx");
    let body = outbound("e@example.com")
        .sender("s")
        .subject("u")
        .sender("t")
        .content("x")
        .build()
        .unwrap();
    assert_eq!(body, "From: me\r\nTo: e@example.com\r\nSender: t\r\nSubject: u\r\n\r\nx");
}
