//! SOAP client behaviour: XML escaping, tag extraction, fault parsing,
//! envelope assembly and password generation.

use nc_data_export::api::soap_client::{
    parse_soap_fault, parse_user_add_response, xml_escape, extract_xml_value, NcSoapClient,
    SoapError, UserAddInfo,
};

fn sample_info() -> UserAddInfo {
    UserAddInfo {
        email: "jane@example.com".to_string(),
        first_name: "Jane".to_string(),
        last_name: "Doe".to_string(),
        phone: None,
        department: None,
        location: None,
        is_enabled: true,
        customer_id: 42,
        role_ids: vec![7, 9],
        access_group_ids: vec![],
    }
}

#[test]
fn test_xml_escape() {
    assert_eq!(xml_escape("a<b>c"), "a&lt;b&gt;c");
    assert_eq!(xml_escape("a&b"), "a&amp;b");
}

#[test]
fn test_extract_xml_value() {
    let xml = "<response><return>12345</return></response>";
    assert_eq!(extract_xml_value(xml, "return"), Some("12345".to_string()));
}

#[test]
fn xml_escape_quotes_and_apostrophes() {
    assert_eq!(xml_escape("\"x'\""), "&quot;x&apos;&quot;");
    assert_eq!(xml_escape("plain"), "plain");
    assert_eq!(xml_escape(""), "");
}

#[test]
fn extract_tolerates_namespace_prefixes() {
    let xml = "<ns1:return>77</ns1:return>";
    assert_eq!(extract_xml_value(xml, "return"), Some("77".to_string()));
    let xml2 = "<ei2:return>88</ei2:return>";
    assert_eq!(extract_xml_value(xml2, "return"), Some("88".to_string()));
    let xml3 = "<soap:faultcode>Server</soap:faultcode>";
    assert_eq!(extract_xml_value(xml3, "faultcode"), Some("Server".to_string()));
    assert_eq!(extract_xml_value("<other>1</other>", "return"), None);
}

#[test]
fn fault_parsing_reads_code_and_message() {
    let body =
        "<soap:Envelope><faultcode>Client</faultcode><faultstring>Invalid customer</faultstring></soap:Envelope>";
    match parse_soap_fault(body) {
        Some(SoapError::SoapFault { code, message }) => {
            assert_eq!(code, "Client");
            assert_eq!(message, "Invalid customer");
        }
        other => panic!("expected a SOAP fault, got {:?}", other),
    }
}

#[test]
fn fault_parsing_ignores_clean_bodies() {
    assert!(parse_soap_fault("<response><return>1</return></response>").is_none());
}

#[test]
fn fault_parsing_falls_back_on_missing_tags() {
    match parse_soap_fault("<Fault></Fault>") {
        Some(SoapError::SoapFault { code, message }) => {
            assert_eq!(code, "Unknown");
            assert_eq!(message, "Unknown error");
        }
        other => panic!("expected a SOAP fault, got {:?}", other),
    }
}

#[test]
fn user_add_response_yields_id() {
    assert_eq!(
        parse_user_add_response("<r><return>4711</return></r>").unwrap(),
        4711
    );
    assert_eq!(
        parse_user_add_response("<r><userAddReturn>-1</userAddReturn></r>").unwrap(),
        -1
    );
    assert!(matches!(
        parse_user_add_response("<r><return>abc</return></r>"),
        Err(SoapError::ParseError(_))
    ));
    assert!(matches!(
        parse_user_add_response("<r></r>"),
        Err(SoapError::ParseError(_))
    ));
}

#[test]
fn envelope_carries_credentials_and_settings() {
    let mut client = NcSoapClient::new("https://dest.example.com/", "jwt&token");
    client.set_username("api-user");
    assert_eq!(client.base_url, "https://dest.example.com");
    assert_eq!(client.endpoint_url(), "https://dest.example.com/dms2/services2/ServerEI2");
    let envelope = client.build_user_add_envelope("jdoe", &sample_info(), "Pw1!Pw1!Pw1!");
    assert!(envelope.starts_with("<?xml version=\"1.0\" encoding=\"UTF-8\"?>"));
    assert!(envelope.contains("<ei2:username>api-user</ei2:username>"));
    assert!(envelope.contains("<ei2:password>jwt&amp;token</ei2:password>"));
    assert!(envelope.contains("<ei2:key>email</ei2:key>"));
    assert!(envelope.contains("<ei2:value>jane@example.com</ei2:value>"));
    assert!(envelope.contains("<ei2:key>customerID</ei2:key>"));
    assert!(envelope.contains("<ei2:value>42</ei2:value>"));
    assert!(envelope.contains("<ei2:key>userroleID</ei2:key>"));
    assert!(envelope.contains("<ei2:value>7,9</ei2:value>"));
    assert!(envelope.contains("<ei2:key>status</ei2:key>"));
    assert!(envelope.contains("<ei2:value>enabled</ei2:value>"));
    assert!(envelope.contains("<ei2:key>mustchangepassword</ei2:key>"));
    assert!(envelope.contains("<ei2:value>true</ei2:value>"));
    assert!(!envelope.contains("accessgroupids"));
    assert!(envelope.ends_with("</soapenv:Envelope>"));
}

#[test]
fn envelope_without_username_sends_empty_credentials() {
    let client = NcSoapClient::new("https://dest.example.com", "jwt");
    let envelope = client.build_user_add_envelope("jdoe", &sample_info(), "Pw1!Pw1!Pw1!");
    assert!(envelope.contains("<ei2:username></ei2:username>"));
    assert!(envelope.contains("<ei2:password>jwt</ei2:password>"));
}

#[test]
fn classify_user_add_response_covers_all_paths() {
    let client = NcSoapClient::new("https://dest.example.com", "jwt");
    assert_eq!(
        client
            .classify_user_add_response(200, "<r><return>5</return></r>")
            .unwrap(),
        5
    );
    assert!(matches!(
        client.classify_user_add_response(
            500,
            "<faultcode>Client</faultcode><faultstring>bad</faultstring>"
        ),
        Err(SoapError::SoapFault { .. })
    ));
    match client.classify_user_add_response(503, "overloaded") {
        Err(SoapError::HttpError(m)) => assert_eq!(m, "HTTP 503: overloaded"),
        other => panic!("expected an HTTP error, got {:?}", other),
    }
    // Long bodies are truncated to two hundred characters in the message.
    let long_body = "x".repeat(450);
    match client.classify_user_add_response(500, &long_body) {
        Err(SoapError::HttpError(m)) => {
            assert_eq!(m, format!("HTTP 500: {}", "x".repeat(200)));
        }
        other => panic!("expected an HTTP error, got {:?}", other),
    }
}

#[test]
fn extraction_falls_through_when_a_close_tag_is_missing() {
    // The bare-prefix open tag is present but never closed, so the search
    // moves on to the next namespace prefix.
    let xml = "<return>5<ns1:return>7</ns1:return>";
    assert_eq!(extract_xml_value(xml, "return"), Some("7".to_string()));
}

fn check_password_policy(p: &str) {
    let special = "!@#$%^&*()_+-=[]{}|;:,.<>?";
    assert_eq!(p.chars().count(), 12);
    let mut upper = false;
    let mut lower = false;
    let mut digit = false;
    let mut spec = false;
    for c in p.chars() {
        upper |= c.is_ascii_uppercase();
        lower |= c.is_ascii_lowercase();
        digit |= c.is_ascii_digit();
        spec |= special.contains(c);
        // Every character comes from one of the four classes.
        assert!(
            c.is_ascii_uppercase() || c.is_ascii_lowercase() || c.is_ascii_digit()
                || special.contains(c),
            "character {:?} outside the charset in {:?}",
            c,
            p
        );
    }
    assert!(upper && lower && digit && spec, "weak password {:?}", p);
}

#[test]
fn generated_passwords_meet_the_policy() {
    for seed in [0u128, 1, 42, 123456789, u128::MAX] {
        let p = nc_data_export::api::soap_client::generate_password_from_seed(seed);
        check_password_policy(&p);
    }
    let p = nc_data_export::api::soap_client::generate_strong_password();
    check_password_policy(&p);
}
