use gf1200_cli::repl::commands::ArgType;

#[test]
fn bool_matches_exactly_the_four_literals() {
    for text in ["0", "1", "true", "false"] {
        assert!(ArgType::Bool.matches(text), "{text}");
    }
    for text in ["2", "True", "", "TRUE", "false ", " 0", "01", "yes", "no", "tru"] {
        assert!(!ArgType::Bool.matches(text), "{text}");
    }
}

#[test]
fn string_matches_anything() {
    for text in ["", "0", "::1", "AA:BB:CC:DD:EE:FF", "caf\u{e9}", " "] {
        assert!(ArgType::String.matches(text), "{text}");
    }
}

#[test]
fn address_matches_the_named_literals() {
    assert!(ArgType::IpAddress.matches("127.0.0.1"));
    assert!(ArgType::IpAddress.matches("::1"));
    assert!(!ArgType::IpAddress.matches("999.1.1.1"));
    assert!(!ArgType::IpAddress.matches("localhost"));
}

#[test]
fn ipv4_literals() {
    for text in ["0.0.0.0", "255.255.255.255", "10.0.0.1", "192.168.1.254", "1.2.3.4", "100.99.9.0"]
    {
        assert!(ArgType::IpAddress.matches(text), "{text}");
    }
    for text in [
        "",
        ".",
        "...",
        "1.2.3",
        "1.2.3.",
        ".1.2.3",
        "1..2.3",
        "1.2.3.4.5",
        "256.0.0.1",
        "1.2.3.256",
        "1.2.3.1000",
        "01.2.3.4",
        "1.2.3.04",
        "00.0.0.0",
        "1.2.3.4 ",
        " 1.2.3.4",
        "1.2.3.a",
        "0x1.2.3.4",
        "1.2.3.-4",
        "+1.2.3.4",
        "1,2,3,4",
        "١.٢.٣.٤",
        "1.2.3.4\n",
    ] {
        assert!(!ArgType::IpAddress.matches(text), "{text:?}");
    }
}

#[test]
fn ipv6_literals_written_in_full() {
    for text in [
        "1:2:3:4:5:6:7:8",
        "0:0:0:0:0:0:0:0",
        "ffff:ffff:ffff:ffff:ffff:ffff:ffff:ffff",
        "FFFF:0001:00a0:Ab:0:0:0:1",
        "2001:db8:85a3:0:0:8a2e:370:7334",
        "1:2:3:4:5:6:1.2.3.4",
        "0:0:0:0:0:ffff:192.168.0.1",
    ] {
        assert!(ArgType::IpAddress.matches(text), "{text}");
    }
    for text in [
        "1:2:3:4:5:6:7",
        "1:2:3:4:5:6:7:8:9",
        "1:2:3:4:5:6:7:",
        ":1:2:3:4:5:6:7",
        "1:2:3:4:5:6:7:g",
        "1:2:3:4:5:6:7:00000",
        "12345:2:3:4:5:6:7:8",
        "1:2:3:4:5:1.2.3.4",
        "1:2:3:4:5:6:7:1.2.3.4",
        "1.2.3.4:1:2:3:4:5:6",
        "1:2:3:4:5:6:1.2.3.256",
        "1:2:3:4:5:6:1.2.3",
        "1:2:3:4:5:6:01.2.3.4",
        "1:2:3:4:5:6:7:8 ",
        "[1:2:3:4:5:6:7:8]",
        "1:2:3:4:5:6:7:8%eth0",
        "fe80:0:0:0:0:0:0:1%1",
    ] {
        assert!(!ArgType::IpAddress.matches(text), "{text:?}");
    }
}

#[test]
fn ipv6_literals_with_a_gap() {
    for text in [
        "::",
        "::1",
        "1::",
        "1::2",
        "::1:2:3:4:5:6:7",
        "1:2:3:4:5:6:7::",
        "1:2:3::5:6:7:8",
        "1::3:4:5:6:7:8",
        "fe80::1",
        "2001:db8::8a2e:370:7334",
        "::ffff:1.2.3.4",
        "::1.2.3.4",
        "1::1.2.3.4",
        "1:2:3:4:5::1.2.3.4",
        "::1:2:3:4:5:1.2.3.4",
        "::FFFF:255.255.255.255",
        "::0",
        "0::0",
    ] {
        assert!(ArgType::IpAddress.matches(text), "{text}");
    }
    for text in [
        ":",
        ":::",
        "::1::",
        "1::2::3",
        "1:::2",
        "::1:2:3:4:5:6:7:8",
        "1:2:3:4:5:6:7:8::",
        "1:2:3:4:5:6:7::8",
        "1:2:3:4::5:6:7:8",
        "1:2:3:4:5:6::1.2.3.4",
        "::1:2:3:4:5:6:1.2.3.4",
        "1.2.3.4::",
        "1.2.3.4::1",
        "::1.2.3.4:5",
        "::1.2.3.4.5",
        "::1.2.3",
        "::1.2.3.04",
        "::12345",
        "::g",
        ":: 1",
        "::1 ",
        "1:",
        ":1",
        "::1%lo",
    ] {
        assert!(!ArgType::IpAddress.matches(text), "{text:?}");
    }
}

#[test]
fn a_long_text_is_no_address() {
    let long = "1".repeat(5000);
    assert!(!ArgType::IpAddress.matches(&long));
    let colons = ":".repeat(300);
    assert!(!ArgType::IpAddress.matches(&colons));
}

#[test]
fn inference_tries_bool_then_address_then_string() {
    assert_eq!(ArgType::from_value("0"), ArgType::Bool);
    assert_eq!(ArgType::from_value("1"), ArgType::Bool);
    assert_eq!(ArgType::from_value("true"), ArgType::Bool);
    assert_eq!(ArgType::from_value("false"), ArgType::Bool);
    assert_eq!(ArgType::from_value("127.0.0.1"), ArgType::IpAddress);
    assert_eq!(ArgType::from_value("::1"), ArgType::IpAddress);
    assert_eq!(ArgType::from_value("::"), ArgType::IpAddress);
    assert_eq!(ArgType::from_value("localhost"), ArgType::String);
    assert_eq!(ArgType::from_value(""), ArgType::String);
    assert_eq!(ArgType::from_value("True"), ArgType::String);
    assert_eq!(ArgType::from_value("2"), ArgType::String);
    assert_eq!(ArgType::from_value("AA:BB:CC:DD:EE:FF"), ArgType::String);
}

#[test]
fn the_inferred_type_matches_the_value() {
    for text in ["0", "true", "10.0.0.1", "::", "x", "", "1:2:3:4:5:6:7:8", "999.1.1.1"] {
        assert!(ArgType::from_value(text).matches(text), "{text}");
    }
}

#[test]
fn names_and_descriptions() {
    assert_eq!(ArgType::String.to_string(), "string");
    assert_eq!(ArgType::Bool.to_string(), "boolean");
    assert_eq!(ArgType::IpAddress.to_string(), "IPv4/6 address");
    assert_eq!(ArgType::String.describe(), "any string");
    assert_eq!(ArgType::Bool.describe(), "one of: '0', '1', 'true' or 'false'");
    assert_eq!(ArgType::IpAddress.describe(), "a valid IPv4 or IPv6 address");
}
