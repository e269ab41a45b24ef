use gf1200_cli::utils::ip::groups;
use gf1200_cli::utils::ip::is_group;
use gf1200_cli::utils::ip::is_ip;
use gf1200_cli::utils::ip::is_ipv4;
use gf1200_cli::utils::ip::is_ipv6;
use gf1200_cli::utils::ip::is_octet;
use gf1200_cli::utils::ip::split;
use gf1200_cli::utils::text::chars_of;
use gf1200_cli::utils::text::decimal;
use gf1200_cli::utils::text::join;
use gf1200_cli::utils::text::same_text;

fn chars(text: &str) -> Vec<char> {
    text.chars().collect()
}

#[test]
fn texts_are_the_same_letter_for_letter() {
    assert!(same_text("", ""));
    assert!(same_text("exit", "exit"));
    assert!(same_text("caf\u{e9}", "caf\u{e9}"));
    assert!(!same_text("exit", "Exit"));
    assert!(!same_text("exit", "exit "));
    assert!(!same_text("", " "));
    assert!(!same_text("e\u{301}", "\u{e9}"));
}

#[test]
fn characters_in_order() {
    assert_eq!(chars_of(""), Vec::<char>::new());
    assert_eq!(chars_of("a:b"), vec!['a', ':', 'b']);
    assert_eq!(chars_of("\u{e9}\u{1f600}x"), vec!['\u{e9}', '\u{1f600}', 'x']);
}

#[test]
fn decimal_numerals() {
    assert_eq!(decimal(0), "0");
    assert_eq!(decimal(7), "7");
    assert_eq!(decimal(9), "9");
    assert_eq!(decimal(10), "10");
    assert_eq!(decimal(101), "101");
    assert_eq!(decimal(1234567890), "1234567890");
    assert_eq!(decimal(usize::MAX), usize::MAX.to_string());
    for n in 0..2000usize {
        assert_eq!(decimal(n), n.to_string());
    }
}

#[test]
fn joining_texts() {
    let none: Vec<String> = vec![];
    assert_eq!(join(&none, ", "), "");
    assert_eq!(join(&vec!["a".to_string()], ", "), "a");
    assert_eq!(join(&vec!["a".to_string(), "b".to_string(), "c".to_string()], ", "), "a, b, c");
    assert_eq!(join(&vec!["".to_string(), "".to_string()], "-"), "-");
    assert_eq!(join(&vec!["a".to_string(), "b".to_string()], ""), "ab");
}

#[test]
fn splitting_at_a_separator() {
    let text = chars("a.bc..d");
    let parts: Vec<String> = split(&text, '.').iter().map(|p| p.iter().collect()).collect();
    assert_eq!(parts, vec!["a", "bc", "", "d"]);
    let empty = chars("");
    assert_eq!(split(&empty, '.'), vec![&[] as &[char]]);
    let dots = chars("..");
    assert_eq!(split(&dots, '.').len(), 3);
    let plain = chars("abc");
    assert_eq!(split(&plain, ':'), vec![&plain[..]]);
}

#[test]
fn octets() {
    for text in ["0", "9", "10", "99", "100", "199", "249", "250", "255"] {
        assert!(is_octet(&chars(text)), "{text}");
    }
    for text in ["", "00", "01", "007", "256", "260", "300", "999", "1000", "0255", "a", "1a", "-1", " 1"] {
        assert!(!is_octet(&chars(text)), "{text:?}");
    }
    for n in 0..1000u32 {
        assert_eq!(is_octet(&chars(&n.to_string())), n <= 255, "{n}");
    }
}

#[test]
fn hexadecimal_groups() {
    for text in ["0", "f", "F", "00", "0000", "ffff", "AbCd", "09af", "1"] {
        assert!(is_group(&chars(text)), "{text}");
    }
    for text in ["", "00000", "g", "fffg", "0x1", "-1", " 1", "1 ", "\u{ff11}"] {
        assert!(!is_group(&chars(text)), "{text:?}");
    }
}

#[test]
fn counting_groups() {
    assert_eq!(groups(&chars(""), false), Some(0));
    assert_eq!(groups(&chars(""), true), Some(0));
    assert_eq!(groups(&chars("1"), false), Some(1));
    assert_eq!(groups(&chars("1:2:3"), false), Some(3));
    assert_eq!(groups(&chars("1:2:3:4:5:6:7:8"), true), Some(8));
    assert_eq!(groups(&chars("1:2:3:4:5:6:7:8:9"), true), None);
    assert_eq!(groups(&chars("1.2.3.4"), true), Some(2));
    assert_eq!(groups(&chars("1.2.3.4"), false), None);
    assert_eq!(groups(&chars("a:1.2.3.4"), true), Some(3));
    assert_eq!(groups(&chars("1:2:3:4:5:6:7:1.2.3.4"), true), None);
    assert_eq!(groups(&chars("1:2:3:4:5:6:1.2.3.4"), true), Some(8));
    assert_eq!(groups(&chars("1.2.3.4:a"), true), None);
    assert_eq!(groups(&chars(":"), true), None);
    assert_eq!(groups(&chars("1:"), true), None);
    assert_eq!(groups(&chars(":1"), true), None);
    assert_eq!(groups(&chars("1::2"), true), None);
}

#[test]
fn the_two_families() {
    assert!(is_ipv4(&chars("127.0.0.1")));
    assert!(!is_ipv6(&chars("127.0.0.1")));
    assert!(is_ip(&chars("127.0.0.1")));
    assert!(is_ipv6(&chars("::1")));
    assert!(!is_ipv4(&chars("::1")));
    assert!(is_ip(&chars("::1")));
    assert!(!is_ip(&chars("999.1.1.1")));
    assert!(!is_ip(&chars("localhost")));
    assert!(!is_ip(&chars("")));
}
