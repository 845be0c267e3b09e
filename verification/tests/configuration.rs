use arpav::clock::{current_hour, read_hour};
use arpav::config::{get_port, DEFAULT_PORT};
use arpav::decimal::{parse_u16, push_padded2};

#[test]
fn default_port_is_8080() {
    assert_eq!(DEFAULT_PORT, 8080);
    assert_eq!(get_port(None), 8080);
}

#[test]
fn configured_port_is_used() {
    assert_eq!(get_port(Some("3000")), 3000);
    assert_eq!(get_port(Some("80")), 80);
    assert_eq!(get_port(Some("0")), 0);
    assert_eq!(get_port(Some("65535")), 65535);
}

#[test]
fn unparsable_port_falls_back_to_the_default() {
    for text in ["", "http", "80a", " 80", "80 ", "-1", "65536", "99999999999999999999", "8_080", "0x50", "+", "++1", "8080.0", "٣"] {
        assert_eq!(get_port(Some(text)), 8080, "{:?}", text);
    }
}

#[test]
fn parse_u16_reads_what_the_standard_parser_reads() {
    let texts = [
        "0", "1", "9", "10", "007", "+7", "+0", "+65535", "65535", "65536", "65540", "70000", "000065535",
        "0000000000000000000000080", "", "+", "-", "-0", "+-1", "1+", "12a", "a12", " 1", "1 ", "१२", "1e3",
        "6553５", "429496729600", "18446744073709551616",
    ];
    for text in texts {
        assert_eq!(parse_u16(text), text.parse::<u16>().ok(), "{:?}", text);
    }
    for n in 0..=u16::MAX {
        assert_eq!(parse_u16(&n.to_string()), Some(n));
    }
    for n in 65536u32..66000 {
        assert_eq!(parse_u16(&n.to_string()), None);
    }
}

#[test]
fn padded_numbers() {
    for n in 0..=u8::MAX {
        let mut out = String::from("img");
        push_padded2(&mut out, n);
        assert_eq!(out, format!("img{:02}", n));
    }
}

#[test]
fn clock_text_is_read_as_its_hour() {
    assert_eq!(read_hour("00"), 0);
    assert_eq!(read_hour("07"), 7);
    assert_eq!(read_hour("09"), 9);
    assert_eq!(read_hour("10"), 10);
    assert_eq!(read_hour("23"), 23);
    for hour in 0..24u8 {
        assert_eq!(read_hour(&format!("{:02}", hour)), hour);
    }
}

#[test]
fn current_hour_is_an_hour_of_the_day() {
    let before = chrono::Utc::now();
    let hour = current_hour();
    let after = chrono::Utc::now();
    assert!(hour < 24);
    let low = before.format("%H").to_string().parse::<u8>().unwrap();
    let high = after.format("%H").to_string().parse::<u8>().unwrap();
    assert!(hour == low || hour == high);
}
