use apple_account::account::AppleAccount;
use apple_account::error::{AccountError, PlistSource};
use apple_account::plist_tree::{parse_plist, PlistValue};
use apple_account::xml_dates::find_late_date;

fn document(element: &str) -> String {
    format!(
        "<?xml version=\"1.0\" encoding=\"UTF-8\"?>\n<plist version=\"1.0\"><dict>\
         <key>d</key>{}<key>name</key><string>a-b</string></dict></plist>",
        element
    )
}

fn binary_with_date(seconds: f64) -> Vec<u8> {
    let mut bytes = b"bplist00".to_vec();
    bytes.extend([0xd1, 1, 2]);
    bytes.extend([0x51, b'd']);
    bytes.push(0x33);
    bytes.extend(seconds.to_be_bytes());
    let table = bytes.len() as u64;
    bytes.extend([8u8, 11, 13]);
    bytes.extend([0, 0, 0, 0, 0, 0, 1, 1]);
    bytes.extend(3u64.to_be_bytes());
    bytes.extend(0u64.to_be_bytes());
    bytes.extend(table.to_be_bytes());
    bytes
}

fn holds_a_date(bytes: &[u8]) -> bool {
    match parse_plist(bytes) {
        Some(list) => matches!(list.get("d"), Some(PlistValue::Opaque(plist::Value::Date(_)))),
        None => false,
    }
}

#[test]
fn dates_before_the_year_zero_are_read() {
    let text = document("<date>0000-01-01T00:00:00+01:00</date>");
    assert!(holds_a_date(text.as_bytes()));
    let reply = AppleAccount::parse_device_reply(&text).unwrap();
    assert_eq!(reply.get_str("name").unwrap(), "a-b");
}

#[test]
fn binary_dates_before_the_year_zero_are_read() {
    assert!(holds_a_date(&binary_with_date(-1e11)));
    assert!(holds_a_date(&binary_with_date(700000000.5)));
    assert!(parse_plist(&binary_with_date(1e300)).is_none());
}

#[test]
fn dates_beyond_the_last_year_are_refused() {
    let text = document("<date>9999-12-31T23:59:59-01:00</date>");
    assert!(parse_plist(text.as_bytes()).is_none());
    let error = AppleAccount::parse_device_reply(&text).unwrap_err();
    assert!(matches!(error, AccountError::MalformedPlist(PlistSource::DeviceReply)));
}

#[test]
fn late_dates_are_found_however_they_are_written() {
    for element in [
        "<date>9999-12-31T23:59:59-01:00</date>",
        "<date>9999-12-31 23:59:59.5-23:59</date>",
        "<date>9999-12-31T23:00:00-01:00</date>",
        "<date>9999-12-31&lt;23:00:00-01:00</date>",
        "<date >9999-12-31T23:59:59-01:00</date>",
        "<date\n>9999-12-31T23:59:59-01:00</date>",
        "<p:date>9999-12-31T23:59:59-01:00</p:date>",
        "<date a=\"x>y\">9999-12-31T23:59:59-01:00</date>",
        "<date a='>'>9999-12-31T23:59:59-01:00</date>",
        "<date><!-- 2024 -->9999-12-31T23:59:59-01:00</date>",
        "<date>99<!-- </date> -->99-12-31T23:59:59-01:00</date>",
        "<date>9999-12-31T23:59:59<!-- Z -->-01:00</date>",
        "<date><![CDATA[2024]]>9999-12-31T23:59:59-01:00</date>",
        "<date><?pi x?>9999-12-31T23:59:59-01:00</date>",
        "<date>&#57;999-12-31T23:59:59-01:00</date>",
        "<date>&#x39;&#57;&#57;&#57;&#45;12-31T23:59:59-01:00</date>",
        "<date>9999-12-31T23:59:59&#45;01:00</date>",
        "<date>&unknown;9999-12-31T23:59:59-01:00</date>",
        "<date>9999-12-3&#49;T23:59:59&#45;01:00</date>",
    ] {
        let text = document(element);
        assert!(find_late_date(text.as_bytes()), "{}", element);
        assert!(parse_plist(text.as_bytes()).is_none());
    }
}

#[test]
fn other_dates_are_still_read() {
    for element in [
        "<date>2024-02-29T12:00:00Z</date>",
        "<date>2024-02-29T12:00:00-08:00</date>",
        "<date>9999-12-31T23:59:59Z</date>",
        "<date>9999-12-31T23:59:59+01:00</date>",
        "<date>9999-12-30T23:59:59-01:00</date>",
        "<date>9999-12-31T00:00:00-01:00</date>",
        "<date>9999-12-31T23:00:00-00:59</date>",
        "<date>9999-12-31T23:59:59&#90;</date>",
        "<date>9999-12-31<!-- west -->T00:00:00&#45;01:00</date>",
        "<date><!-- comment -->2024-02-29T12:00:00Z</date>",
        "<date>2024&#45;02-29T12:00:00Z</date>",
        "<date>&#50;024-02-29T12:00:00Z</date>",
        "<date a=\"b\">2024-02-29T12:00:00Z</date>",
    ] {
        let text = document(element);
        assert!(!find_late_date(text.as_bytes()), "{}", element);
        assert!(holds_a_date(text.as_bytes()), "{}", element);
    }
}

#[test]
fn late_dates_in_other_places_do_not_matter() {
    for element in [
        "<string>9999-12-31T23:59:59-01:00</string>",
        "<string>x:date>9999-12-31T23:59:59-01:00</string>",
        "<string>:date>9999-12-31-</string>",
        "<string>a<!-- <date>9999-12-31T23:59:59-01:00</date> -->b</string>",
        "<!-- <date>9999-12-31T23:59:59-01:00</date> --><true/>",
        "<?note <date>9999-12-31T23:59:59-01:00</date> ?><true/>",
        "<![CDATA[<date>9999-12-31T23:59:59-01:00</date>]]><true/>",
        "<string a='<date>9999-12-31T23:59:59-01:00</date>'>b</string>",
        "<string>&lt;date>9999-12-31T23:59:59-01:00&lt;/date></string>",
    ] {
        let text = document(element);
        assert!(!find_late_date(text.as_bytes()), "{}", element);
        let list = parse_plist(text.as_bytes()).unwrap();
        assert_eq!(list.get_str("name").unwrap(), "a-b");
    }
    assert!(!find_late_date(b""));
    assert!(!find_late_date(b"<"));
    assert!(!find_late_date(b"<date>"));
    assert!(!find_late_date(b"<date>9999-12-31T23:59:59-01:00"));
    assert!(!find_late_date(b"<date>&"));
    assert!(!find_late_date(b"<!-"));
}

#[test]
fn lists_of_other_kinds_hold_no_late_date() {
    let late = "<date>9999-12-31T23:59:59-01:00</date>";
    let list = parse_plist(format!("{{ d = \"{}\"; }}", late).as_bytes()).unwrap();
    assert_eq!(list.get_str("d").unwrap(), late);

    let mut entries = plist::Dictionary::new();
    entries.insert("d".to_string(), plist::Value::String(late.to_string()));
    let mut bytes: Vec<u8> = Vec::new();
    plist::Value::Dictionary(entries).to_writer_binary(&mut bytes).unwrap();
    assert_eq!(parse_plist(&bytes).unwrap().get_str("d").unwrap(), late);
}

#[test]
fn document_types_are_passed_over() {
    let simple = "<!DOCTYPE plist PUBLIC \"-//Apple//DTD PLIST 1.0//EN\" \
                  \"http://www.apple.com/DTDs/PropertyList-1.0.dtd\">";
    let own = "<!DOCTYPE plist [<!ENTITY e \"]>\"> <!-- ] -->]>";
    for doctype in [simple, own] {
        let start = format!("<?xml version=\"1.0\"?>{}<plist><dict><key>d</key>", doctype);
        let good = format!("{}<date>2024-02-29T12:00:00Z</date></dict></plist>", start);
        assert!(holds_a_date(good.as_bytes()));
        let late = format!("{}<date>9999-12-31T23:59:59-01:00</date></dict></plist>", start);
        assert!(find_late_date(late.as_bytes()));
        assert!(parse_plist(late.as_bytes()).is_none());
    }
}

#[test]
fn no_mixture_of_marks_upsets_the_reader() {
    let pieces = [
        "<date>", "</date>", "<p:date a='>'>", "</p:date>", "<date/>", "<string>", "</string>",
        "9999-12-31T23:59:59-01:00", "9999-12-31", "T23:59:59", "-01:00", "99", "&#57;", "&#x39;",
        "&lt;", "&none;", "<!--", "-->", "<!-- x -->", "<![CDATA[", "]]>", "<?", "?>",
        "<!DOCTYPE x>", "<!DOCTYPE x [", "]>", "'", "\"", " ", "&", ";", ">", "<", "/", "x", "\u{a0}",
    ];
    let mut seed: u64 = 1;
    let mut read = 0;
    for _ in 0..30000 {
        let mut element = String::new();
        for _ in 0..8 {
            seed = seed.wrapping_mul(6364136223846793005).wrapping_add(1442695040888963407);
            element.push_str(pieces[(seed >> 33) as usize % pieces.len()]);
        }
        let full = format!("<date>{}9999-12-31T23:59:59-01:00</date>", element);
        for text in [document(&element), document(&full)] {
            if parse_plist(text.as_bytes()).is_some() {
                read += 1;
            }
        }
    }
    assert!(read < 30000);
}
