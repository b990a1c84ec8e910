use chrono::{DateTime, Datelike, TimeZone, Timelike, Utc};
use cftp::code::{FtpResponse, Port};
use cftp::handler::{
    is_recent, listing_payload, os_info, welcome, CalendarTime, FileListing, IpAddress,
    PassiveConn, SocketAddress, MAX_TIMESTAMP, MIN_TIMESTAMP, RECENT_SECONDS,
};

fn file(name: &str, modified: i64) -> FileListing {
    FileListing {
        name: name.to_string(),
        is_dir: false,
        permissions: 0o644,
        size: 1234,
        modified,
        owner: "user".to_string(),
        group: "group".to_string(),
    }
}

/// The line as the formatting of std and chrono give it.
fn expected_line(entry: &FileListing, now: i64) -> String {
    let modified: DateTime<Utc> = DateTime::from_timestamp(entry.modified, 0).unwrap();
    let mut perms = String::new();
    perms.push(if entry.is_dir { 'd' } else { '-' });
    for (mask, yes) in [
        (0o400, 'r'),
        (0o200, 'w'),
        (0o100, 'x'),
        (0o040, 'r'),
        (0o020, 'w'),
        (0o010, 'x'),
        (0o004, 'r'),
        (0o002, 'w'),
        (0o001, 'x'),
    ] {
        perms.push(if entry.permissions & mask != 0 { yes } else { '-' });
    }
    let time_or_year = if (now - entry.modified).abs() < 6 * 30 * 24 * 60 * 60 {
        format!("{:02}:{:02}", modified.hour(), modified.minute())
    } else {
        format!("{:4}", modified.year())
    };
    format!(
        "{} {:>2} {} {} {:>8} {} {} {} {}",
        perms,
        1,
        entry.owner,
        entry.group,
        entry.size,
        modified.format("%b"),
        format!("{:2}", modified.day()),
        time_or_year,
        entry.name
    )
}

#[test]
fn line_of_a_recent_file() {
    let entry = file("file1.txt", 0);
    assert_eq!(
        entry.to_line_at(0),
        Some("-rw-r--r--  1 user group     1234 Jan  1 00:00 file1.txt".to_string())
    );
}

#[test]
fn line_of_an_old_file() {
    let entry = file("file1.txt", 0);
    assert_eq!(
        entry.to_line_at(1_000_000_000),
        Some("-rw-r--r--  1 user group     1234 Jan  1 1970 file1.txt".to_string())
    );
}

#[test]
fn line_with_the_time_of_day() {
    let entry = file("a", 1_431_648_000 + 13 * 3600 + 7 * 60 + 59);
    assert_eq!(
        entry.to_line_at(1_431_648_000),
        Some("-rw-r--r--  1 user group     1234 May 15 13:07 a".to_string())
    );
    assert_eq!(
        entry.to_line_at(1_431_648_000 + RECENT_SECONDS + 13 * 3600 + 7 * 60 + 59),
        Some("-rw-r--r--  1 user group     1234 May 15 2015 a".to_string())
    );
}

#[test]
fn line_of_a_directory() {
    let entry = FileListing {
        name: "pub dir".to_string(),
        is_dir: true,
        permissions: 0o755,
        size: 4096,
        modified: 86_400 * 365,
        owner: "root".to_string(),
        group: "wheel".to_string(),
    };
    assert_eq!(
        entry.to_line_at(86_400 * 365),
        Some("drwxr-xr-x  1 root wheel     4096 Jan  1 00:00 pub dir".to_string())
    );
}

#[test]
fn permissions_show_the_lowest_nine_bits() {
    let mut entry = file("f", 0);
    let cases = [
        (0o000, "----------"),
        (0o777, "-rwxrwxrwx"),
        (0o7777, "-rwxrwxrwx"),
        (0o400, "-r--------"),
        (0o200, "--w-------"),
        (0o100, "---x------"),
        (0o040, "----r-----"),
        (0o020, "-----w----"),
        (0o010, "------x---"),
        (0o004, "-------r--"),
        (0o002, "--------w-"),
        (0o001, "---------x"),
        (0o1000, "----------"),
        (0xFFFF, "-rwxrwxrwx"),
    ];
    for (permissions, shown) in cases {
        entry.permissions = permissions;
        let line = entry.to_line_at(0).unwrap();
        assert_eq!(&line[..10], shown);
    }
}

#[test]
fn size_takes_eight_columns_or_more() {
    let mut entry = file("f", 0);
    for (size, shown) in [
        (0u64, "       0"),
        (9, "       9"),
        (10, "      10"),
        (12_345_678, "12345678"),
        (123_456_789, "123456789"),
        (u64::MAX, "18446744073709551615"),
    ] {
        entry.size = size;
        assert_eq!(
            entry.to_line_at(0).unwrap(),
            format!("-rw-r--r--  1 user group {} Jan  1 00:00 f", shown)
        );
    }
}

#[test]
fn lines_are_what_chrono_and_std_format() {
    let times = [
        0i64,
        1,
        -1,
        59,
        60,
        3599,
        3600,
        86_399,
        86_400,
        951_782_400,
        951_868_799,
        1_431_648_000,
        1_700_000_000,
        4_102_444_800,
        -86_400,
        -62_135_596_800,
        -62_135_596_801,
        -62_167_219_200,
        -100_000_000_000,
        253_402_300_799,
        253_402_300_800,
        MIN_TIMESTAMP,
        MAX_TIMESTAMP,
    ];
    for modified in times {
        let entry = file("n", modified);
        for now in [modified, 0, modified.saturating_add(RECENT_SECONDS), i64::MAX, i64::MIN] {
            let expected = if now == i64::MAX || now == i64::MIN {
                // The distance does not fit the arithmetic of the formatting above.
                let year = DateTime::from_timestamp(modified, 0).unwrap().year();
                let recent = expected_line(&entry, modified);
                let clock_at = recent.len() - " n".len() - 5;
                format!("{}{:4} n", &recent[..clock_at], year)
            } else {
                expected_line(&entry, now)
            };
            assert_eq!(entry.to_line_at(now), Some(expected));
        }
    }
}

#[test]
fn every_month_has_its_short_name() {
    let names =
        ["Jan", "Feb", "Mar", "Apr", "May", "Jun", "Jul", "Aug", "Sep", "Oct", "Nov", "Dec"];
    for (index, name) in names.iter().enumerate() {
        let time = Utc.with_ymd_and_hms(2024, index as u32 + 1, 9, 8, 7, 6).unwrap();
        let shown = CalendarTime::from_timestamp(time.timestamp()).unwrap();
        assert_eq!(shown.month, *name);
        assert_eq!(shown.year, 2024);
        assert_eq!(shown.day, 9);
        assert_eq!(shown.hour, 8);
        assert_eq!(shown.minute, 7);
    }
}

#[test]
fn calendar_time_is_not_the_timestamp() {
    let shown = CalendarTime::from_timestamp(1_431_648_000 + 23 * 3600 + 59 * 60).unwrap();
    assert_eq!(
        shown,
        CalendarTime { year: 2015, month: "May".to_string(), day: 15, hour: 23, minute: 59 }
    );
    let before = CalendarTime::from_timestamp(-1).unwrap();
    assert_eq!(
        before,
        CalendarTime { year: 1969, month: "Dec".to_string(), day: 31, hour: 23, minute: 59 }
    );
}

#[test]
fn the_calendar_ends_where_chrono_ends() {
    assert_eq!(MIN_TIMESTAMP, DateTime::<Utc>::MIN_UTC.timestamp());
    assert_eq!(MAX_TIMESTAMP, DateTime::<Utc>::MAX_UTC.timestamp());
    assert!(CalendarTime::from_timestamp(MIN_TIMESTAMP).is_some());
    assert!(CalendarTime::from_timestamp(MAX_TIMESTAMP).is_some());
    assert!(CalendarTime::from_timestamp(MIN_TIMESTAMP - 1).is_none());
    assert!(CalendarTime::from_timestamp(MAX_TIMESTAMP + 1).is_none());
    assert!(CalendarTime::from_timestamp(i64::MIN).is_none());
    assert!(CalendarTime::from_timestamp(i64::MAX).is_none());
    assert_eq!(CalendarTime::from_timestamp(MIN_TIMESTAMP).unwrap().year, -262_143);
    assert_eq!(CalendarTime::from_timestamp(MAX_TIMESTAMP).unwrap().year, 262_142);
}

#[test]
fn no_line_without_a_date() {
    assert_eq!(file("f", MAX_TIMESTAMP + 1).to_line_at(0), None);
    assert_eq!(file("f", MIN_TIMESTAMP - 1).to_line_at(0), None);
    assert_eq!(file("f", i64::MAX).to_line_at(i64::MAX), None);
}

#[test]
fn years_take_four_columns_or_more() {
    let cases = [
        (Utc.with_ymd_and_hms(987, 3, 9, 1, 2, 3).unwrap().timestamp(), "Mar  9  987"),
        (Utc.with_ymd_and_hms(5, 12, 31, 1, 2, 3).unwrap().timestamp(), "Dec 31    5"),
        (Utc.with_ymd_and_hms(0, 1, 1, 0, 0, 0).unwrap().timestamp(), "Jan  1    0"),
        (Utc.with_ymd_and_hms(-5, 6, 10, 0, 0, 0).unwrap().timestamp(), "Jun 10   -5"),
        (Utc.with_ymd_and_hms(12_345, 6, 10, 0, 0, 0).unwrap().timestamp(), "Jun 10 12345"),
        (MIN_TIMESTAMP, "Jan  1 -262143"),
        (MAX_TIMESTAMP, "Dec 31 262142"),
    ];
    for (modified, shown) in cases {
        assert_eq!(
            file("f", modified).to_line_at(1_700_000_000),
            Some(format!("-rw-r--r--  1 user group     1234 {} f", shown))
        );
    }
}

#[test]
fn recent_is_less_than_six_months_apart() {
    assert_eq!(RECENT_SECONDS, 15_552_000);
    assert!(is_recent(0, 0));
    assert!(is_recent(15_551_999, 0));
    assert!(!is_recent(15_552_000, 0));
    assert!(is_recent(0, 15_551_999));
    assert!(!is_recent(0, 15_552_000));
    assert!(is_recent(-15_551_999, 0));
    assert!(!is_recent(-15_552_000, 0));
    assert!(!is_recent(i64::MAX, i64::MIN));
    assert!(!is_recent(i64::MIN, i64::MAX));
    assert!(is_recent(i64::MAX, i64::MAX));
}

#[test]
fn line_with_a_given_time() {
    let entry = file("x y", 0);
    let time =
        CalendarTime { year: 1999, month: "Xyz".to_string(), day: 7, hour: 5, minute: 9 };
    assert_eq!(
        entry.to_line_with(&time, true),
        "-rw-r--r--  1 user group     1234 Xyz  7 05:09 x y"
    );
    assert_eq!(
        entry.to_line_with(&time, false),
        "-rw-r--r--  1 user group     1234 Xyz  7 1999 x y"
    );
    let odd = CalendarTime { year: -1, month: String::new(), day: 123, hour: 100, minute: 0 };
    assert_eq!(
        entry.to_line_with(&odd, true),
        "-rw-r--r--  1 user group     1234  123 100:00 x y"
    );
    assert_eq!(
        entry.to_line_with(&odd, false),
        "-rw-r--r--  1 user group     1234  123   -1 x y"
    );
}

#[test]
fn line_at_the_time_of_the_clock() {
    let now = Utc::now().timestamp();
    let fresh = file("f", now);
    assert_eq!(fresh.to_line_at(now), Some(expected_line(&fresh, now)));
    let old = file("f", 0);
    assert_eq!(old.to_line_at(now), Some(expected_line(&old, now)));
}

#[test]
fn payload_of_a_listing() {
    let entries = vec![file("a.txt", 0), file("caf\u{e9}", 60)];
    let payload = listing_payload(&entries, 0).unwrap();
    assert_eq!(
        String::from_utf8(payload).unwrap(),
        "-rw-r--r--  1 user group     1234 Jan  1 00:00 a.txt\r\n\
         -rw-r--r--  1 user group     1234 Jan  1 00:01 caf\u{e9}\r\n"
    );
    assert_eq!(listing_payload(&Vec::new(), 0), Some(Vec::new()));
}

#[test]
fn no_payload_with_an_entry_without_a_date() {
    let entries = vec![file("a", 0), file("b", i64::MAX), file("c", 0)];
    assert_eq!(listing_payload(&entries, 0), None);
}

#[test]
fn passive_listener_on_ipv4() {
    let addr = SocketAddress { ip: IpAddress::V4([127, 0, 0, 1]), port: 2121 };
    let conn = PassiveConn::new(addr, "factory");
    assert_eq!(
        conn.to_reply(),
        Some(FtpResponse::EnteringPassiveMode([127, 0, 0, 1], Port(2121)))
    );
    assert_eq!(conn.into_inner(), "factory");
}

#[test]
fn passive_listener_on_ipv6_has_no_reply() {
    let mut ip = [0u8; 16];
    ip[15] = 1;
    let conn = PassiveConn::new(SocketAddress { ip: IpAddress::V6(ip), port: 2121 }, 5u8);
    assert_eq!(conn.to_reply(), None);
    assert_eq!(conn.into_inner(), 5);
}

#[test]
fn what_a_handler_says_by_default() {
    assert_eq!(welcome(), "cftp by nullptr");
    assert_eq!(os_info(), "UNIX Type: L8");
    assert_eq!(
        FtpResponse::ReadyForNewUser(welcome()).to_bytes(),
        b"220 cftp by nullptr\r\n".to_vec()
    );
    assert_eq!(
        FtpResponse::NameSystemType(os_info()).to_bytes(),
        b"215 UNIX Type: L8\r\n".to_vec()
    );
}
