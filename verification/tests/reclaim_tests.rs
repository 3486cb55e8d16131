use winboat_bridge::decimal::{parse_bounded, parse_u16, parse_u32, write_decimal};
use winboat_bridge::reclaim::{
    kill_arguments, kill_program, listener_query, listening_pids, Reclaim, ReclaimDirective,
    ReclaimError, ReclaimEvent, ReclaimPhase, IDLE_SETTLE_MS, KILL_SETTLE_MS,
};

const TABLE: &str = "  TCP    0.0.0.0:5330           0.0.0.0:0              LISTENING       4312\r\n  TCP    [::]:5330              [::]:0                 LISTENING       4312\r\n  TCP    0.0.0.0:53300          0.0.0.0:0              LISTENING       988\r\n";

#[test]
fn numbers_are_read() {
    assert_eq!(parse_u32("0"), Some(0));
    assert_eq!(parse_u32("4312"), Some(4312));
    assert_eq!(parse_u32("+17"), Some(17));
    assert_eq!(parse_u32("007"), Some(7));
    assert_eq!(parse_u32("4294967295"), Some(u32::MAX));
    assert_eq!(parse_u32("00000000004294967295"), Some(u32::MAX));
}

#[test]
fn what_is_no_number_is_refused() {
    for text in ["", "+", "-1", "-0", "1 ", " 1", "1_000", "12a", "a12", "1.5", "0x10", "++1", "1+", "\u{663}"] {
        assert_eq!(parse_u32(text), None, "{:?}", text);
    }
}

#[test]
fn numbers_beyond_the_range_are_refused() {
    assert_eq!(parse_u32("4294967296"), None);
    assert_eq!(parse_u32("99999999999999999999999999"), None);
    assert_eq!(parse_u16("65535"), Some(65535));
    assert_eq!(parse_u16("65536"), None);
    assert_eq!(parse_u16("5330"), Some(5330));
}

#[test]
fn reading_agrees_with_std() {
    for text in ["", "+", "0", "+0", "-0", "12", "012", "65535", "65536", "4294967295", "4294967296", "1e3", " 7"] {
        assert_eq!(parse_u32(text), text.parse::<u32>().ok(), "{:?}", text);
        assert_eq!(parse_u16(text), text.parse::<u16>().ok(), "{:?}", text);
    }
}

#[test]
fn part_of_a_line_is_read() {
    let v: Vec<char> = "ab 123 cd".chars().collect();
    assert_eq!(parse_bounded(&v, 3, 6, u32::MAX), Some(123));
    assert_eq!(parse_bounded(&v, 3, 6, 122), None);
    assert_eq!(parse_bounded(&v, 3, 6, 123), Some(123));
    assert_eq!(parse_bounded(&v, 2, 6, u32::MAX), None);
    assert_eq!(parse_bounded(&v, 4, 4, u32::MAX), None);
}

#[test]
fn numbers_are_written() {
    assert_eq!(write_decimal(0), "0");
    assert_eq!(write_decimal(9), "9");
    assert_eq!(write_decimal(10), "10");
    assert_eq!(write_decimal(5330), "5330");
    assert_eq!(write_decimal(1234567890), "1234567890");
    assert_eq!(write_decimal(u32::MAX), "4294967295");
}

#[test]
fn written_numbers_read_back() {
    for n in [0u32, 1, 9, 10, 99, 100, 101, 65535, 65536, 4294967295] {
        assert_eq!(parse_u32(&write_decimal(n)), Some(n));
        assert_eq!(write_decimal(n), n.to_string());
    }
}

fn table(rows: &[(&str, u32)]) -> String {
    let mut text = String::new();
    for (address, pid) in rows {
        text.push_str(&format!("  TCP    {}    0.0.0.0:0    LISTENING    {}\r\n", address, pid));
    }
    text
}

#[test]
fn holders_are_listed_once_in_order() {
    assert_eq!(listening_pids(TABLE, 5330), vec![4312]);
    let report = table(&[("0.0.0.0:80", 900), ("[::]:80", 17), ("127.0.0.1:80", 900), ("10.0.0.1:80", 5)]);
    assert_eq!(listening_pids(&report, 80), vec![5, 17, 900]);
}

#[test]
fn listener_on_another_port_is_passed_over() {
    // 53300 begins with the digits of 5330, and 15330 ends in them.
    assert_eq!(listening_pids(TABLE, 53300), vec![988]);
    assert_eq!(listening_pids(TABLE, 533), Vec::<u32>::new());
    assert_eq!(listening_pids(TABLE, 330), Vec::<u32>::new());
    let report = table(&[("0.0.0.0:15330", 1), ("0.0.0.0:5330", 2), ("0.0.0.0:53300", 3), ("0.0.0.0:533", 4)]);
    assert_eq!(listening_pids(&report, 5330), vec![2]);
    assert_eq!(listening_pids(&report, 15330), vec![1]);
    assert_eq!(listening_pids(&report, 533), vec![4]);
}

#[test]
fn far_side_on_the_port_does_not_count() {
    let report = "  TCP    10.0.0.1:49152    93.184.216.34:5330    ESTABLISHED    77\r\n";
    assert_eq!(listening_pids(report, 5330), Vec::<u32>::new());
    assert_eq!(listening_pids(report, 49152), vec![77]);
}

#[test]
fn address_must_end_in_colon_and_port() {
    assert_eq!(listening_pids("TCP 5330 x LISTENING 9\n", 5330), Vec::<u32>::new());
    assert_eq!(listening_pids("TCP :5330 x LISTENING 9\n", 5330), vec![9]);
    assert_eq!(listening_pids("TCP a:5330: x LISTENING 9\n", 5330), Vec::<u32>::new());
    assert_eq!(listening_pids("TCP a:05330 x LISTENING 9\n", 5330), Vec::<u32>::new());
    assert_eq!(listening_pids(":0 :0 7\n", 0), vec![7]);
    assert_eq!(listening_pids("x :65535 7\n", 65535), vec![7]);
}

#[test]
fn listing_takes_the_last_column_only() {
    assert_eq!(listening_pids("1 :2 3\n4 :2 5\nx :2 6", 2), vec![3, 5, 6]);
    assert_eq!(listening_pids("100 :2 x\ny :2 200", 2), vec![200]);
}

#[test]
fn line_of_two_words_has_address_and_id_in_one() {
    // The second word is also the last: it ends in the port and does not read as a number.
    assert_eq!(listening_pids("TCP 0.0.0.0:80\n", 80), Vec::<u32>::new());
    assert_eq!(listening_pids("80\n", 80), Vec::<u32>::new());
}

#[test]
fn lines_without_a_number_name_nothing() {
    assert_eq!(listening_pids("", 80), Vec::<u32>::new());
    assert_eq!(listening_pids("\n\n  \r\n", 80), Vec::<u32>::new());
    assert_eq!(listening_pids("Active Connections\n  Proto  Local Address  PID\n", 80), Vec::<u32>::new());
    assert_eq!(listening_pids("TCP 0.0.0.0:80 LISTENING 4294967296\n", 80), Vec::<u32>::new());
    assert_eq!(listening_pids("TCP 0.0.0.0:80 LISTENING -5\n", 80), Vec::<u32>::new());
    assert_eq!(listening_pids("TCP 0.0.0.0:80 LISTENING 4294967295\n", 80), vec![u32::MAX]);
}

#[test]
fn line_ends_of_both_kinds_are_taken() {
    assert_eq!(listening_pids("a :1 7\r\nb :1 5\nc :1 6\r\n", 1), vec![5, 6, 7]);
    assert_eq!(listening_pids("a :1 7\rb :1 5", 1), vec![5]);
    assert_eq!(listening_pids("a :1 9", 1), vec![9]);
    assert_eq!(listening_pids("a :1 9\n", 1), vec![9]);
    assert_eq!(listening_pids("\na :1 9", 1), vec![9]);
}

#[test]
fn unicode_white_space_parts_words() {
    assert_eq!(listening_pids("x\u{a0}:3\u{2003}41\u{2003}\ny\u{3000}:3\u{3000}42", 3), vec![41, 42]);
}

#[test]
fn listing_agrees_with_the_iterator_chain() {
    let report = table(&[("0.0.0.0:15330", 1), ("0.0.0.0:5330", 2), ("[::]:5330", 2), ("0.0.0.0:53300", 3)]);
    let texts = [
        TABLE,
        report.as_str(),
        "",
        "a :7 1\nb :7 1\nc :7 1",
        "3 :7 1\n\n:7 :7 2\nx :7 +2\ny :7 0002",
        "x\ny\n",
        " p :7 5 \n q :77 4 \n r :7 3 ",
        "a :7 7\r\nb :7 8\rc :7 9\n",
    ];
    for text in texts {
        for port in [7u16, 77, 5330, 53300, 15330] {
            let tail = format!(":{}", port);
            let mut expected: Vec<u32> = text
                .lines()
                .filter(|line| line.split_whitespace().nth(1).map_or(false, |w| w.ends_with(&tail)))
                .filter_map(|line| line.split_whitespace().last())
                .filter_map(|word| word.parse::<u32>().ok())
                .collect();
            expected.sort_unstable();
            expected.dedup();
            assert_eq!(listening_pids(text, port), expected, "{:?} {}", text, port);
        }
    }
}

#[test]
fn query_names_the_port() {
    assert_eq!(listener_query(5330), "netstat -a -n -o | findstr LISTENING | findstr :5330");
    assert_eq!(listener_query(0), "netstat -a -n -o | findstr LISTENING | findstr :0");
    assert_eq!(listener_query(65535), "netstat -a -n -o | findstr LISTENING | findstr :65535");
}

#[test]
fn kill_is_by_force_and_by_id() {
    assert_eq!(kill_program(), "taskkill");
    assert_eq!(kill_arguments(4312), vec!["/F", "/PID", "4312"]);
    assert_eq!(kill_arguments(0), vec!["/F", "/PID", "0"]);
}

#[test]
fn reclaim_settle_times_are_as_documented() {
    assert_eq!(IDLE_SETTLE_MS, 300);
    assert_eq!(KILL_SETTLE_MS, 800);
}

#[test]
fn reclaim_begins_by_asking() {
    let r = Reclaim::new(5330);
    assert_eq!(r.phase(), ReclaimPhase::Querying);
    assert_eq!(r.directive(), ReclaimDirective::Query);
    assert_eq!(r.failure(), None);
    assert_eq!(r.port(), 5330);
}

#[test]
fn every_holder_is_terminated_in_turn() {
    let report = table(&[("0.0.0.0:5330", 4312), ("[::]:5330", 4312), ("127.0.0.1:5330", 608)]);
    let mut r = Reclaim::new(5330);
    assert_eq!(r.step(ReclaimEvent::Report(report.into_bytes())), ReclaimDirective::Kill(608));
    assert_eq!(r.step(ReclaimEvent::KillRan), ReclaimDirective::Kill(4312));
    assert_eq!(r.step(ReclaimEvent::KillRan), ReclaimDirective::Settle(800));
    assert_eq!(r.step(ReclaimEvent::KillRan), ReclaimDirective::Settle(800));
    assert_eq!(r.step(ReclaimEvent::Settled), ReclaimDirective::Finish);
    assert_eq!(r.phase(), ReclaimPhase::Done);
}

#[test]
fn only_the_holder_of_the_port_is_terminated() {
    // One process listens on 5330 and another on 53300.
    let mut r = Reclaim::new(5330);
    assert_eq!(r.step(ReclaimEvent::Report(TABLE.as_bytes().to_vec())), ReclaimDirective::Kill(4312));
    assert_eq!(r.step(ReclaimEvent::KillRan), ReclaimDirective::Settle(800));
    assert_eq!(r.step(ReclaimEvent::Settled), ReclaimDirective::Finish);

    let mut r = Reclaim::new(53300);
    assert_eq!(r.step(ReclaimEvent::Report(TABLE.as_bytes().to_vec())), ReclaimDirective::Kill(988));
    assert_eq!(r.step(ReclaimEvent::KillRan), ReclaimDirective::Settle(800));
}

#[test]
fn empty_report_waits_briefly() {
    let mut r = Reclaim::new(5330);
    assert_eq!(r.step(ReclaimEvent::Report(Vec::new())), ReclaimDirective::Settle(300));
    assert_eq!(r.step(ReclaimEvent::Settled), ReclaimDirective::Finish);
}

#[test]
fn report_without_holders_waits_briefly() {
    let mut r = Reclaim::new(5330);
    assert_eq!(
        r.step(ReclaimEvent::Report(b"TCP 0.0.0.0:5330 LISTENING n/a\r\n".to_vec())),
        ReclaimDirective::Settle(300)
    );
    let mut r = Reclaim::new(5330);
    assert_eq!(
        r.step(ReclaimEvent::Report(b"TCP 0.0.0.0:53300 0.0.0.0:0 LISTENING 988\r\n".to_vec())),
        ReclaimDirective::Settle(300)
    );
}

#[test]
fn report_is_decoded_leniently() {
    let mut r = Reclaim::new(9);
    assert_eq!(
        r.step(ReclaimEvent::Report(b"\xff\xfe :9 12\n\xff a\xff:9 13\xff\n".to_vec())),
        ReclaimDirective::Kill(12)
    );
    assert_eq!(r.step(ReclaimEvent::KillRan), ReclaimDirective::Settle(800));
}

#[test]
fn failed_query_and_kill_that_cannot_run_are_errors() {
    let mut r = Reclaim::new(1);
    assert_eq!(r.step(ReclaimEvent::QueryFailed), ReclaimDirective::Fail);
    assert_eq!(r.failure(), Some(ReclaimError::Query));

    let mut r = Reclaim::new(1);
    r.step(ReclaimEvent::Report(b"x :1 1\ny :1 2\n".to_vec()));
    assert_eq!(r.step(ReclaimEvent::KillFailed), ReclaimDirective::Fail);
    assert_eq!(r.failure(), Some(ReclaimError::Kill));
    assert_eq!(r.step(ReclaimEvent::KillRan), ReclaimDirective::Fail);
}
