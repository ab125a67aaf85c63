use urlguard::clock::format_date;
use urlguard::codec::time_to_be_bytes;
use urlguard::commands::{
    command_kind, denied_reply, AllowCommand, CommandKind, DenyCommand, ALLOWED_NOW_REPLY,
    ALREADY_ALLOWED_REPLY, ALREADY_DENIED_REPLY, DENIED_NOW_REPLY, INVALID_URL_REPLY,
    NOT_DENIED_REPLY, NO_URL_REPLY,
};
use urlguard::errors::SafeError;
use urlguard::legacy::{legacy_allow, legacy_deny, CommandError, LegacyAction, LegacyParser};
use urlguard::links::first_link;
use urlguard::preparer::{links_to_check, message_verdict_after};
use urlguard::safe::{Safe, SafeData, SafetyCheck};
use urlguard::safebrowsing::{SafeState, Safebrowsing, SAFEBROWSING_ENDPOINT};
use urlguard::store::Sled;
use urlguard::urls::{is_valid_url, url_key_of};

fn open_safe(name: &str) -> Safe {
    Safe::new(&format!("/tmp/urlguard-tests/{}", name)).expect("open deny list")
}

fn open_sled(name: &str) -> Sled {
    Sled::new(&format!("/tmp/urlguard-tests/{}", name)).expect("open deny list")
}

#[test]
fn time_encoding_is_big_endian() {
    assert_eq!(time_to_be_bytes(0x0102030405060708), vec![1, 2, 3, 4, 5, 6, 7, 8]);
    assert_eq!(time_to_be_bytes(-1), vec![0xff; 8]);
    assert_eq!(time_to_be_bytes(0), vec![0; 8]);
}

#[test]
fn time_decoding_reads_first_eight_bytes() {
    assert_eq!(Sled::as_i64_be(&[1, 2, 3, 4, 5, 6, 7, 8]), 0x0102030405060708);
    assert_eq!(Sled::as_i64_be(&[0xff; 8]), -1);
    assert_eq!(Sled::as_i64_be(&[0x80, 0, 0, 0, 0, 0, 0, 0]), i64::MIN);
    assert_eq!(Sled::as_i64_be(&[0x7f, 0xff, 0xff, 0xff, 0xff, 0xff, 0xff, 0xff]), i64::MAX);
    assert_eq!(Sled::as_i64_be(&[0, 0, 0, 0, 0, 0, 1, 0, 9, 9]), 256);
}

#[test]
fn time_encoding_roundtrips() {
    for t in [0i64, 1, -1, 1_600_000_000_000, i64::MIN, i64::MAX, -123_456_789] {
        assert_eq!(Sled::as_i64_be(&time_to_be_bytes(t)), t);
    }
}

#[test]
fn safe_data_defaults_to_safe() {
    let data = SafeData::new();
    assert!(data.is_safe());
    assert_eq!(data.get_time(), -1);
}

#[test]
fn report_time_gives_verdict() {
    assert_eq!(SafeData::from_report(-1), SafeData::new());
    assert_eq!(SafeData::from_report(42), SafeData { safe: false, time: 42 });
}

#[test]
fn combined_verdict_prefers_report_time() {
    let safe = SafeData::new();
    let sled = SafeData { safe: false, time: 10 };
    let report = SafeData { safe: false, time: 20 };
    assert_eq!(SafeData::combine(&safe, &safe), safe);
    assert_eq!(SafeData::combine(&sled, &safe), sled);
    assert_eq!(SafeData::combine(&safe, &report), report);
    assert_eq!(SafeData::combine(&sled, &report), report);
}

#[test]
fn flagged_state_codes() {
    assert_eq!(SafeState::NoAvailableData.code(), 6);
    assert_eq!(SafeState::SomePagesUnsafe.code(), 3);
    assert_eq!(SafeState::HarmfulPage.code(), 2);
}

#[test]
fn request_url_appends_site() {
    assert_eq!(
        Safebrowsing::request_url("https://example.com"),
        format!("{}https://example.com", SAFEBROWSING_ENDPOINT)
    );
}

#[test]
fn document_drops_prefix_and_last_byte() {
    assert_eq!(Safebrowsing::document("0123456[null,2]\n"), "[null,2]");
    assert_eq!(Safebrowsing::document("1234567X"), "");
}

#[test]
fn report_time_reads_state_and_time() {
    assert_eq!(Safebrowsing::report_time("[null,2,0,0,0,0,0,1234]").unwrap(), 1234);
    assert_eq!(Safebrowsing::report_time("[null,3,0,0,0,0,0,77]").unwrap(), 77);
    assert_eq!(Safebrowsing::report_time("[null,6,0,0,0,0,0,-5]").unwrap(), -5);
    assert_eq!(Safebrowsing::report_time("[null,1,0,0,0,0,0,1234]").unwrap(), -1);
    assert_eq!(Safebrowsing::report_time("[null,4]").unwrap(), -1);
}

#[test]
fn report_lacking_fields_is_unreadable() {
    assert!(!Safebrowsing::report_is_readable("[null]"));
    assert!(!Safebrowsing::report_is_readable("[null,\"x\"]"));
    assert!(!Safebrowsing::report_is_readable("[null,2]"));
    assert!(!Safebrowsing::report_is_readable("[null,2,0,0,0,0,0,\"t\"]"));
    assert!(Safebrowsing::report_is_readable("[null,2,0,0,0,0,0,9]"));
    assert!(Safebrowsing::report_is_readable("[null,5]"));
    assert!(Safebrowsing::report_is_readable("not json"));
    assert!(Safebrowsing::is_flagged(2) && Safebrowsing::is_flagged(3) && Safebrowsing::is_flagged(6));
    assert!(!Safebrowsing::is_flagged(1) && !Safebrowsing::is_flagged(4));
}

#[test]
fn report_time_of_non_json_is_error() {
    assert!(matches!(Safebrowsing::report_time("not json"), Err(SafeError::Json(_))));
}

#[test]
fn complete_check_caches_verdict() {
    let mut sb = Safebrowsing::new();
    assert_eq!(sb.cached("https://bad.example"), None);
    let body = String::from("0123456[null,2,0,0,0,0,0,5000]!");
    assert_eq!(sb.complete_check("https://bad.example", Ok(body)).unwrap(), 5000);
    assert_eq!(sb.cached("https://bad.example"), Some(5000));
    let body = String::from("0123456[null,1]!");
    assert_eq!(sb.complete_check("https://good.example", Ok(body)).unwrap(), -1);
    assert_eq!(sb.cached("https://good.example"), Some(-1));
}

#[test]
fn complete_check_failures_cache_nothing() {
    let mut sb = Safebrowsing::new();
    let r = sb.complete_check("https://a.example", Err(String::from("timeout")));
    assert!(matches!(r, Err(SafeError::Fetch(ref m)) if m == "timeout"));
    let r = sb.complete_check("https://a.example", Ok(String::from("0123456{oops!")));
    assert!(matches!(r, Err(SafeError::Json(_))));
    assert_eq!(sb.cached("https://a.example"), None);
}

#[test]
fn url_key_is_lowercased_origin() {
    assert!(is_valid_url("https://Example.COM/Path?q=1"));
    assert_eq!(url_key_of("https://Example.COM/Path?q=1").unwrap(), "https://example.com");
    assert_eq!(url_key_of("HTTP://User@Example.com:8080/x").unwrap(), "http://user@example.com:8080");
    assert_eq!(url_key_of("https://example.com").unwrap(), "https://example.com");
}

#[test]
fn url_that_does_not_parse_has_no_key() {
    assert!(!is_valid_url("not a url"));
    assert!(!is_valid_url("user@example.com"));
    assert_eq!(url_key_of("example.com/path"), None);
}

#[test]
fn first_link_of_text() {
    assert_eq!(
        first_link("see https://a.example/x and https://b.example").unwrap(),
        "https://a.example/x"
    );
    assert_eq!(first_link("write to me@mail.example").unwrap(), "me@mail.example");
    assert_eq!(first_link("nothing here"), None);
}

#[test]
fn date_is_shown_in_utc_plus_one() {
    assert_eq!(format_date(0), "1970-01-01 01:00:00");
    assert_eq!(format_date(1_600_000_000_000), "2020-09-13 13:26:40");
    assert_eq!(format_date(1_600_000_000_999), "2020-09-13 13:26:40");
    assert_eq!(format_date(-1_500), "1970-01-01 00:59:59");
}

#[test]
fn denied_reply_texts() {
    assert_eq!(denied_reply(&SafeData::new()), NOT_DENIED_REPLY);
    assert_eq!(denied_reply(&SafeData { safe: false, time: 0 }), "URL is denied at 1970-01-01 01:00:00");
}

#[test]
fn slash_command_names() {
    assert_eq!(command_kind("denied"), Some(CommandKind::Denied));
    assert_eq!(command_kind("deny"), Some(CommandKind::Deny));
    assert_eq!(command_kind("allow"), Some(CommandKind::Allow));
    assert_eq!(command_kind("Deny"), None);
    assert_eq!(command_kind("other"), None);
}

#[test]
fn legacy_action_for_bots_and_members() {
    let parser = LegacyParser::new();
    assert_eq!(parser.action(true, true, "+deny https://a.example"), LegacyAction::Finish(false));
    assert_eq!(parser.action(false, false, "+deny https://a.example"), LegacyAction::Finish(true));
}

#[test]
fn legacy_action_reads_commands() {
    let parser = LegacyParser::new();
    assert_eq!(
        parser.action(false, true, "+deny https://a.example/x"),
        LegacyAction::Deny(Some(String::from("https://a.example/x")))
    );
    assert_eq!(
        parser.action(false, true, "+ALLOW https://a.example"),
        LegacyAction::Allow(Some(String::from("https://a.example")))
    );
    assert_eq!(
        parser.action(false, true, "+denied https://a.example"),
        LegacyAction::Denied(Some(String::from("https://a.example")))
    );
    assert_eq!(parser.action(false, true, "+deny nothing"), LegacyAction::Deny(None));
}

#[test]
fn legacy_action_passes_other_messages_on() {
    let parser = LegacyParser::new();
    assert_eq!(parser.action(false, true, "+deny"), LegacyAction::Finish(true));
    assert_eq!(parser.action(false, true, "+other https://a.example"), LegacyAction::Finish(true));
    assert_eq!(parser.action(false, true, "hello https://a.example"), LegacyAction::Finish(true));
}

#[test]
fn legacy_parser_keeps_arguments() {
    let parser = LegacyParser::new();
    let command = parser.parse("+deny one two").unwrap();
    assert_eq!(command.name, "deny");
    assert_eq!(command.arguments, vec![String::from("one"), String::from("two")]);
    assert!(parser.parse("deny one").is_none());
}

#[test]
fn links_checked_for_members_only() {
    assert!(links_to_check(true, "https://a.example").is_empty());
    assert_eq!(
        links_to_check(false, "https://a.example and https://b.example"),
        vec![String::from("https://a.example"), String::from("https://b.example")]
    );
    assert!(links_to_check(false, "no links").is_empty());
}

#[test]
fn first_successful_check_decides() {
    assert_eq!(message_verdict_after(&vec![], 0), Some(true));
    assert_eq!(message_verdict_after(&vec![], 2), None);
    assert_eq!(message_verdict_after(&vec![None], 2), None);
    assert_eq!(message_verdict_after(&vec![None, Some(false)], 2), Some(false));
    assert_eq!(message_verdict_after(&vec![Some(true)], 3), Some(true));
    assert_eq!(message_verdict_after(&vec![None, None], 2), Some(true));
}

#[test]
fn sled_deny_at_then_time() {
    let mut sled = open_sled("deny_at");
    sled.allow("https://x.example").unwrap();
    assert!(!sled.is_denied("https://x.example").unwrap());
    assert_eq!(sled.get_time("https://x.example").unwrap(), -1);
    assert_eq!(sled.is_safe("https://x.example").unwrap(), (true, -1));
    sled.deny_at("https://x.example", 1234).unwrap();
    assert!(sled.is_denied("https://x.example").unwrap());
    assert_eq!(sled.get_time("https://x.example").unwrap(), 1234);
    assert_eq!(sled.is_safe("https://x.example").unwrap(), (false, 1234));
    assert!(sled.time_is_readable("https://x.example").unwrap());
}

#[test]
fn sled_allow_then_safe() {
    let mut sled = open_sled("allow");
    sled.deny_at("https://y.example", 99).unwrap();
    sled.deny_at("https://z.example", 7).unwrap();
    sled.allow("https://y.example").unwrap();
    assert!(!sled.is_denied("https://y.example").unwrap());
    assert_eq!(sled.is_safe("https://y.example").unwrap(), (true, -1));
    assert_eq!(sled.get_time("https://z.example").unwrap(), 7);
}

#[test]
fn sled_deny_uses_clock_in_whole_seconds() {
    let mut sled = open_sled("deny_now");
    sled.deny("https://now.example").unwrap();
    let t = sled.get_time("https://now.example").unwrap();
    assert!(t > 1_600_000_000_000);
    assert_eq!(t % 1000, 0);
}

#[test]
fn safe_deny_keys_by_origin() {
    let mut safe = open_safe("safe_keys");
    safe.allow("https://Key.example/a").unwrap();
    assert!(!safe.is_denied("https://key.example/other").unwrap());
    safe.deny("https://KEY.example/a?b").unwrap();
    assert!(safe.is_denied("https://key.example/other").unwrap());
    assert!(safe.sled.is_denied("https://key.example").unwrap());
    assert_eq!(safe.form_url("https://KEY.example/a?b"), "https://key.example");
    safe.allow("https://key.EXAMPLE").unwrap();
    assert!(!safe.is_denied("https://key.example/a").unwrap());
}

#[test]
fn sled_verdict_of_safe() {
    let mut safe = open_safe("sled_verdict");
    safe.sled.deny_at("https://v.example", 555).unwrap();
    assert_eq!(safe.is_sled_safe("https://v.example").unwrap(), SafeData { safe: false, time: 555 });
    safe.sled.allow("https://v.example").unwrap();
    assert_eq!(safe.is_sled_safe("https://v.example").unwrap(), SafeData::new());
}

#[test]
fn check_is_pending_then_cached() {
    let mut safe = open_safe("check_flow");
    safe.sled.deny_at("https://flow.example", 100).unwrap();
    let pending = match safe.try_begin_check("https://Flow.example/page").unwrap().unwrap() {
        SafetyCheck::Pending(p) => p,
        SafetyCheck::Decided(_) => panic!("nothing cached yet"),
    };
    assert_eq!(pending.input, "https://flow.example");
    assert_eq!(pending.sled, SafeData { safe: false, time: 100 });
    let verdict = safe.finish_check(pending, Ok(String::from("0123456[null,1]!"))).unwrap();
    assert_eq!(verdict, SafeData { safe: false, time: 100 });
    match safe.begin_check("https://flow.example/other").unwrap() {
        SafetyCheck::Decided(d) => assert_eq!(d, SafeData { safe: false, time: 100 }),
        SafetyCheck::Pending(_) => panic!("verdict should be cached"),
    }
}

#[test]
fn report_verdict_wins() {
    let mut safe = open_safe("report_wins");
    safe.sled.allow("https://rep.example").unwrap();
    let pending = match safe.begin_check("https://rep.example").unwrap() {
        SafetyCheck::Pending(p) => p,
        SafetyCheck::Decided(_) => panic!("nothing cached yet"),
    };
    let verdict = safe
        .try_finish_check(pending, Ok(String::from("0123456[null,2,0,0,0,0,0,4242]!")))
        .unwrap()
        .unwrap();
    assert_eq!(verdict, SafeData { safe: false, time: 4242 });
}

#[test]
fn check_of_unparsable_url_is_not_started() {
    let mut safe = open_safe("check_invalid");
    assert!(safe.try_begin_check("nonsense").unwrap().is_none());
}

#[test]
fn check_with_unreadable_time_is_not_started() {
    let path = "/tmp/urlguard-tests/check_short";
    {
        let db = sled::open(path).expect("open raw database");
        db.insert("https://short.example", vec![1u8, 2]).expect("insert short value");
        db.flush().expect("flush");
    }
    let mut safe = Safe::new(path).expect("open deny list");
    assert!(!safe.sled.time_is_readable("https://short.example").unwrap());
    assert!(safe.try_begin_check("https://short.example/page").unwrap().is_none());
    assert!(safe.sled.time_is_readable("https://other.example").unwrap());
}

#[test]
fn finish_check_reports_fetch_failure() {
    let mut safe = open_safe("fetch_failure");
    safe.sled.allow("https://ff.example").unwrap();
    let pending = match safe.begin_check("https://ff.example").unwrap() {
        SafetyCheck::Pending(p) => p,
        SafetyCheck::Decided(_) => panic!("nothing cached yet"),
    };
    let r = safe.finish_check(pending, Err(String::from("refused")));
    assert!(matches!(r, Err(SafeError::Fetch(_))));
    assert_eq!(safe.safebrowsing.cached("https://ff.example"), None);
}

#[test]
fn slash_deny_and_allow_replies() {
    let mut safe = open_safe("slash");
    safe.allow("https://slash.example").unwrap();
    let deny = DenyCommand { url: String::from("https://slash.example/a") };
    let allow = AllowCommand { url: String::from("https://SLASH.example/b") };
    assert_eq!(allow.allow(&mut safe).unwrap(), ALREADY_ALLOWED_REPLY);
    assert_eq!(deny.deny(&mut safe).unwrap(), DENIED_NOW_REPLY);
    assert_eq!(deny.deny(&mut safe).unwrap(), ALREADY_DENIED_REPLY);
    assert_eq!(allow.allow(&mut safe).unwrap(), ALLOWED_NOW_REPLY);
    assert!(!safe.is_denied("https://slash.example").unwrap());
}

#[test]
fn slash_command_with_invalid_url() {
    let mut safe = open_safe("slash_invalid");
    let deny = DenyCommand { url: String::from("example") };
    let allow = AllowCommand { url: String::from("example") };
    assert_eq!(deny.deny(&mut safe).unwrap(), INVALID_URL_REPLY);
    assert_eq!(allow.allow(&mut safe).unwrap(), INVALID_URL_REPLY);
}

#[test]
fn legacy_deny_and_allow_replies() {
    let mut safe = open_safe("legacy");
    safe.allow("https://legacy.example").unwrap();
    assert_eq!(legacy_allow(&mut safe, Some("https://legacy.example")).unwrap(), NOT_DENIED_REPLY);
    assert_eq!(legacy_deny(&mut safe, Some("https://legacy.example/x")).unwrap(), DENIED_NOW_REPLY);
    assert_eq!(legacy_deny(&mut safe, Some("https://legacy.example")).unwrap(), ALREADY_DENIED_REPLY);
    assert_eq!(legacy_allow(&mut safe, Some("https://legacy.example/y")).unwrap(), ALLOWED_NOW_REPLY);
    assert_eq!(legacy_deny(&mut safe, None).unwrap(), NO_URL_REPLY);
    assert_eq!(legacy_allow(&mut safe, None).unwrap(), NO_URL_REPLY);
}

#[test]
fn legacy_command_with_unparsable_link() {
    let mut safe = open_safe("legacy_invalid");
    assert!(matches!(legacy_deny(&mut safe, Some("me@mail.example")), Err(CommandError::UnparsableUrl)));
    assert!(matches!(legacy_allow(&mut safe, Some("me@mail.example")), Err(CommandError::UnparsableUrl)));
}

#[test]
fn opening_deny_list_under_a_file_fails() {
    assert!(matches!(Sled::new("/etc/hostname/deny-list"), Err(SafeError::Storage(_))));
    assert!(matches!(Safe::new("/etc/hostname/deny-list"), Err(SafeError::Storage(_))));
}

#[test]
fn body_cut_needs_boundaries() {
    assert!(Safebrowsing::body_is_cuttable("0123456[]!"));
    assert!(Safebrowsing::body_is_cuttable("01234567"));
    assert!(!Safebrowsing::body_is_cuttable("0123456"));
    assert!(!Safebrowsing::body_is_cuttable("012345é[]!"));
    assert!(!Safebrowsing::body_is_cuttable("0123456[]é"));
}

#[test]
fn date_range_of_renderer() {
    assert!(urlguard::clock::date_renderable_at(0));
    assert!(urlguard::clock::date_renderable_at(-1));
    assert!(!urlguard::clock::date_renderable_at(i64::MAX));
    assert!(!urlguard::clock::date_renderable_at(i64::MIN));
    assert!(urlguard::clock::date_renderable_at((urlguard::clock::LAST_SECOND - 3600) * 1000));
    assert!(!urlguard::clock::date_renderable_at((urlguard::clock::LAST_SECOND - 3599) * 1000));
}

#[test]
fn dates_at_the_ends_of_the_range_render() {
    let last = format_date((urlguard::clock::LAST_SECOND - 3600) * 1000);
    assert!(last.ends_with("262142-12-31 23:59:59"));
    let first = format_date((urlguard::clock::FIRST_SECOND - 3600) * 1000);
    assert!(first.ends_with("262143-01-01 00:00:00"));
}

#[test]
fn unreadable_report_finishes_without_verdict() {
    let mut safe = open_safe("unreadable_report");
    safe.sled.allow("https://ur.example").unwrap();
    let pending = match safe.begin_check("https://ur.example").unwrap() {
        SafetyCheck::Pending(p) => p,
        SafetyCheck::Decided(_) => panic!("nothing cached yet"),
    };
    assert_eq!(safe.try_finish_check(pending, Ok(String::from("0123456[null]!"))).unwrap(), None);
    assert_eq!(safe.safebrowsing.cached("https://ur.example"), None);
}

#[test]
fn deny_at_seconds_stores_milliseconds() {
    let mut sled = open_sled("deny_at_seconds");
    sled.deny_at_seconds("https://sec.example", 1_600_000_000).unwrap();
    assert_eq!(sled.get_time("https://sec.example").unwrap(), 1_600_000_000_000);
    assert_eq!(sled.is_safe("https://sec.example").unwrap(), (false, 1_600_000_000_000));
}
