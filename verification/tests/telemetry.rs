use voip_common::telemetry::metric_prefix;
use voip_common::telemetry::Headers;
use voip_common::telemetry::MetricNames;
use voip_common::telemetry::TraceContext;
use voip_common::text::join;
use voip_common::text::decimal_string;
use voip_common::text::digit_of;
use voip_common::text::parse_u8;
use voip_common::text::push_decimal;
use voip_common::text::replace_char;

#[test]
fn test_trace_context() {
    let mut headers = Headers::new();
    headers.insert("x-trace-id".to_string(), "12345678901234567890123456789012".to_string());
    headers.insert("x-span-id".to_string(), "1234567890123456".to_string());
    headers.insert("x-trace-flags".to_string(), "1".to_string());

    let context = TraceContext::from_headers(&headers).unwrap();
    assert_eq!(context.trace_id(), "12345678901234567890123456789012");
    assert_eq!(context.span_id(), "1234567890123456");

    let headers2 = context.to_headers();
    assert_eq!(headers2.get("x-trace-id").unwrap(), "12345678901234567890123456789012");
}

fn headers_with(flags: Option<&str>) -> Headers {
    let mut headers = Headers::new();
    headers.insert("x-trace-id".to_string(), "t".to_string());
    headers.insert("x-span-id".to_string(), "s".to_string());
    if let Some(f) = flags {
        headers.insert("x-trace-flags".to_string(), f.to_string());
    }
    headers
}

#[test]
fn trace_flags_default_to_zero() {
    assert_eq!(TraceContext::from_headers(&headers_with(None)).unwrap().trace_flags(), 0);
    for bad in ["", "x", "256", "-1", " 1", "1 ", "0x1", "1_0", "+", "-", "99999999999999999999"] {
        let context = TraceContext::from_headers(&headers_with(Some(bad))).unwrap();
        assert_eq!(context.trace_flags(), 0);
    }
}

#[test]
fn trace_flags_are_read_as_decimal() {
    for (text, flags) in [("0", 0u8), ("1", 1), ("255", 255), ("+7", 7), ("007", 7), ("0000000255", 255)] {
        let context = TraceContext::from_headers(&headers_with(Some(text))).unwrap();
        assert_eq!(context.trace_flags(), flags);
    }
}

#[test]
fn trace_context_needs_both_ids() {
    let mut only_trace = Headers::new();
    only_trace.insert("x-trace-id".to_string(), "t".to_string());
    assert!(TraceContext::from_headers(&only_trace).is_none());
    let mut only_span = Headers::new();
    only_span.insert("x-span-id".to_string(), "s".to_string());
    only_span.insert("x-trace-flags".to_string(), "1".to_string());
    assert!(TraceContext::from_headers(&only_span).is_none());
    assert!(TraceContext::from_headers(&Headers::new()).is_none());
}

#[test]
fn trace_context_round_trip_through_headers() {
    for flags in [0u8, 1, 9, 10, 99, 100, 255] {
        let context =
            TraceContext::from_headers(&headers_with(Some(&flags.to_string()))).unwrap();
        let headers = context.to_headers();
        assert_eq!(headers.get("x-trace-flags").unwrap(), &flags.to_string());
        assert_eq!(headers.get("x-span-id").unwrap(), "s");
        let back = TraceContext::from_headers(&headers).unwrap();
        assert_eq!(back.trace_id(), context.trace_id());
        assert_eq!(back.span_id(), context.span_id());
        assert_eq!(back.trace_flags(), flags);
    }
}

#[test]
fn current_context_is_all_zero() {
    let context = TraceContext::current();
    assert_eq!(context.trace_id(), "00000000000000000000000000000000");
    assert_eq!(context.span_id(), "0000000000000000");
    assert_eq!(context.trace_flags(), 0);
    let headers = context.to_headers();
    assert_eq!(headers.get("x-trace-flags").unwrap(), "0");
}

#[test]
fn headers_hold_one_value_for_each_name() {
    let mut headers = Headers::new();
    assert!(!headers.contains_key("a"));
    assert_eq!(headers.get("a"), None);
    headers.insert("a".to_string(), "1".to_string());
    headers.insert("a".to_string(), "2".to_string());
    assert!(headers.contains_key("a"));
    assert_eq!(headers.get("a").unwrap(), "2");
    assert_eq!(headers.get("A"), None);
}

#[test]
fn metric_names_carry_the_service_prefix() {
    assert_eq!(metric_prefix("media-relay"), "media_relay_");
    assert_eq!(metric_prefix("a--b-"), "a__b__");
    assert_eq!(metric_prefix(""), "_");
    let names = MetricNames::new("signalling-service");
    assert_eq!(names.requests_total, "signalling_service_requests_total");
    assert_eq!(names.requests_duration, "signalling_service_request_duration_seconds");
    assert_eq!(names.requests_in_flight, "signalling_service_requests_in_flight");
    assert_eq!(names.errors_total, "signalling_service_errors_total");
}

#[test]
fn decimal_text() {
    assert_eq!(decimal_string(0), "0");
    assert_eq!(decimal_string(9), "9");
    assert_eq!(decimal_string(10), "10");
    assert_eq!(decimal_string(1234567890), "1234567890");
    assert_eq!(decimal_string(u64::MAX), "18446744073709551615");
    let mut out = String::from("n=");
    push_decimal(&mut out, 42);
    assert_eq!(out, "n=42");
    for d in 0..10u64 {
        assert_eq!(decimal_string(d), d.to_string());
    }
}

#[test]
fn parse_u8_follows_the_standard_reading() {
    let texts = ["", "0", "+0", "-0", "12", "255", "256", "+255", "++1", "1+", "a", "٣", "0255", "1000"];
    for text in texts {
        assert_eq!(parse_u8(text), text.parse::<u8>().ok());
    }
    for n in 0..=255u8 {
        assert_eq!(parse_u8(&decimal_string(n as u64)), Some(n));
    }
}

#[test]
fn digits_and_replacement() {
    assert_eq!(digit_of('0'), Some(0));
    assert_eq!(digit_of('9'), Some(9));
    assert_eq!(digit_of('a'), None);
    assert_eq!(digit_of('+'), None);
    assert_eq!(join("ab", "cd"), "abcd");
    assert_eq!(join("", ""), "");
    assert_eq!(replace_char("a-b-c", '-', "_"), "a_b_c");
    assert_eq!(replace_char("é-ü", '-', "+"), "é+ü");
    assert_eq!(replace_char("", '-', "_"), "");
}
