use ferox_heuristics::filters::WildcardFilter;
use ferox_heuristics::heuristics::{
    evaluate_response, first_probe_units, is_redirect_status, redirect_target, relate_lengths,
    select_reachable, should_announce, status_in_set, unique_string, wildcard_after_first,
    wildcard_after_second, ConnectivityError, LengthRelation, ProbeResult, WildcardStep,
};

fn probe(status: u16, content_length: u64, location: Option<&str>) -> ProbeResult {
    ProbeResult {
        status,
        content_length,
        url: String::from("https://target.example/abc123"),
        location: location.map(String::from),
    }
}

#[test]
/// every character of a generated token is a lowercase hexadecimal digit
fn unique_string_is_lowercase_hex() {
    let token = unique_string(2);
    assert_eq!(token.len(), 64);
    for c in token.chars() {
        assert!(c.is_ascii_hexdigit() && !c.is_ascii_uppercase());
    }
}

#[test]
/// filtering disabled means no probe at all; enabled means one token unit first
fn first_probe_units_honors_dont_filter() {
    assert_eq!(first_probe_units(true), None);
    assert_eq!(first_probe_units(false), Some(1));
}

#[test]
/// a first probe that observed nothing ends the classification with no filter
fn classify_nothing_on_absent_first_probe() {
    match wildcard_after_first(None) {
        WildcardStep::Finished(f) => assert_eq!(f, None),
        WildcardStep::SecondProbe { .. } => panic!("no second probe is owed"),
    }
}

#[test]
/// a zero-length wildcard body yields the inert filter at once, second probe spared
fn classify_zero_length_short_circuits() {
    let first = probe(200, 0, None);
    match wildcard_after_first(Some(&first)) {
        WildcardStep::Finished(f) => {
            assert_eq!(f, Some(WildcardFilter { size: 0, dynamic: 0 }))
        }
        WildcardStep::SecondProbe { .. } => panic!("no second probe is owed"),
    }
}

#[test]
/// a nonzero first body calls for the differential second probe of three units
fn classify_nonzero_length_requests_second_probe() {
    let first = probe(200, 4096, None);
    match wildcard_after_first(Some(&first)) {
        WildcardStep::Finished(_) => panic!("a second probe is owed"),
        WildcardStep::SecondProbe { units, first_length } => {
            assert_eq!(units, 3);
            assert_eq!(first_length, 4096);
        }
    }
}

#[test]
/// the three pairwise length relationships come out exactly
fn relate_lengths_cases() {
    assert_eq!(relate_lengths(100, 164), LengthRelation::Reflected);
    assert_eq!(relate_lengths(100, 100), LengthRelation::Constant);
    assert_eq!(relate_lengths(100, 150), LengthRelation::Unrelated);
    assert_eq!(relate_lengths(0, 64), LengthRelation::Reflected);
    assert_eq!(relate_lengths(u64::MAX, u64::MAX), LengthRelation::Constant);
}

#[test]
/// second length = first + 64 pins the dynamic offset first_length - path_length
fn classify_reflected_sets_dynamic_offset() {
    let filter = wildcard_after_second(500, 33, Some(564));
    assert_eq!(filter, WildcardFilter { size: 0, dynamic: 467 });
}

#[test]
/// equal lengths pin the static size at the first probe's length
fn classify_constant_sets_static_size() {
    let filter = wildcard_after_second(500, 33, Some(500));
    assert_eq!(filter, WildcardFilter { size: 500, dynamic: 0 });
}

#[test]
/// an unrelated pair still yields a present filter, with both fields inert
fn classify_unrelated_yields_inert_filter() {
    let filter = wildcard_after_second(500, 33, Some(123));
    assert_eq!(filter, WildcardFilter { size: 0, dynamic: 0 });
}

#[test]
/// a missing second observation yields the inert filter, still present
fn classify_missing_second_probe_yields_inert_filter() {
    let filter = wildcard_after_second(500, 33, None);
    assert_eq!(filter, WildcardFilter { size: 0, dynamic: 0 });
}

#[test]
/// only a status in the interesting set makes a probe observation
fn evaluate_response_keeps_interesting_status_only() {
    let codes: Vec<u16> = vec![200, 204, 301, 302, 307, 308, 401, 403, 405];

    let kept = evaluate_response(
        200,
        1234,
        String::from("https://target.example/x"),
        None,
        &codes,
    );
    let p = kept.expect("an interesting status is an observation");
    assert_eq!(p.status, 200);
    assert_eq!(p.content_length, 1234);
    assert_eq!(p.url, "https://target.example/x");
    assert_eq!(p.location, None);

    let dropped = evaluate_response(
        404,
        1234,
        String::from("https://target.example/x"),
        None,
        &codes,
    );
    assert!(dropped.is_none());
}

#[test]
/// membership in the interesting status-code set, present and absent
fn status_in_set_finds_members() {
    let codes: Vec<u16> = vec![200, 301, 403];
    assert!(status_in_set(301, &codes));
    assert!(!status_in_set(404, &codes));
    assert!(!status_in_set(200, &Vec::new()));
}

#[test]
/// the redirection class is exactly the 3xx codes
fn redirect_status_bounds() {
    assert!(!is_redirect_status(299));
    assert!(is_redirect_status(300));
    assert!(is_redirect_status(399));
    assert!(!is_redirect_status(400));
}

#[test]
/// a redirect target is reported only for a 3xx response that named one
fn redirect_target_cases() {
    let redirected = probe(301, 10, Some("https://next.example/"));
    assert_eq!(
        redirect_target(&redirected).map(String::as_str),
        Some("https://next.example/")
    );

    let no_header = probe(301, 10, None);
    assert_eq!(redirect_target(&no_header), None);

    let not_redirect = probe(200, 10, Some("https://next.example/"));
    assert_eq!(redirect_target(&not_redirect), None);
}

#[test]
/// advisories go out only outside quiet mode and past the suppression predicate
fn should_announce_cases() {
    assert!(should_announce(false, false));
    assert!(!should_announce(true, false));
    assert!(!should_announce(false, true));
    assert!(!should_announce(true, true));
}

#[test]
/// only the reachable target survives the preflight, unchanged and in order
fn select_reachable_keeps_good_target() {
    let targets = vec![
        String::from("https://good.example"),
        String::from("https://dead.example"),
    ];
    let alive = vec![true, false];
    let good = select_reachable(&targets, &alive).expect("one target is reachable");
    assert_eq!(good, vec![String::from("https://good.example")]);
}

#[test]
/// order and multiplicity of reachable targets are preserved
fn select_reachable_preserves_order() {
    let targets = vec![
        String::from("https://one.example"),
        String::from("https://two.example"),
        String::from("https://three.example"),
    ];
    let alive = vec![true, false, true];
    let good = select_reachable(&targets, &alive).expect("two targets are reachable");
    assert_eq!(
        good,
        vec![
            String::from("https://one.example"),
            String::from("https://three.example"),
        ]
    );
}

#[test]
/// all targets unreachable is the fatal outcome, not a normal return
fn select_reachable_all_dead_is_fatal() {
    let targets = vec![
        String::from("https://dead.example"),
        String::from("https://deader.example"),
    ];
    let alive = vec![false, false];
    assert_eq!(
        select_reachable(&targets, &alive),
        Err(ConnectivityError::AllUnreachable)
    );
}

#[test]
/// an empty target list is likewise fatal
fn select_reachable_empty_is_fatal() {
    let targets: Vec<String> = Vec::new();
    let alive: Vec<bool> = Vec::new();
    assert_eq!(
        select_reachable(&targets, &alive),
        Err(ConnectivityError::AllUnreachable)
    );
}
