use ddns_updater::address::clean_address;
use ddns_updater::config::Config;
use ddns_updater::config::ConfigError;
use ddns_updater::payload::build_payload;
use ddns_updater::payload::comment_text;
use ddns_updater::plan::plan_update;
use ddns_updater::plan::PlanError;
use ddns_updater::request::bearer_token;
use ddns_updater::request::echo_request;
use ddns_updater::request::record_url;

fn some(s: &str) -> Option<String> {
    Some(s.to_string())
}

#[test]
fn clean_address_strips_whitespace_and_newlines() {
    assert_eq!(clean_address("  2001:db8::1\n"), "2001:db8::1");
}

#[test]
fn clean_address_removes_embedded_newlines() {
    assert_eq!(clean_address("20\n01:db8::1\n \n"), "2001:db8::1");
}

#[test]
fn clean_address_keeps_plain_text() {
    assert_eq!(clean_address("203.0.113.5"), "203.0.113.5");
    assert_eq!(clean_address(""), "");
    assert_eq!(clean_address(" \t\r\n"), "");
}

#[test]
fn clean_address_handles_unicode_whitespace() {
    assert_eq!(clean_address("\u{3000}2001:db8::1\u{2028}"), "2001:db8::1");
    // A non-breaking space inside the text is not a newline and stays.
    assert_eq!(clean_address(" a\u{a0}b "), "a\u{a0}b");
}

#[test]
fn config_complete_when_all_present() {
    let c = Config::from_values(some("tok"), some("zone"), some("rec"), some("dom"));
    match c {
        Ok(c) => {
            assert_eq!(c.token, "tok");
            assert_eq!(c.zone_id, "zone");
            assert_eq!(c.record_id, "rec");
            assert_eq!(c.domain, "dom");
        }
        Err(_) => panic!("complete configuration was rejected"),
    }
}

#[test]
fn config_reports_each_missing_value() {
    let e = Config::from_values(None, some("z"), some("r"), some("d"));
    assert!(matches!(e, Err(ConfigError::MissingToken)));
    let e = Config::from_values(some("t"), None, some("r"), some("d"));
    assert!(matches!(e, Err(ConfigError::MissingZoneId)));
    let e = Config::from_values(some("t"), some("z"), None, some("d"));
    assert!(matches!(e, Err(ConfigError::MissingRecordId)));
    let e = Config::from_values(some("t"), some("z"), some("r"), None);
    assert!(matches!(e, Err(ConfigError::MissingDomain)));
}

#[test]
fn config_reports_first_missing_value() {
    let e = Config::from_values(None, some("z"), None, None);
    assert!(matches!(e, Err(ConfigError::MissingToken)));
}

#[test]
fn config_error_names_its_variable() {
    assert_eq!(ConfigError::MissingToken.variable_name(), "CFTOKEN");
    assert_eq!(ConfigError::MissingZoneId.variable_name(), "ZONE_ID");
    assert_eq!(ConfigError::MissingRecordId.variable_name(), "DNS_RECORD_ID");
    assert_eq!(ConfigError::MissingDomain.variable_name(), "DOMAIN");
}

#[test]
fn bearer_token_keeps_token_verbatim() {
    assert_eq!(bearer_token("tok123"), "Bearer tok123");
    // No trimming or transformation of the token value.
    assert_eq!(bearer_token(" tok "), "Bearer  tok ");
    assert_eq!(bearer_token(""), "Bearer ");
}

#[test]
fn echo_request_is_fixed() {
    let echo = echo_request();
    assert_eq!(echo.url, "https://ip.se/");
    assert_eq!(echo.user_agent, "curl/8.7.1");
}

#[test]
fn record_url_addresses_zone_and_record() {
    assert_eq!(
        record_url("zoneA", "recB"),
        "https://api.cloudflare.com/client/v4/zones/zoneA/dns_records/recB"
    );
}

#[test]
fn comment_embeds_address() {
    assert_eq!(comment_text("203.0.113.5"), "Api called from 203.0.113.5");
}

#[test]
fn payload_is_the_exact_json_object() {
    assert_eq!(
        build_payload("home.example.com", "203.0.113.5"),
        "{\"name\":\"home.example.com\",\"ttl\":3600,\"type\":\"AAAA\",\"comment\":\"Api called from 203.0.113.5\",\"content\":\"203.0.113.5\",\"proxied\":false}"
    );
}

#[test]
fn payload_escapes_json_metacharacters() {
    assert_eq!(
        build_payload("a\"b\\c", "x"),
        "{\"name\":\"a\\\"b\\\\c\",\"ttl\":3600,\"type\":\"AAAA\",\"comment\":\"Api called from x\",\"content\":\"x\",\"proxied\":false}"
    );
}

#[test]
fn no_update_when_fetch_failed() {
    let r = plan_update(None, some("t"), some("z"), some("r"), some("d"));
    match r {
        Err(e) => assert_eq!(e, PlanError::FetchFailed),
        Ok(_) => panic!("an update was planned although the fetch failed"),
    }
}

#[test]
fn no_update_when_configuration_incomplete() {
    let r = plan_update(some("203.0.113.5"), None, some("z"), some("r"), some("d"));
    match r {
        Err(e) => assert_eq!(e, PlanError::MissingConfig(ConfigError::MissingToken)),
        Ok(_) => panic!("an update was planned without a token"),
    }
    let r = plan_update(some("203.0.113.5"), some("t"), some("z"), some("r"), None);
    match r {
        Err(e) => assert_eq!(e, PlanError::MissingConfig(ConfigError::MissingDomain)),
        Ok(_) => panic!("an update was planned without a domain"),
    }
}

#[test]
fn planned_update_end_to_end() {
    let r = plan_update(
        some("203.0.113.5\n"),
        some("tok123"),
        some("zoneA"),
        some("recB"),
        some("home.example.com"),
    );
    match r {
        Ok(req) => {
            assert_eq!(
                req.url,
                "https://api.cloudflare.com/client/v4/zones/zoneA/dns_records/recB"
            );
            assert_eq!(req.authorization, "Bearer tok123");
            assert_eq!(req.content_type, "application/json");
            assert_eq!(
                req.body,
                "{\"name\":\"home.example.com\",\"ttl\":3600,\"type\":\"AAAA\",\"comment\":\"Api called from 203.0.113.5\",\"content\":\"203.0.113.5\",\"proxied\":false}"
            );
        }
        Err(_) => panic!("a complete run was rejected"),
    }
}
