use harf::pass::plan_pass;
use harf::probe::{classify, u16_string, ProbeOutcome, ProbeResponse};
use harf::remedy::{plan_remediation, record_results, ActionStatus, RemediationAction};
use harf::report::report_lines;
use harf::site::SiteDescriptor;

fn site(name: &str, url: &str, unit: Option<&str>, cmd: Option<&str>) -> SiteDescriptor {
    SiteDescriptor {
        name: name.to_owned(),
        url: url.to_owned(),
        unit: unit.map(|s| s.to_owned()),
        cmd: cmd.map(|s| s.to_owned()),
    }
}

#[test]
fn status_200_is_healthy() {
    let o = classify(site("a", "http://a.example/", None, None), ProbeResponse::Status(200));
    assert!(o.healthy);
    assert_eq!(o.detail, "200");
    assert_eq!(o.site.name, "a");
}

#[test]
fn other_statuses_are_unhealthy() {
    for code in [404u16, 500, 301, 201, 199] {
        let o = classify(site("a", "http://a.example/", None, None), ProbeResponse::Status(code));
        assert!(!o.healthy);
        assert_eq!(o.detail, code.to_string());
    }
}

#[test]
fn transport_error_is_unhealthy_with_detail() {
    let o = classify(
        site("a", "http://a.example/", None, None),
        ProbeResponse::TransportError("connection refused".to_owned()),
    );
    assert!(!o.healthy);
    assert_eq!(o.detail, "connection refused");
}

#[test]
fn decimal_rendering_is_exact() {
    assert_eq!(u16_string(0), "0");
    assert_eq!(u16_string(7), "7");
    assert_eq!(u16_string(200), "200");
    assert_eq!(u16_string(1000), "1000");
    assert_eq!(u16_string(65535), "65535");
}

#[test]
fn plan_orders_unit_before_command() {
    let plan = plan_remediation(&site("a", "http://a.example/", Some("svc"), Some("run me")));
    assert_eq!(plan.len(), 2);
    assert!(matches!(plan[0], RemediationAction::UnitRestart(ref u) if u == "svc"));
    assert!(matches!(plan[1], RemediationAction::Command(ref c) if c == "run me"));
}

#[test]
fn plan_with_no_actions_is_empty() {
    let plan = plan_remediation(&site("a", "http://a.example/", None, None));
    assert_eq!(plan.len(), 0);
}

#[test]
fn plan_with_only_command() {
    let plan = plan_remediation(&site("a", "http://a.example/", None, Some("c")));
    assert_eq!(plan.len(), 1);
    assert!(matches!(plan[0], RemediationAction::Command(ref c) if c == "c"));
}

#[test]
fn both_actions_recorded_even_if_unit_restart_fails() {
    let plan = plan_remediation(&site("a", "http://a.example/", Some("svc"), Some("cmd")));
    let statuses = vec![
        ActionStatus::Failure("unit exploded".to_owned()),
        ActionStatus::Success,
    ];
    let rs = record_results(&plan, &statuses);
    assert_eq!(rs.len(), 2);
    assert!(matches!(rs[0].action, RemediationAction::UnitRestart(ref u) if u == "svc"));
    assert!(!rs[0].succeeded);
    assert_eq!(rs[0].error_detail.as_deref(), Some("unit exploded"));
    assert!(matches!(rs[1].action, RemediationAction::Command(ref c) if c == "cmd"));
    assert!(rs[1].succeeded);
    assert!(rs[1].error_detail.is_none());
}

#[test]
fn unparseable_url_is_skipped_with_warning() {
    let sites = vec![
        site("good", "http://ok.example/", None, None),
        site("bad", "not a url", None, None),
    ];
    let plan = plan_pass(sites);
    assert_eq!(plan.probes.len(), 1);
    assert_eq!(plan.probes[0].name, "good");
    assert_eq!(plan.skipped.len(), 1);
    assert_eq!(plan.skipped[0].name, "bad");
    assert_eq!(plan.skipped[0].url, "not a url");
    assert!(!plan.skipped[0].detail.is_empty());
}

#[test]
fn all_parseable_urls_are_probed_in_order() {
    let sites = vec![
        site("a", "http://a.example/", None, None),
        site("b", "https://b.example/x?y=1", Some("u"), None),
        site("c", "http://c.example:8080/", None, Some("c")),
    ];
    let plan = plan_pass(sites);
    assert_eq!(plan.probes.len(), 3);
    assert_eq!(plan.skipped.len(), 0);
    assert_eq!(plan.probes[0].name, "a");
    assert_eq!(plan.probes[1].name, "b");
    assert_eq!(plan.probes[2].name, "c");
}

#[test]
fn zero_sites_give_zero_entries() {
    let plan = plan_pass(Vec::new());
    assert_eq!(plan.probes.len(), 0);
    assert_eq!(plan.skipped.len(), 0);
}

#[test]
fn healthy_report_is_one_ok_line() {
    let o = classify(site("mysite", "http://a.example/", None, None), ProbeResponse::Status(200));
    let lines = report_lines(&o, &Vec::new());
    assert_eq!(lines, vec!["[OK]     mysite".to_owned()]);
}

#[test]
fn unhealthy_report_lists_detail_actions_and_separator() {
    let o = classify(
        site("mysite", "http://a.example/", Some("svc"), Some("do thing")),
        ProbeResponse::Status(503),
    );
    assert!(!o.healthy);
    let plan = plan_remediation(&o.site);
    let statuses = vec![
        ActionStatus::Failure("spawn failed".to_owned()),
        ActionStatus::Success,
    ];
    let rs = record_results(&plan, &statuses);
    let lines = report_lines(&o, &rs);
    assert_eq!(
        lines,
        vec![
            "[NOT OK] mysite".to_owned(),
            "\t |503".to_owned(),
            "\t |Restarting unit 'svc': failed: spawn failed".to_owned(),
            "\t |Running command 'do thing': ok".to_owned(),
            "\t +------------\n".to_owned(),
        ]
    );
}

#[test]
fn transport_failure_report_block() {
    let o = classify(
        site("down", "http://down.example/", None, Some("wake")),
        ProbeResponse::TransportError("connection refused".to_owned()),
    );
    let plan = plan_remediation(&o.site);
    let statuses = vec![ActionStatus::Success];
    let rs = record_results(&plan, &statuses);
    let lines = report_lines(&o, &rs);
    assert_eq!(
        lines,
        vec![
            "[NOT OK] down".to_owned(),
            "\t |connection refused".to_owned(),
            "\t |Running command 'wake': ok".to_owned(),
            "\t +------------\n".to_owned(),
        ]
    );
}

#[test]
fn outcome_owns_its_site() {
    let o: ProbeOutcome = classify(
        site("n", "http://n.example/", Some("u"), Some("c")),
        ProbeResponse::Status(500),
    );
    assert_eq!(o.site.url, "http://n.example/");
    assert_eq!(o.site.unit.as_deref(), Some("u"));
    assert_eq!(o.site.cmd.as_deref(), Some("c"));
}
