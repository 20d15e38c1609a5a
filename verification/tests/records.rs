use rhizome::screen::{status_color, Tone};
use rhizome::config::{default_borders, default_density, default_signature, default_true, BorderStyle, Config, Density, SignatureWidget};
use rhizome::dates::DayInfo;
use rhizome::models::{
    default_active, default_budget_kind, default_currency, message_hours_text, project_statuses, ActivityEntry, Client, ContactMoment,
    Milestone, Project, ProjectStatus, Stats,
};
use rhizome::store::{
    broken_display_name, broken_project, compute_stats, counts_this_week, find_client_name, order_activity, order_clients,
    order_contacts, prepare_projects, repair_status_text, week_entries, week_entries_today,
};

fn client(id: &str, name: &str) -> Client {
    Client {
        id: id.to_string(),
        name: name.to_string(),
        domain: None,
        city: None,
        country: None,
        primary_contact: None,
        primary_role: None,
        currency: "EUR".to_string(),
        default_rate_cents: None,
        status: "active".to_string(),
        acct_code: None,
        created_at: "2024-01-01T00:00:00Z".to_string(),
        updated_at: "2024-01-01T00:00:00Z".to_string(),
    }
}

fn project(id: &str, client_id: &str, name: &str, status: ProjectStatus) -> Project {
    Project {
        id: id.to_string(),
        client_id: client_id.to_string(),
        name: name.to_string(),
        summary: None,
        status,
        budget_hours_bits: None,
        budget_kind: "total".to_string(),
        spent_hours_bits: 0,
        rate_cents: None,
        deadline: None,
        owner: None,
        repo_url: None,
        created_at: "2024-01-01T00:00:00Z".to_string(),
        updated_at: "2024-01-01T00:00:00Z".to_string(),
        milestones: Vec::new(),
        pulse: Vec::new(),
        client_name: None,
    }
}

fn entry(id: &str, at: &str, hours: Option<f64>) -> ActivityEntry {
    ActivityEntry {
        id: id.to_string(),
        client_id: None,
        project_id: Some("p1".to_string()),
        kind: "hours".to_string(),
        message: "+1 h · x".to_string(),
        at: at.to_string(),
        hours_bits: hours.map(f64::to_bits),
    }
}

fn contact(id: &str, date: &str) -> ContactMoment {
    ContactMoment {
        id: id.to_string(),
        client_id: "c1".to_string(),
        kind: "email".to_string(),
        summary: "s".to_string(),
        date: date.to_string(),
        created_at: "x".to_string(),
    }
}

#[test]
fn status_names_round_trip() {
    for s in project_statuses() {
        assert_eq!(ProjectStatus::from_name(s.as_str()), s);
        assert_eq!(ProjectStatus::from(s.as_str()), s);
    }
    assert_eq!(ProjectStatus::Running.as_str(), "running");
    assert_eq!(ProjectStatus::from_name("nonsense"), ProjectStatus::Pending);
    assert_eq!(ProjectStatus::default(), ProjectStatus::Pending);
    assert_eq!(project_statuses().len(), 6);
}

#[test]
fn defaults_of_records() {
    assert_eq!(default_currency(), "EUR");
    assert_eq!(default_active(), "active");
    assert_eq!(default_budget_kind(), "total");
    assert_eq!(default_borders(), BorderStyle::Thin);
    assert_eq!(default_density(), Density::Spacious);
    assert_eq!(default_signature(), SignatureWidget::Graph);
    assert!(default_true());
    let c = Config::default();
    assert_eq!(c.borders, BorderStyle::Thin);
    assert!(c.animations);
}

#[test]
fn client_location_and_rate() {
    let mut c = client("c1", "A");
    assert_eq!(c.location_str(), "");
    c.city = Some("Oslo".to_string());
    assert_eq!(c.location_str(), "Oslo");
    c.country = Some("NO".to_string());
    assert_eq!(c.location_str(), "Oslo · NO");
    c.city = None;
    assert_eq!(c.location_str(), "NO");
    assert_eq!(c.rate_display(), "");
    c.default_rate_cents = Some(12599);
    assert_eq!(c.rate_display(), "€ 125 / h");
    c.default_rate_cents = Some(-250);
    assert_eq!(c.rate_display(), "€ -2 / h");
}

#[test]
fn milestone_symbols() {
    let mut m = Milestone { id: "m".to_string(), title: "t".to_string(), done_at: None, due_at: None, ord: 0 };
    assert!(!m.is_done());
    assert_eq!(m.symbol(), "·");
    assert_eq!(m.due_display(), "");
    m.done_at = Some("2024-01-01".to_string());
    m.due_at = Some("2024-02-01".to_string());
    assert!(m.is_done());
    assert_eq!(m.symbol(), "✓");
    assert_eq!(m.due_display(), "2024-02-01");
}

#[test]
fn project_rate_sparkline_deadline() {
    let mut p = project("p1", "c1", "X", ProjectStatus::Active);
    assert_eq!(p.rate_display(), "");
    p.rate_cents = Some(9000);
    assert_eq!(p.rate_display(), "€ 90 / h");
    assert_eq!(p.sparkline_str(), "        ");
    p.pulse = vec![0, 1, 4, 8, 9, 200];
    assert_eq!(p.sparkline_str(), " ▁▄███  ");
    assert_eq!(p.deadline_display_on(739012), "");
    p.deadline = Some("2024-05-16".to_string());
    assert_eq!(p.deadline_display_on(739012), "2024-05-16 · 10d");
    assert_eq!(p.deadline_display_on(739022), "2024-05-16 · 0d");
    assert_eq!(p.deadline_display_on(739030), "2024-05-16 · 8d ago");
    p.deadline = Some("soon".to_string());
    assert_eq!(p.deadline_display_on(739012), "soon");
    assert_eq!(p.deadline_display(), "soon");
}

#[test]
fn activity_and_contact_symbols() {
    let mut e = entry("a", "2024-05-06T11:30:00Z", None);
    assert_eq!(e.symbol(), "·");
    e.kind = "deploy".to_string();
    assert_eq!(e.symbol(), "✓");
    e.kind = "invoice".to_string();
    assert_eq!(e.symbol(), "✓");
    e.kind = "warn".to_string();
    assert_eq!(e.symbol(), "!");
    e.kind = "call".to_string();
    assert_eq!(e.symbol(), "→");
    assert_eq!(e.at_short(), "2024-05-06T11:30");
    e.at = "short".to_string();
    assert_eq!(e.at_short(), "short");
    let mut c = contact("m", "2024-01-01");
    assert_eq!(c.kind_symbol(), "✉");
    c.kind = "phone".to_string();
    assert_eq!(c.kind_symbol(), "☎");
    c.kind = "meeting".to_string();
    assert_eq!(c.kind_symbol(), "◈");
}

#[test]
fn stores_order_records() {
    let cs = order_clients(vec![client("2", "b"), client("1", "a"), client("3", "B")]);
    let names: Vec<&str> = cs.iter().map(|c| c.name.as_str()).collect();
    assert_eq!(names, vec!["B", "a", "b"]);
    let ms = order_contacts(vec![contact("1", "2024-01-01"), contact("2", "2024-03-01"), contact("3", "2024-02-01")]);
    let ids: Vec<&str> = ms.iter().map(|c| c.id.as_str()).collect();
    assert_eq!(ids, vec!["2", "3", "1"]);
    let es = order_activity(vec![entry("1", "2024-01-01", None), entry("2", "2024-03-01", None), entry("3", "2024-03-01", None)]);
    let ids: Vec<&str> = es.iter().map(|e| e.id.as_str()).collect();
    assert_eq!(ids, vec!["2", "3", "1"]);
}

#[test]
fn projects_get_client_names_and_order() {
    let clients = vec![client("c1", "North"), client("c2", "Zilt")];
    assert_eq!(find_client_name(&clients, "c2"), Some("Zilt".to_string()));
    assert_eq!(find_client_name(&clients, "zz"), None);
    let ps = prepare_projects(
        vec![
            project("p1", "c2", "ember", ProjectStatus::Active),
            project("p2", "c1", "atlas", ProjectStatus::Active),
            project("p3", "cx", "bloom", ProjectStatus::Lead),
        ],
        &clients,
    );
    let got: Vec<(&str, Option<&str>)> = ps.iter().map(|p| (p.name.as_str(), p.client_name.as_deref())).collect();
    assert_eq!(got, vec![("atlas", Some("North")), ("bloom", None), ("ember", Some("Zilt"))]);
}

#[test]
fn stats_count_active_and_attention() {
    let clients = vec![client("c1", "A"), client("c2", "B")];
    let projects = vec![
        project("p1", "c1", "a", ProjectStatus::Active),
        project("p2", "c1", "b", ProjectStatus::Running),
        project("p3", "c2", "c", ProjectStatus::Blocked),
        project("p4", "c2", "d", ProjectStatus::Archived),
    ];
    let s: Stats = compute_stats(&clients, &projects, &vec![false, true, false, true]);
    assert_eq!(s.total_clients, 2);
    assert_eq!(s.total_projects, 4);
    assert_eq!(s.active_projects, 2);
    assert_eq!(s.attention_count, 3);
    assert_eq!(s.clients_this_quarter, 0);
}

#[test]
fn hours_of_this_week() {
    let today = DayInfo { day: 739012, year: 2024, iso_year: 2024, iso_week: 19 };
    let es = vec![
        entry("a", "2024-05-06T10:00:00Z", Some(2.0)),
        entry("b", "2024-05-01T10:00:00Z", Some(1.0)),
        entry("c", "2024-05-12T10:00:00Z", Some(3.0)),
        entry("d", "2024-05-07T10:00:00Z", None),
        entry("e", "garbage!!!", Some(1.0)),
    ];
    assert!(counts_this_week(&es[0], today));
    assert!(!counts_this_week(&es[1], today));
    assert_eq!(week_entries(&es, today), vec![0, 2]);
}

#[test]
fn broken_names_and_repair() {
    assert_eq!(broken_display_name(String::new()), "unknown");
    assert_eq!(broken_display_name("x".to_string()), "x");
    let raw = "id = \"p1\"\n  status = \"wip\"\nname = \"n\"\r\nstatuses = 1\n";
    assert_eq!(
        repair_status_text(raw, ProjectStatus::Active),
        "id = \"p1\"\nstatus = \"active\"\nname = \"n\"\nstatus = \"active\""
    );
    assert_eq!(repair_status_text("", ProjectStatus::Lead), "");
}

#[test]
fn colours_follow_status_and_kind() {
    assert_eq!(ProjectStatus::Running.color(), Tone::Blue);
    assert_eq!(ProjectStatus::Active.color(), Tone::Green);
    assert_eq!(ProjectStatus::Blocked.color(), Tone::Amber);
    assert_eq!(ProjectStatus::Lead.color(), Tone::Subtle);
    assert_eq!(status_color("error"), Tone::Red);
    assert_eq!(status_color("warn"), Tone::Amber);
    assert_eq!(status_color("idle"), Tone::Subtle);
    assert_eq!(status_color("paused"), Tone::Text);
    let mut c = client("c", "n");
    assert_eq!(c.health_color(), Tone::Green);
    c.status = "weird".to_string();
    assert_eq!(c.health_color(), Tone::Text);
    assert_eq!(project("p", "c", "n", ProjectStatus::Archived).status_color(), Tone::Subtle);
    let mut m = Milestone { id: "m".to_string(), title: "t".to_string(), done_at: None, due_at: None, ord: 0 };
    assert_eq!(m.symbol_color(), Tone::Subtle);
    m.done_at = Some("x".to_string());
    assert_eq!(m.symbol_color(), Tone::Green);
    let mut e = entry("a", "2024-05-06", None);
    assert_eq!(e.symbol_color(), Tone::Accent);
    e.kind = "invoice".to_string();
    assert_eq!(e.symbol_color(), Tone::Green);
    e.kind = "call".to_string();
    assert_eq!(e.symbol_color(), Tone::Blue);
    e.kind = "warn".to_string();
    assert_eq!(e.symbol_color(), Tone::Amber);
    let mut k = contact("k", "2024-01-01");
    assert_eq!(k.kind_color(), Tone::Cyan);
    k.kind = "phone".to_string();
    assert_eq!(k.kind_color(), Tone::Green);
    k.kind = "meeting".to_string();
    assert_eq!(k.kind_color(), Tone::Amber);
}

#[test]
fn broken_project_reads_plain_toml() {
    let text = "id = \"p7\"\nclient_id = \"c1\"\nname = \"Osprey\"\nstatus = \"wip\"\nspent_hours = 3\n";
    let b = broken_project(std::path::PathBuf::from("/tmp/p7.toml"), text.to_string()).unwrap();
    assert_eq!(b.name, "Osprey");
    assert_eq!(b.id, "p7");
    assert_eq!(b.client_id, "c1");
    assert_eq!(b.bad_status, "wip");
    assert_eq!(b.raw_toml, text);
    assert_eq!(b.path, std::path::PathBuf::from("/tmp/p7.toml"));
    let b = broken_project(std::path::PathBuf::from("/tmp/x.toml"), "name = 3\nstatus = \"wip\"\n".to_string()).unwrap();
    assert_eq!(b.name, "unknown");
    assert_eq!(b.id, "");
    assert_eq!(b.bad_status, "wip");
    assert!(broken_project(std::path::PathBuf::from("/tmp/y.toml"), "name = = \"x\"".to_string()).is_none());
}

#[test]
fn old_hours_are_not_this_week() {
    let es = vec![
        entry("a", "2001-05-06T10:00:00Z", Some(2.0)),
        entry("b", "2001-05-01T10:00:00Z", None),
    ];
    assert!(week_entries_today(&es).is_empty());
}

#[test]
fn hours_text_is_the_first_word_after_plus() {
    assert_eq!(message_hours_text("+2.5 h · design").as_deref(), Some("2.5"));
    assert_eq!(message_hours_text("+3").as_deref(), Some("3"));
    assert_eq!(message_hours_text("+ 3 h").as_deref(), Some(""));
    assert_eq!(message_hours_text("2 h"), None);
    assert_eq!(message_hours_text(""), None);
}
