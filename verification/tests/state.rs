use rhizome::app::{order_by_recent, App, BootPhase, Mode, View};
use rhizome::config::Config;
use rhizome::dates::DayInfo;
use rhizome::forms::{NewClientForm, NewContactForm, NewProjectForm};
use rhizome::models::{ActivityEntry, BrokenProject, Client, ContactMoment, Milestone, Project, ProjectStatus};
use rhizome::nav::{step_index, ListState};
use rhizome::updates::{client_position, edited_timestamp, position_of, stamp_updated, SaveError};

fn client(id: &str, name: &str, created: &str) -> Client {
    Client {
        id: id.to_string(),
        name: name.to_string(),
        domain: None,
        city: None,
        country: None,
        primary_contact: None,
        primary_role: None,
        currency: "EUR".to_string(),
        default_rate_cents: None,
        status: "paused".to_string(),
        acct_code: Some("n-007".to_string()),
        created_at: created.to_string(),
        updated_at: created.to_string(),
    }
}

fn project(id: &str, client_id: &str, name: &str, updated: &str) -> Project {
    Project {
        id: id.to_string(),
        client_id: client_id.to_string(),
        name: name.to_string(),
        summary: None,
        status: ProjectStatus::Active,
        budget_hours_bits: None,
        budget_kind: "total".to_string(),
        spent_hours_bits: 7,
        rate_cents: None,
        deadline: None,
        owner: None,
        repo_url: None,
        created_at: "2024-01-01T00:00:00Z".to_string(),
        updated_at: updated.to_string(),
        milestones: vec![Milestone {
            id: "m".to_string(),
            title: "launch".to_string(),
            done_at: None,
            due_at: None,
            ord: 1,
        }],
        pulse: vec![1, 2],
        client_name: None,
    }
}

fn activity(id: &str, client_id: &str) -> ActivityEntry {
    ActivityEntry {
        id: id.to_string(),
        client_id: Some(client_id.to_string()),
        project_id: None,
        kind: "note".to_string(),
        message: String::new(),
        at: "2024-01-01T00:00:00Z".to_string(),
        hours_bits: None,
    }
}

fn contact(id: &str, client_id: &str, date: &str) -> ContactMoment {
    ContactMoment {
        id: id.to_string(),
        client_id: client_id.to_string(),
        kind: "email".to_string(),
        summary: "s".to_string(),
        date: date.to_string(),
        created_at: "2024-04-01T08:00:00Z".to_string(),
    }
}

fn app() -> App {
    let clients = vec![
        client("c1", "North", "2024-01-01T00:00:00Z"),
        client("c2", "Zilt", "2024-05-03T00:00:00Z"),
        client("c3", "Solo", "2024-04-01T00:00:00Z"),
    ];
    let projects = vec![
        project("p1", "c1", "Halyard", "2024-01-01"),
        project("p2", "c1", "Atlas", "2024-03-01"),
        project("p3", "c2", "Ember", "2024-02-01"),
    ];
    let acts = (0..7).map(|i| activity(&format!("a{}", i), "c1")).collect();
    let contacts = vec![
        contact("m1", "c1", "2024-04-01"),
        contact("m2", "c1", "2024-04-20"),
        contact("m3", "c3", "bad date"),
        contact("m4", "c2", "2024-05-05"),
    ];
    App::from_loaded(Config::default(), clients, projects, &vec![false, true, false], acts, contacts, Vec::<BrokenProject>::new())
}

fn today() -> DayInfo {
    DayInfo { day: 739012, year: 2024, iso_year: 2024, iso_week: 19 }
}

#[test]
fn loading_orders_projects_and_counts() {
    let a = app();
    let names: Vec<&str> = a.projects.iter().map(|p| p.name.as_str()).collect();
    assert_eq!(names, vec!["Atlas", "Ember", "Halyard"]);
    assert_eq!(a.stats.total_clients, 3);
    assert_eq!(a.stats.total_projects, 3);
    assert_eq!(a.stats.active_projects, 3);
    assert_eq!(a.stats.attention_count, 1);
    assert_eq!(a.boot_phase, BootPhase::Logo);
    assert_eq!(a.boot_lines.len(), 7);
    assert_eq!(a.boot_lines[1], ("ok".to_string(), "loading clients · 3 records".to_string()));
    assert_eq!(a.boot_lines[4], ("ok".to_string(), "checking integrity · 0 broken".to_string()));
    assert_eq!(a.active_view, View::Dashboard);
}

#[test]
fn boot_advances_with_ticks() {
    let mut a = app();
    a.tick();
    assert_eq!(a.boot_phase, BootPhase::Logo);
    a.tick();
    assert_eq!(a.boot_phase, BootPhase::Lines);
    for _ in 0..3 {
        a.tick();
    }
    assert_eq!(a.boot_lines_shown, 6);
    assert_eq!(a.boot_phase, BootPhase::Lines);
    a.tick();
    assert_eq!(a.boot_lines_shown, 7);
    assert!(a.boot_done());
    assert_eq!(a.tick_count, 6);
}

#[test]
fn tick_wraps_and_keeps_done() {
    let mut a = app();
    a.skip_boot();
    a.tick_count = u64::MAX;
    a.tick();
    assert_eq!(a.tick_count, 0);
    assert!(a.boot_done());
    let mut b = app();
    b.boot_phase = BootPhase::Lines;
    b.boot_lines_shown = usize::MAX;
    b.tick();
    b.tick();
    assert_eq!(b.boot_lines_shown, b.boot_lines.len());
    assert!(b.boot_done());
}

#[test]
fn order_by_recent_is_newest_first() {
    let ps = order_by_recent(vec![project("a", "c", "a", "1"), project("b", "c", "b", "3"), project("c", "c", "c", "3")]);
    let ids: Vec<&str> = ps.iter().map(|p| p.id.as_str()).collect();
    assert_eq!(ids, vec!["b", "c", "a"]);
}

#[test]
fn days_since_last_contact() {
    let a = app();
    assert_eq!(a.days_since_contact_on("c1", today()), Some(16));
    assert_eq!(a.days_since_contact_on("c3", today()), None);
    assert_eq!(a.days_since_contact_on("zz", today()), None);
    assert!(a.days_since_contact("c1").is_some());
}

#[test]
fn stale_clients_need_a_week() {
    let a = app();
    let stale: Vec<(&str, i64)> = a.stale_clients_on(today()).iter().map(|(c, d)| (c.id.as_str(), *d)).collect();
    assert_eq!(stale, vec![("c1", 16), ("c3", 35)]);
}

#[test]
fn short_creation_dates_are_refused_before_listing() {
    let mut a = app();
    assert!(a.created_dates_ok());
    assert!(a.stale_clients_checked().is_some());
    let solo = a.clients.iter().position(|c| c.id == "c3").unwrap();
    a.clients[solo].created_at = "2024".to_string();
    assert!(!a.created_dates_ok());
    assert!(a.stale_clients_checked().is_none());
    a.clients[solo].created_at = "2024-01-0é".to_string();
    assert!(!a.created_dates_ok());
}

#[test]
fn selections_and_lists() {
    let mut a = app();
    assert_eq!(a.selected_client().map(|c| c.id.as_str()), Some("c1"));
    assert_eq!(a.selected_project().map(|p| p.id.as_str()), Some("p2"));
    assert_eq!(a.selected_dashboard_project().map(|p| p.id.as_str()), Some("p2"));
    assert_eq!(a.client_projects("c1").len(), 2);
    assert_eq!(a.client_activity("c1").len(), 5);
    assert_eq!(a.client_contacts("c1").len(), 2);
    assert_eq!(a.selected_client_contact_count(), 2);
    a.enter_contact_list();
    assert_eq!(a.contact_list.selected, Some(0));
    a.nav_contact(5);
    assert_eq!(a.contact_list.selected, Some(1));
    assert_eq!(a.selected_contact().map(|c| c.id.as_str()), Some("m2"));
    a.client_list.select(Some(9));
    assert!(a.selected_client().is_none());
    assert!(a.selected_contact().is_none());
    a.switch_view(View::Clients);
    a.nav_last();
    assert_eq!(a.client_list.selected, Some(2));
    a.nav_first();
    assert_eq!(a.client_list.selected, Some(0));
}

#[test]
fn steps_stay_in_range() {
    assert_eq!(step_index(Some(2), 3, 5), 2);
    assert_eq!(step_index(None, 3, 1), 1);
    assert_eq!(step_index(Some(1), 3, -4), 0);
    let mut s = ListState::new();
    assert_eq!(s.selected(), None);
    s.select(Some(4));
    assert_eq!(s.selected(), Some(4));
    assert_eq!(ListState::default().selected, None);
}

#[test]
fn new_client_record_from_form() {
    let a = app();
    let mut f = NewClientForm::new();
    f.fields[0].value = "  Acme ".to_string();
    f.fields[1].value = " ".to_string();
    f.fields[2].value = " Paris ".to_string();
    f.fields[6].value = " usd ".to_string();
    let c = a.client_from_form(&f, "NOW".to_string(), "ID".to_string(), Some(1234));
    assert_eq!(c.id, "ID");
    assert_eq!(c.name, "Acme");
    assert_eq!(c.domain, None);
    assert_eq!(c.city.as_deref(), Some("Paris"));
    assert_eq!(c.currency, "USD");
    assert_eq!(c.default_rate_cents, Some(1234));
    assert_eq!(c.status, "active");
    assert_eq!(c.acct_code.as_deref(), Some("n-004"));
    assert_eq!(c.created_at, "NOW");
    f.fields[6].value = String::new();
    let c = a.new_client_record(&f, None);
    assert_eq!(c.currency, "EUR");
    assert_eq!(c.acct_code.as_deref(), Some("n-004"));
    let id: Vec<char> = c.id.chars().collect();
    assert_eq!(id.len(), 36);
    assert_eq!((id[8], id[13], id[14], id[18], id[23]), ('-', '-', '4', '-', '-'));
    assert!("89ab".contains(id[19]));
    assert!(c.id.chars().all(|ch| ch == '-' || ch.is_ascii_digit() || ('a'..='f').contains(&ch)));
    let at: Vec<char> = c.created_at.chars().collect();
    assert_eq!(at.len(), 20);
    assert_eq!((at[4], at[7], at[10], at[13], at[16], at[19]), ('-', '-', 'T', ':', ':', 'Z'));
}

#[test]
fn edited_client_keeps_identity() {
    let a = app();
    let mut f = NewClientForm::from_client(&a.clients[1]);
    f.fields[0].value = "Zilt AB".to_string();
    let c = a.client_from_form(&f, "NOW".to_string(), "ID".to_string(), None);
    assert_eq!(c.id, "c2");
    assert_eq!(c.name, "Zilt AB");
    assert_eq!(c.status, "paused");
    assert_eq!(c.acct_code.as_deref(), Some("n-007"));
    assert_eq!(c.created_at, "2024-05-03T00:00:00Z");
    assert_eq!(c.updated_at, "NOW");
}

#[test]
fn project_record_needs_a_matching_client() {
    let a = app();
    let mut f = NewProjectForm::new();
    f.fields[0].value = "Bloom".to_string();
    f.fields[1].value = " ZI ".to_string();
    f.fields[3].value = "blocked".to_string();
    f.fields[7].value = "2024-12-01".to_string();
    let p = a.project_from_form(&f, "NOW".to_string(), "PID".to_string(), Some(2.5f64.to_bits()), Some(900)).unwrap();
    assert_eq!(p.id, "PID");
    assert_eq!(p.client_id, "c2");
    assert_eq!(p.status, ProjectStatus::Blocked);
    assert_eq!(p.deadline.as_deref(), Some("2024-12-01"));
    assert_eq!(p.budget_hours_bits, Some(2.5f64.to_bits()));
    assert_eq!(p.spent_hours_bits, 0);
    assert!(p.milestones.is_empty());
    f.fields[1].value = " qq ".to_string();
    assert_eq!(
        a.project_from_form(&f, "NOW".to_string(), "PID".to_string(), None, None).unwrap_err(),
        SaveError::NotFound("no client matching 'qq'".to_string())
    );
    assert_eq!(
        a.new_project_record(&f, None, None).unwrap_err(),
        SaveError::NotFound("no client matching 'qq'".to_string())
    );
}

#[test]
fn edited_project_keeps_hours_and_milestones() {
    let a = app();
    let mut f = NewProjectForm::from_project(&a.projects[2], String::new());
    f.fields[1].value = "north".to_string();
    let p = a.project_from_form(&f, "NOW".to_string(), "PID".to_string(), None, None).unwrap();
    assert_eq!(p.id, "p1");
    assert_eq!(p.spent_hours_bits, 7);
    assert_eq!(p.milestones.len(), 1);
    assert_eq!(p.pulse, vec![1, 2]);
    assert_eq!(p.created_at, "2024-01-01T00:00:00Z");
}

#[test]
fn contact_records_from_form() {
    let a = app();
    let mut f = NewContactForm::for_client_on(&a.clients[0], " 2024-05-06 ".to_string());
    f.fields[2].value = " lunch ".to_string();
    let c = a.contact_from_form(&f, "NOW".to_string(), "CID".to_string());
    assert_eq!(c.id, "CID");
    assert_eq!(c.date, "2024-05-06");
    assert_eq!(c.summary, "lunch");
    assert_eq!(c.created_at, "NOW");
    let f = NewContactForm::from_contact(&a.clients[0], &a.contacts[1]);
    let c = a.contact_from_form(&f, "NOW".to_string(), "CID".to_string());
    assert_eq!(c.id, "m2");
    assert_eq!(c.created_at, "2024-04-01T08:00:00Z");
    assert_eq!(a.new_contact_record(&f).id, "m2");
}

#[test]
fn reloads_keep_highlights_in_range() {
    let mut a = app();
    a.client_list.select(Some(2));
    let clients = vec![client("c9", "A", "x"), client("c2", "Zilt", "x")];
    a.after_client_saved(clients, &vec![false, false, false], "c2");
    assert_eq!(a.client_list.selected, Some(1));
    assert_eq!(a.stats.total_clients, 2);
    a.project_list.select(Some(2));
    a.after_project_deleted(vec![project("p1", "c1", "H", "x")], &vec![false]);
    assert_eq!(a.project_list.selected, Some(0));
    assert_eq!(a.stats.total_projects, 1);
    a.after_client_deleted(Vec::new(), Vec::new(), &Vec::new());
    assert_eq!(a.client_list.selected, None);
    assert_eq!(a.project_list.selected, None);
}

#[test]
fn archiving_a_clients_projects() {
    let mut a = app();
    let changed = a.archive_client_projects("c1");
    assert_eq!(changed, vec![0, 2]);
    assert_eq!(a.projects[0].status, ProjectStatus::Archived);
    assert_eq!(a.projects[1].status, ProjectStatus::Active);
    assert_eq!(a.projects[2].status, ProjectStatus::Archived);
}

#[test]
fn saved_project_is_highlighted() {
    let mut a = app();
    a.after_project_saved(
        vec![project("p1", "c1", "H", "x"), project("p7", "c1", "N", "x")],
        &vec![true, false],
        "p7",
    );
    assert_eq!(a.project_list.selected, Some(1));
    assert_eq!(a.dashboard_list.selected, Some(1));
    assert_eq!(a.stats.attention_count, 1);
}

#[test]
fn contact_deletion_clamps_highlight() {
    let mut a = app();
    a.contact_list.select(Some(1));
    a.after_contact_deleted(vec![contact("m1", "c1", "2024-04-01")]);
    assert_eq!(a.contact_list.selected, Some(0));
    assert_eq!(a.mode, Mode::Normal);
}

#[test]
fn positions_and_timestamps() {
    assert_eq!(position_of(&vec!["a", "b", "b"], "b"), Some(1));
    assert_eq!(position_of(&vec!["a"], "z"), None);
    let a = app();
    assert_eq!(client_position(&a.clients, "c3"), Some(2));
    assert_eq!(edited_timestamp("2024-05-06T10:00:00Z", "2024-05-07"), "2024-05-07T10:00:00Z");
    assert_eq!(edited_timestamp("2024-05-06", "2024-05-07"), "2024-05-07T00:00:00Z");
}

fn hours_entry(id: &str, project_id: Option<&str>, at: &str) -> ActivityEntry {
    ActivityEntry {
        id: id.to_string(),
        client_id: Some("c1".to_string()),
        project_id: project_id.map(|p| p.to_string()),
        kind: "hours".to_string(),
        message: "+1 h · old".to_string(),
        at: at.to_string(),
        hours_bits: Some(1.0f64.to_bits()),
    }
}

#[test]
fn logging_hours_builds_the_entry() {
    let a = app();
    let e = a.hours_entry_on("p3", 2.5f64.to_bits(), "2.5", "NOW".to_string(), "HID".to_string()).unwrap();
    assert_eq!(e.id, "HID");
    assert_eq!(e.client_id.as_deref(), Some("c2"));
    assert_eq!(e.project_id.as_deref(), Some("p3"));
    assert_eq!(e.kind, "hours");
    assert_eq!(e.message, "+2.5 h · Ember");
    assert_eq!(e.at, "NOW");
    assert_eq!(e.hours_bits, Some(2.5f64.to_bits()));
    assert!(a.hours_entry_on("zz", 0, "0", "NOW".to_string(), "HID".to_string()).is_none());
    let e = a.new_hours_entry("p1", 1.0f64.to_bits(), "1").unwrap();
    assert_eq!(e.message, "+1 h · Halyard");
    assert!(a.new_hours_entry("zz", 0, "0").is_none());
}

#[test]
fn editing_hours_moves_the_date() {
    let mut a = app();
    a.activity = vec![
        hours_entry("h1", Some("p2"), "2024-05-06T10:30:00Z"),
        hours_entry("h2", None, "2024-05-06"),
        hours_entry("h3", Some("gone"), "2024-05-06T08:00:00Z"),
    ];
    let e = a.edited_hours_entry("h1", 3.0f64.to_bits(), "3", "2024-05-08").unwrap();
    assert_eq!(e.id, "h1");
    assert_eq!(e.at, "2024-05-08T10:30:00Z");
    assert_eq!(e.message, "+3 h · Atlas");
    assert_eq!(e.hours_bits, Some(3.0f64.to_bits()));
    let e = a.edited_hours_entry("h2", 1.0f64.to_bits(), "1", "2024-05-09").unwrap();
    assert_eq!(e.at, "2024-05-09T00:00:00Z");
    assert_eq!(e.message, "+1 h · ");
    let e = a.edited_hours_entry("h3", 1.0f64.to_bits(), "1", "2024-05-09").unwrap();
    assert_eq!(e.message, "+1 h · ");
    assert!(a.edited_hours_entry("nope", 0, "0", "x").is_none());
}

#[test]
fn stamping_a_project_only_changes_its_time() {
    let mut p = project("p1", "c1", "Halyard", "2024-01-01");
    stamp_updated(&mut p);
    assert_eq!(p.updated_at.len(), 20);
    assert!(p.updated_at.ends_with('Z'));
    assert_ne!(p.updated_at, "2024-01-01");
    assert_eq!(p.name, "Halyard");
    assert_eq!(p.created_at, "2024-01-01T00:00:00Z");
}
