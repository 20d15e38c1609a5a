use rhizome::app::{App, BootPhase, Focus, Mode, SearchResult, View};
use rhizome::config::Config;
use rhizome::events::{handle_key, handle_key_on, Effect, HoursOutcome, KeyCode, KeyEvent};
use rhizome::models::{ActivityEntry, BrokenProject, Client, ContactMoment, Project, ProjectStatus};

fn client(id: &str, name: &str) -> Client {
    Client {
        id: id.to_string(),
        name: name.to_string(),
        domain: None,
        city: Some("Oslo".to_string()),
        country: None,
        primary_contact: None,
        primary_role: None,
        currency: "EUR".to_string(),
        default_rate_cents: Some(10000),
        status: "active".to_string(),
        acct_code: Some("n-001".to_string()),
        created_at: "2024-01-01T00:00:00Z".to_string(),
        updated_at: "2024-01-01T00:00:00Z".to_string(),
    }
}

fn project(id: &str, client_id: &str, name: &str, status: ProjectStatus, updated: &str) -> Project {
    Project {
        id: id.to_string(),
        client_id: client_id.to_string(),
        name: name.to_string(),
        summary: None,
        status,
        budget_hours_bits: None,
        budget_kind: "total".to_string(),
        spent_hours_bits: 0,
        rate_cents: Some(5000),
        deadline: None,
        owner: None,
        repo_url: None,
        created_at: "2024-01-01T00:00:00Z".to_string(),
        updated_at: updated.to_string(),
        milestones: Vec::new(),
        pulse: Vec::new(),
        client_name: None,
    }
}

fn hours(id: &str, project_id: &str, at: &str, h: f64) -> ActivityEntry {
    ActivityEntry {
        id: id.to_string(),
        client_id: Some("c1".to_string()),
        project_id: Some(project_id.to_string()),
        kind: "hours".to_string(),
        message: format!("+{} h · x", h),
        at: at.to_string(),
        hours_bits: Some(h.to_bits()),
    }
}

fn contact(id: &str, client_id: &str, date: &str) -> ContactMoment {
    ContactMoment {
        id: id.to_string(),
        client_id: client_id.to_string(),
        kind: "email".to_string(),
        summary: "hello".to_string(),
        date: date.to_string(),
        created_at: "2024-04-01T00:00:00Z".to_string(),
    }
}

fn fresh_app() -> App {
    let clients = vec![client("c1", "North & Co"), client("c2", "Zilt")];
    let projects = vec![
        project("p1", "c1", "Halyard", ProjectStatus::Active, "2024-03-01T00:00:00Z"),
        project("p2", "c2", "Ember", ProjectStatus::Blocked, "2024-04-01T00:00:00Z"),
    ];
    let activity = vec![
        hours("a1", "p1", "2024-05-06T10:00:00Z", 2.0),
        hours("a2", "p1", "2024-05-01T09:00:00Z", 1.5),
        hours("a3", "p2", "2024-05-02T09:00:00Z", 4.0),
    ];
    let contacts = vec![contact("m1", "c1", "2024-04-01"), contact("m2", "c2", "2024-04-02")];
    let broken = vec![BrokenProject {
        path: std::path::PathBuf::from("/tmp/x.toml"),
        name: "Osprey".to_string(),
        id: "p9".to_string(),
        client_id: "c1".to_string(),
        bad_status: "wip".to_string(),
        raw_toml: "status = \"wip\"".to_string(),
    }];
    App::from_loaded(Config::default(), clients, projects, &vec![false, false], activity, contacts, broken)
}

fn key(c: char) -> KeyEvent {
    KeyEvent { code: KeyCode::Char(c), ctrl: false }
}

fn code(k: KeyCode) -> KeyEvent {
    KeyEvent { code: k, ctrl: false }
}

fn ctrl(c: char) -> KeyEvent {
    KeyEvent { code: KeyCode::Char(c), ctrl: true }
}

fn press(app: &mut App, k: KeyEvent) -> Effect {
    assert!(app.forms_whole());
    assert!(app.key_is_safe(k));
    handle_key_on(k, app, "2024-05-06")
}

fn booted() -> App {
    let mut app = fresh_app();
    press(&mut app, key('x'));
    app
}

fn typed(app: &mut App, s: &str) {
    for c in s.chars() {
        press(app, key(c));
    }
}

#[test]
fn first_key_only_skips_boot() {
    let mut app = fresh_app();
    assert!(!app.boot_done());
    let e = press(&mut app, key('q'));
    assert!(matches!(e, Effect::Nothing));
    assert!(app.boot_done());
    assert_eq!(app.boot_phase, BootPhase::Done);
    assert!(app.boot_skip);
    assert!(!app.should_quit);
    assert_eq!(app.mode, Mode::Normal);
}

#[test]
fn handle_key_dates_with_today() {
    let mut app = fresh_app();
    handle_key(key('1'), &mut app);
    assert!(app.boot_done());
    handle_key(key('2'), &mut app);
    assert_eq!(app.active_view, View::Clients);
}

#[test]
fn digits_pick_views() {
    let mut app = booted();
    press(&mut app, key('2'));
    assert_eq!(app.active_view, View::Clients);
    app.focus = Focus::Right;
    press(&mut app, key('3'));
    assert_eq!(app.active_view, View::Projects);
    assert_eq!(app.focus, Focus::Left);
    press(&mut app, key('1'));
    assert_eq!(app.active_view, View::Dashboard);
}

#[test]
fn list_moves_and_jumps() {
    let mut app = booted();
    press(&mut app, key('2'));
    assert_eq!(app.client_list.selected, Some(0));
    press(&mut app, key('j'));
    assert_eq!(app.client_list.selected, Some(1));
    press(&mut app, key('j'));
    assert_eq!(app.client_list.selected, Some(1));
    press(&mut app, key('k'));
    assert_eq!(app.client_list.selected, Some(0));
    press(&mut app, key('G'));
    assert_eq!(app.client_list.selected, Some(1));
    press(&mut app, key('g'));
    assert!(app.g_pending);
    press(&mut app, key('g'));
    assert!(!app.g_pending);
    assert_eq!(app.client_list.selected, Some(0));
    press(&mut app, code(KeyCode::Down));
    assert_eq!(app.client_list.selected, Some(1));
    press(&mut app, code(KeyCode::Up));
    assert_eq!(app.client_list.selected, Some(0));
}

#[test]
fn g_then_letter_switches_view() {
    let mut app = booted();
    press(&mut app, key('g'));
    press(&mut app, key('p'));
    assert_eq!(app.active_view, View::Projects);
    press(&mut app, key('g'));
    press(&mut app, key('c'));
    assert_eq!(app.active_view, View::Clients);
    press(&mut app, key('g'));
    press(&mut app, key('d'));
    assert_eq!(app.active_view, View::Dashboard);
    press(&mut app, key('g'));
    press(&mut app, key('2'));
    assert!(!app.g_pending);
    assert_eq!(app.active_view, View::Clients);
}

#[test]
fn q_and_colon_q_quit() {
    let mut app = booted();
    press(&mut app, key('q'));
    assert!(app.should_quit);

    let mut app = booted();
    press(&mut app, key(':'));
    assert!(matches!(app.mode, Mode::Command(ref t) if t.is_empty()));
    typed(&mut app, "quit");
    assert!(matches!(app.mode, Mode::Command(ref t) if t == "quit"));
    press(&mut app, code(KeyCode::Enter));
    assert!(app.should_quit);
    assert_eq!(app.mode, Mode::Normal);
    assert!(app.input.is_empty());

    let mut app = booted();
    press(&mut app, key(':'));
    typed(&mut app, " Q ");
    press(&mut app, code(KeyCode::Enter));
    assert!(app.should_quit);
}

#[test]
fn other_commands_and_escape_do_not_quit() {
    let mut app = booted();
    press(&mut app, key(':'));
    typed(&mut app, "wq");
    press(&mut app, code(KeyCode::Backspace));
    assert!(matches!(app.mode, Mode::Command(ref t) if t == "w"));
    press(&mut app, code(KeyCode::Enter));
    assert!(!app.should_quit);
    press(&mut app, key(':'));
    typed(&mut app, "q");
    press(&mut app, code(KeyCode::Esc));
    assert!(!app.should_quit);
    assert_eq!(app.mode, Mode::Normal);
}

#[test]
fn search_lists_hits_and_jumps() {
    let mut app = booted();
    press(&mut app, key('/'));
    assert!(matches!(app.mode, Mode::Search(_)));
    typed(&mut app, "EMB");
    assert_eq!(app.input, "EMB");
    assert_eq!(app.search_results.len(), 1);
    assert!(matches!(&app.search_results[0], SearchResult::Project { idx: 0, name, .. } if name == "Ember"));
    assert_eq!(app.search_list.selected, Some(0));
    press(&mut app, code(KeyCode::Enter));
    assert_eq!(app.mode, Mode::Normal);
    assert_eq!(app.active_view, View::Projects);
    assert_eq!(app.project_list.selected, Some(0));
    assert!(app.search_results.is_empty());
}

#[test]
fn search_matches_clients_by_city() {
    let mut app = booted();
    press(&mut app, key('/'));
    typed(&mut app, "oslo");
    assert_eq!(app.search_results.len(), 2);
    press(&mut app, code(KeyCode::Down));
    assert_eq!(app.search_list.selected, Some(1));
    press(&mut app, code(KeyCode::Enter));
    assert_eq!(app.active_view, View::Clients);
    assert_eq!(app.client_list.selected, Some(1));
}

#[test]
fn search_escape_clears() {
    let mut app = booted();
    press(&mut app, key('/'));
    typed(&mut app, "zi");
    assert_eq!(app.search_results.len(), 1);
    press(&mut app, code(KeyCode::Backspace));
    assert_eq!(app.input, "z");
    press(&mut app, code(KeyCode::Esc));
    assert_eq!(app.mode, Mode::Normal);
    assert!(app.input.is_empty());
    assert!(app.search_results.is_empty());
    assert_eq!(app.search_list.selected, None);
}

#[test]
fn new_client_form_saves_when_named() {
    let mut app = booted();
    press(&mut app, key('2'));
    press(&mut app, key('n'));
    assert_eq!(app.focus, Focus::Right);
    let e = press(&mut app, ctrl('s'));
    assert!(matches!(e, Effect::Nothing));
    match &app.mode {
        Mode::NewClient(f) => assert_eq!(f.error.as_deref(), Some("name is required")),
        m => panic!("unexpected mode {:?}", m),
    }
    typed(&mut app, "Acme");
    match &app.mode {
        Mode::NewClient(f) => {
            assert_eq!(f.fields[0].value, "Acme");
            assert!(f.error.is_none());
        },
        m => panic!("unexpected mode {:?}", m),
    }
    let e = press(&mut app, ctrl('s'));
    match e {
        Effect::SaveClient(f) => assert_eq!(f.fields[0].value, "Acme"),
        e => panic!("unexpected effect {:?}", e),
    }
    assert_eq!(app.mode, Mode::Normal);
    assert_eq!(app.focus, Focus::Left);
}

#[test]
fn new_client_enter_walks_fields_then_saves() {
    let mut app = booted();
    press(&mut app, key('2'));
    press(&mut app, key('n'));
    for _ in 0..7 {
        press(&mut app, code(KeyCode::Enter));
    }
    match &app.mode {
        Mode::NewClient(f) => assert_eq!(f.focused, 7),
        m => panic!("unexpected mode {:?}", m),
    }
    press(&mut app, code(KeyCode::Enter));
    match &app.mode {
        Mode::NewClient(f) => {
            assert_eq!(f.focused, 0);
            assert_eq!(f.error.as_deref(), Some("name is required"));
        },
        m => panic!("unexpected mode {:?}", m),
    }
    press(&mut app, code(KeyCode::BackTab));
    match &app.mode {
        Mode::NewClient(f) => {
            assert_eq!(f.focused, 7);
            assert!(f.error.is_none());
        },
        m => panic!("unexpected mode {:?}", m),
    }
    press(&mut app, code(KeyCode::Esc));
    assert_eq!(app.mode, Mode::Normal);
}

#[test]
fn edit_client_opens_filled_form() {
    let mut app = booted();
    press(&mut app, key('2'));
    press(&mut app, key('e'));
    match &app.mode {
        Mode::NewClient(f) => {
            assert_eq!(f.fields[0].value, "North & Co");
            assert_eq!(f.fields[7].value, "100");
            assert_eq!(f.edit_id.as_deref(), Some("c1"));
        },
        m => panic!("unexpected mode {:?}", m),
    }
    press(&mut app, code(KeyCode::Backspace));
    match &app.mode {
        Mode::NewClient(f) => assert_eq!(f.fields[0].value, "North & C"),
        m => panic!("unexpected mode {:?}", m),
    }
}

#[test]
fn project_form_completes_client_and_cycles() {
    let mut app = booted();
    press(&mut app, key('3'));
    press(&mut app, key('n'));
    typed(&mut app, "Atlas");
    press(&mut app, code(KeyCode::Tab));
    typed(&mut app, " no");
    press(&mut app, code(KeyCode::Tab));
    press(&mut app, code(KeyCode::Tab));
    match &app.mode {
        Mode::NewProject(f) => {
            assert_eq!(f.fields[0].value, "Atlas");
            assert_eq!(f.fields[1].value, "North & Co");
            assert_eq!(f.focused, 3);
        },
        m => panic!("unexpected mode {:?}", m),
    }
    press(&mut app, code(KeyCode::Right));
    press(&mut app, key(' '));
    press(&mut app, key('z'));
    press(&mut app, code(KeyCode::Left));
    match &app.mode {
        Mode::NewProject(f) => assert_eq!(f.fields[3].value, "running"),
        m => panic!("unexpected mode {:?}", m),
    }
    press(&mut app, code(KeyCode::Tab));
    press(&mut app, code(KeyCode::Left));
    match &app.mode {
        Mode::NewProject(f) => assert_eq!(f.fields[4].value, "monthly"),
        m => panic!("unexpected mode {:?}", m),
    }
    let e = press(&mut app, ctrl('s'));
    match e {
        Effect::SaveProject(f) => {
            assert_eq!(f.fields[1].value, "North & Co");
            assert_eq!(f.fields[3].value, "running");
        },
        e => panic!("unexpected effect {:?}", e),
    }
    assert!(matches!(app.mode, Mode::NewProject(_)));
}

#[test]
fn project_form_needs_name_and_client() {
    let mut app = booted();
    press(&mut app, key('3'));
    press(&mut app, key('n'));
    typed(&mut app, "Atlas");
    let e = press(&mut app, ctrl('s'));
    assert!(matches!(e, Effect::Nothing));
    match &app.mode {
        Mode::NewProject(f) => assert_eq!(f.error.as_deref(), Some("name and client are required")),
        m => panic!("unexpected mode {:?}", m),
    }
}

#[test]
fn project_save_finished_closes_or_reports() {
    let mut app = booted();
    press(&mut app, key('3'));
    press(&mut app, key('n'));
    let form = match &app.mode {
        Mode::NewProject(f) => f.clone(),
        _ => panic!(),
    };
    app.project_save_finished(form.clone(), Err("no client matching 'x'".to_string()));
    match &app.mode {
        Mode::NewProject(f) => assert_eq!(f.error.as_deref(), Some("no client matching 'x'")),
        m => panic!("unexpected mode {:?}", m),
    }
    app.project_save_finished(form, Ok(()));
    assert_eq!(app.mode, Mode::Normal);
    assert_eq!(app.focus, Focus::Left);
}

#[test]
fn edit_project_asks_for_budget_text() {
    let mut app = booted();
    press(&mut app, key('3'));
    let e = press(&mut app, key('e'));
    let index = match e {
        Effect::EditProject { index } => index,
        e => panic!("unexpected effect {:?}", e),
    };
    assert_eq!(index, 0);
    assert_eq!(app.mode, Mode::Normal);
    app.open_project_form(index, "12".to_string());
    match &app.mode {
        Mode::NewProject(f) => {
            assert_eq!(f.fields[0].value, "Ember");
            assert_eq!(f.fields[3].value, "blocked");
            assert_eq!(f.fields[5].value, "12");
            assert_eq!(f.fields[6].value, "50");
            assert_eq!(f.edit_id.as_deref(), Some("p2"));
        },
        m => panic!("unexpected mode {:?}", m),
    }
    assert_eq!(app.focus, Focus::Right);
    app.mode = Mode::Normal;
    app.open_project_form(9, "1".to_string());
    assert_eq!(app.mode, Mode::Normal);
}

#[test]
fn deleting_a_client_is_confirmed() {
    let mut app = booted();
    press(&mut app, key('2'));
    press(&mut app, key('d'));
    match &app.mode {
        Mode::ConfirmDelete { kind, id, name, warning, context } => {
            assert_eq!(kind, "client");
            assert_eq!(id, "c1");
            assert_eq!(name, "North & Co");
            assert_eq!(warning.as_deref(), Some("1 project will be archived"));
            assert!(context.is_none());
        },
        m => panic!("unexpected mode {:?}", m),
    }
    let e = press(&mut app, key('x'));
    assert!(matches!(e, Effect::Nothing));
    assert!(matches!(app.mode, Mode::ConfirmDelete { .. }));
    let e = press(&mut app, key('Y'));
    assert!(matches!(e, Effect::DeleteClient(ref id) if id == "c1"));
    assert_eq!(app.mode, Mode::Normal);
}

#[test]
fn deleting_a_project_can_be_cancelled() {
    let mut app = booted();
    press(&mut app, key('3'));
    press(&mut app, key('d'));
    match &app.mode {
        Mode::ConfirmDelete { kind, id, warning, .. } => {
            assert_eq!(kind, "project");
            assert_eq!(id, "p2");
            assert!(warning.is_none());
        },
        m => panic!("unexpected mode {:?}", m),
    }
    let e = press(&mut app, key('n'));
    assert!(matches!(e, Effect::Nothing));
    assert_eq!(app.mode, Mode::Normal);
    app.focus = Focus::Right;
    press(&mut app, key('d'));
    assert_eq!(app.mode, Mode::Normal);
    press(&mut app, key('h'));
    assert_eq!(app.focus, Focus::Left);
    press(&mut app, key('d'));
    let e = press(&mut app, key('y'));
    assert!(matches!(e, Effect::DeleteProject(ref id) if id == "p2"));
}

#[test]
fn contact_list_flow() {
    let mut app = booted();
    press(&mut app, key('2'));
    press(&mut app, key('c'));
    assert_eq!(app.mode, Mode::ViewContacts);
    assert_eq!(app.focus, Focus::Right);
    assert_eq!(app.contact_list.selected, Some(0));
    press(&mut app, key('n'));
    match &app.mode {
        Mode::NewContact(f) => {
            assert_eq!(f.fields[0].value, "2024-05-06");
            assert_eq!(f.fields[1].value, "email");
            assert_eq!(f.client_id, "c1");
        },
        m => panic!("unexpected mode {:?}", m),
    }
    press(&mut app, code(KeyCode::Esc));
    assert_eq!(app.mode, Mode::Normal);
    assert_eq!(app.focus, Focus::Left);
    press(&mut app, key('c'));
    press(&mut app, key('e'));
    match &app.mode {
        Mode::NewContact(f) => {
            assert_eq!(f.fields[0].value, "2024-04-01");
            assert_eq!(f.edit_id.as_deref(), Some("m1"));
        },
        m => panic!("unexpected mode {:?}", m),
    }
    press(&mut app, code(KeyCode::Esc));
    assert_eq!(app.mode, Mode::Normal);
    press(&mut app, key('c'));
    press(&mut app, key('d'));
    match &app.mode {
        Mode::ConfirmDelete { kind, id, name, .. } => {
            assert_eq!(kind, "contact");
            assert_eq!(id, "m1");
            assert_eq!(name, "2024-04-01");
        },
        m => panic!("unexpected mode {:?}", m),
    }
    press(&mut app, code(KeyCode::Esc));
    assert_eq!(app.mode, Mode::Normal);
    press(&mut app, key('c'));
    press(&mut app, key('d'));
    let e = press(&mut app, key('n'));
    assert!(matches!(e, Effect::Nothing));
    assert_eq!(app.mode, Mode::ViewContacts);
    press(&mut app, key('d'));
    let e = press(&mut app, key('y'));
    assert!(matches!(e, Effect::DeleteContact(ref id) if id == "m1"));
    assert_eq!(app.mode, Mode::ViewContacts);
    press(&mut app, code(KeyCode::Esc));
    assert_eq!(app.mode, Mode::Normal);
    assert_eq!(app.focus, Focus::Left);
}

#[test]
fn contact_form_cycles_kind_and_saves() {
    let mut app = booted();
    press(&mut app, key('2'));
    press(&mut app, key('c'));
    press(&mut app, key('n'));
    press(&mut app, code(KeyCode::Tab));
    press(&mut app, key('x'));
    press(&mut app, key(' '));
    press(&mut app, code(KeyCode::Right));
    press(&mut app, code(KeyCode::Left));
    match &app.mode {
        Mode::NewContact(f) => assert_eq!(f.fields[1].value, "phone"),
        m => panic!("unexpected mode {:?}", m),
    }
    press(&mut app, code(KeyCode::Enter));
    press(&mut app, code(KeyCode::Enter));
    match &app.mode {
        Mode::NewContact(f) => {
            assert_eq!(f.focused, 0);
            assert_eq!(f.error.as_deref(), Some("date and summary are required"));
        },
        m => panic!("unexpected mode {:?}", m),
    }
    press(&mut app, code(KeyCode::Up));
    typed(&mut app, "met");
    let e = press(&mut app, code(KeyCode::Enter));
    let form = match e {
        Effect::SaveContact(f) => {
            assert_eq!(f.fields[2].value, "met");
            f
        },
        e => panic!("unexpected effect {:?}", e),
    };
    app.contact_save_finished(form, Err("disk full".to_string()));
    match &app.mode {
        Mode::NewContact(f) => assert_eq!(f.error.as_deref(), Some("disk full")),
        m => panic!("unexpected mode {:?}", m),
    }
    let form = match &app.mode {
        Mode::NewContact(f) => f.clone(),
        _ => panic!(),
    };
    app.contact_save_finished(form, Ok(Vec::new()));
    assert_eq!(app.mode, Mode::ViewContacts);
    assert!(app.contacts.is_empty());
}

fn hours_log() -> App {
    let mut app = booted();
    press(&mut app, key('3'));
    press(&mut app, key('j'));
    press(&mut app, key('l'));
    app
}

#[test]
fn hours_log_opens_on_first_entry() {
    let app = hours_log();
    assert!(matches!(app.mode, Mode::ViewHours { ref project_id } if project_id == "p1"));
    assert_eq!(app.hours_list.selected, Some(0));
    assert_eq!(app.focus, Focus::Right);
    assert_eq!(app.project_hours_count("p1"), 2);
}

#[test]
fn hours_entry_accepts_one_decimal_point() {
    let mut app = hours_log();
    press(&mut app, key('a'));
    typed(&mut app, "1.5.x2");
    match &app.mode {
        Mode::AddHours { input, error, .. } => {
            assert_eq!(input, "1.52");
            assert!(error.is_none());
        },
        m => panic!("unexpected mode {:?}", m),
    }
    let e = press(&mut app, code(KeyCode::Enter));
    let (pid, input) = match e {
        Effect::SaveHours { project_id, input } => (project_id, input),
        e => panic!("unexpected effect {:?}", e),
    };
    assert_eq!(pid, "p1");
    assert_eq!(input, "1.52");
    app.hours_add_finished(pid.clone(), input.clone(), HoursOutcome::Invalid);
    match &app.mode {
        Mode::AddHours { error, .. } => assert_eq!(error.as_deref(), Some("enter a number > 0 (e.g. 2 or 1.5)")),
        m => panic!("unexpected mode {:?}", m),
    }
    app.hours_add_finished(pid.clone(), input.clone(), HoursOutcome::Failed("io".to_string()));
    match &app.mode {
        Mode::AddHours { error, .. } => assert_eq!(error.as_deref(), Some("io")),
        m => panic!("unexpected mode {:?}", m),
    }
    app.hours_add_finished(pid, input, HoursOutcome::Saved);
    assert!(matches!(app.mode, Mode::ViewHours { .. }));
    assert_eq!(app.focus, Focus::Right);
}

#[test]
fn escape_leaves_hour_entry_for_normal() {
    let mut app = hours_log();
    press(&mut app, key('a'));
    assert!(matches!(app.mode, Mode::AddHours { .. }));
    press(&mut app, code(KeyCode::Esc));
    assert_eq!(app.mode, Mode::Normal);
    assert_eq!(app.focus, Focus::Left);
}

#[test]
fn hours_editor_round_trip() {
    let mut app = hours_log();
    let e = press(&mut app, key('e'));
    let (pid, aid, date) = match e {
        Effect::EditHoursEntry { project_id, activity_id, date } => (project_id, activity_id, date),
        e => panic!("unexpected effect {:?}", e),
    };
    assert_eq!((pid.as_str(), aid.as_str(), date.as_str()), ("p1", "a1", "2024-05-06"));
    app.open_hours_editor(pid, aid, date, "2".to_string());
    press(&mut app, code(KeyCode::Backspace));
    typed(&mut app, "7x");
    press(&mut app, code(KeyCode::Tab));
    typed(&mut app, ".5.");
    match &app.mode {
        Mode::EditHours { date_input, hours_input, focused, .. } => {
            assert_eq!(date_input, "2024-05-07");
            assert_eq!(hours_input, "2.5");
            assert_eq!(*focused, 1);
        },
        m => panic!("unexpected mode {:?}", m),
    }
    let e = press(&mut app, code(KeyCode::Enter));
    match e {
        Effect::EditHours { activity_id, date_input, hours_input, focused, .. } => {
            assert_eq!(activity_id, "a1");
            assert_eq!(date_input, "2024-05-07");
            assert_eq!(hours_input, "2.5");
            assert_eq!(focused, 1);
        },
        e => panic!("unexpected effect {:?}", e),
    }
    app.hours_edit_finished(
        "p1".to_string(),
        "a1".to_string(),
        "2024-05-07".to_string(),
        "0".to_string(),
        1,
        HoursOutcome::Invalid,
    );
    match &app.mode {
        Mode::EditHours { error, .. } => assert_eq!(error.as_deref(), Some("hours must be > 0 (e.g. 2 or 1.5)")),
        m => panic!("unexpected mode {:?}", m),
    }
    press(&mut app, code(KeyCode::Esc));
    assert_eq!(app.mode, Mode::Normal);
}

#[test]
fn hours_delete_is_confirmed_with_label() {
    let mut app = hours_log();
    press(&mut app, key('j'));
    let e = press(&mut app, key('d'));
    let (pid, aid, label) = match e {
        Effect::AskDeleteHours { project_id, activity_id, label } => (project_id, activity_id, label),
        e => panic!("unexpected effect {:?}", e),
    };
    assert_eq!((aid.as_str(), label.as_str()), ("a2", "2024-05-01"));
    app.confirm_hours_delete(pid, aid, &label, "1.5");
    match &app.mode {
        Mode::ConfirmDelete { kind, name, context, .. } => {
            assert_eq!(kind, "hours_entry");
            assert_eq!(name, "2024-05-01 (1.5h)");
            assert_eq!(context.as_deref(), Some("p1"));
        },
        m => panic!("unexpected mode {:?}", m),
    }
    let e = press(&mut app, key('y'));
    match e {
        Effect::DeleteHoursEntry { activity_id, project_id } => {
            assert_eq!(activity_id, "a2");
            assert_eq!(project_id, "p1");
        },
        e => panic!("unexpected effect {:?}", e),
    }
    assert!(matches!(app.mode, Mode::ViewHours { ref project_id } if project_id == "p1"));
    app.activity.remove(1);
    app.hours_entry_deleted("p1");
    assert_eq!(app.hours_list.selected, Some(0));
    app.activity.remove(0);
    app.hours_entry_deleted("p1");
    assert_eq!(app.hours_list.selected, None);
}

#[test]
fn repair_cycles_status_and_saves() {
    let mut app = booted();
    press(&mut app, key('r'));
    assert_eq!(app.mode, Mode::RepairProject { idx: 0, chosen: ProjectStatus::Active, error: None });
    press(&mut app, code(KeyCode::Right));
    assert_eq!(app.mode, Mode::RepairProject { idx: 0, chosen: ProjectStatus::Running, error: None });
    press(&mut app, code(KeyCode::Left));
    press(&mut app, code(KeyCode::Left));
    press(&mut app, code(KeyCode::Left));
    press(&mut app, code(KeyCode::Left));
    assert_eq!(app.mode, Mode::RepairProject { idx: 0, chosen: ProjectStatus::Archived, error: None });
    press(&mut app, key(' '));
    assert_eq!(app.mode, Mode::RepairProject { idx: 0, chosen: ProjectStatus::Lead, error: None });
    let e = press(&mut app, ctrl('s'));
    assert!(matches!(e, Effect::Repair { idx: 0, chosen: ProjectStatus::Lead }));
    app.repair_finished(0, ProjectStatus::Lead, Err("locked".to_string()));
    assert_eq!(
        app.mode,
        Mode::RepairProject { idx: 0, chosen: ProjectStatus::Lead, error: Some("locked".to_string()) }
    );
    app.repair_finished(0, ProjectStatus::Lead, Ok(()));
    assert_eq!(app.mode, Mode::Normal);
    assert_eq!(app.repair_text(0, ProjectStatus::Lead), "status = \"lead\"");
}

#[test]
fn repair_needs_dashboard() {
    let mut app = booted();
    press(&mut app, key('2'));
    press(&mut app, key('r'));
    assert_eq!(app.mode, Mode::Normal);
}

#[test]
fn hours_key_safety_is_checked() {
    let mut app = hours_log();
    app.activity[0].at = "2024-05-0é".to_string();
    assert!(!app.key_is_safe(key('d')));
    assert!(app.key_is_safe(key('j')));
    app.activity[0].at = "2024-05-06Té".to_string();
    assert!(app.key_is_safe(key('d')));
    assert!(app.key_is_safe(key('e')));
}

#[test]
fn n_opens_an_empty_form_in_each_list() {
    let mut app = booted();
    press(&mut app, key('3'));
    press(&mut app, key('n'));
    match &app.mode {
        Mode::NewProject(f) => {
            assert!(f.edit_id.is_none());
            assert_eq!(f.focused, 0);
            assert_eq!(f.fields[0].value, "");
        },
        m => panic!("unexpected mode {:?}", m),
    }
    assert_eq!(app.focus, Focus::Right);
    let mut app = booted();
    press(&mut app, key('1'));
    let before = app.mode.clone();
    press(&mut app, key('n'));
    assert_eq!(app.mode, before);
}

#[test]
fn slash_and_colon_open_empty_prompts() {
    let mut app = booted();
    let e = press(&mut app, key('/'));
    assert!(matches!(e, Effect::Nothing));
    assert_eq!(app.mode, Mode::Search(String::new()));
    assert_eq!(app.input, "");
    press(&mut app, code(KeyCode::Esc));
    let e = press(&mut app, key(':'));
    assert!(matches!(e, Effect::Nothing));
    assert_eq!(app.mode, Mode::Command(String::new()));
    typed(&mut app, " QUIT ");
    press(&mut app, code(KeyCode::Enter));
    assert!(app.should_quit);
    assert_eq!(app.mode, Mode::Normal);
}

#[test]
fn d_names_the_highlighted_row_before_deleting() {
    let mut app = booted();
    press(&mut app, key('3'));
    press(&mut app, key('j'));
    let e = press(&mut app, key('d'));
    assert!(matches!(e, Effect::Nothing));
    match &app.mode {
        Mode::ConfirmDelete { kind, id, .. } => {
            assert_eq!(kind, "project");
            assert_eq!(id, "p1");
        },
        m => panic!("unexpected mode {:?}", m),
    }
}

#[test]
fn escape_on_an_hour_delete_goes_to_normal() {
    let mut app = hours_log();
    app.confirm_hours_delete("p1".to_string(), "a1".to_string(), "2024-05-06", "2");
    let e = press(&mut app, code(KeyCode::Esc));
    assert!(matches!(e, Effect::Nothing));
    assert_eq!(app.mode, Mode::Normal);
}
