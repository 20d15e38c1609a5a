use rhizome::app::{Focus, Mode, View};
use rhizome::forms::NewClientForm;
use rhizome::models::{Client, Milestone, Project, ProjectStatus, Stats};
use rhizome::screen::{
    choice_cell, completion_view, entries_label, entry_date, field_cell, graph_rows, hours_popup, inner_area,
    mode_label, next_up, normal_hints, padded, repair_popup, search_placeholder, search_popup, stat_notes, Area,
    GraphRow, Tone,
};
use rhizome::widgets::{client_ghost, client_ghost_fits, col, relative_age, relative_time, tail_chars};

fn client(id: &str, name: &str) -> Client {
    Client {
        id: id.to_string(),
        name: name.to_string(),
        domain: None,
        city: None,
        country: None,
        primary_contact: None,
        primary_role: None,
        currency: "EUR".to_string(),
        default_rate_cents: None,
        status: "active".to_string(),
        acct_code: None,
        created_at: String::new(),
        updated_at: String::new(),
    }
}

fn project(client_id: &str, name: &str, status: ProjectStatus) -> Project {
    Project {
        id: name.to_string(),
        client_id: client_id.to_string(),
        name: name.to_string(),
        summary: None,
        status,
        budget_hours_bits: None,
        budget_kind: "total".to_string(),
        spent_hours_bits: 0,
        rate_cents: None,
        deadline: None,
        owner: None,
        repo_url: None,
        created_at: String::new(),
        updated_at: String::new(),
        milestones: Vec::new(),
        pulse: Vec::new(),
        client_name: None,
    }
}

fn milestone(title: &str, done: bool, due: Option<&str>) -> Milestone {
    Milestone {
        id: title.to_string(),
        title: title.to_string(),
        done_at: if done { Some("2024-01-01".to_string()) } else { None },
        due_at: due.map(|d| d.to_string()),
        ord: 0,
    }
}

#[test]
fn col_cuts_and_pads() {
    assert_eq!(col("abc", 5), "abc  ");
    assert_eq!(col("abcdef", 3), "abc");
    assert_eq!(col("éé", 2), "éé");
    assert_eq!(col("", 0), "");
}

#[test]
fn tail_keeps_the_end() {
    assert_eq!(tail_chars("abcdef", 3), "def");
    assert_eq!(tail_chars("ab", 3), "ab");
    assert_eq!(tail_chars("ab", 0), "");
}

#[test]
fn ghost_completes_client_names() {
    let cs = vec![client("1", "Zilt"), client("2", "North & Co")];
    assert_eq!(client_ghost("no", &cs), "rth & Co");
    assert_eq!(client_ghost("NOR", &cs), "th & Co");
    assert_eq!(client_ghost("", &cs), "");
    assert_eq!(client_ghost("q", &cs), "");
    assert!(client_ghost_fits("no", &cs));
    let odd = vec![client("3", "é")];
    assert!(client_ghost_fits("é", &odd));
    assert_eq!(client_ghost("é", &odd), "");
}

#[test]
fn ages_read_naturally() {
    assert_eq!(relative_age(5), "5s");
    assert_eq!(relative_age(-3), "-3s");
    assert_eq!(relative_age(59), "59s");
    assert_eq!(relative_age(60), "1min");
    assert_eq!(relative_age(3599), "59min");
    assert_eq!(relative_age(7200), "2h");
    assert_eq!(relative_age(86400), "yesterday");
    assert_eq!(relative_age(172799), "yesterday");
    assert_eq!(relative_age(172800), "2d");
    assert_eq!(relative_time("not a time"), "not a time");
    assert!(relative_time("2000-01-01T00:00:00Z").ends_with('d'));
}

#[test]
fn banners_follow_modes() {
    assert_eq!(mode_label(&Mode::Normal), ("── NORMAL ──", Tone::Brand));
    assert_eq!(mode_label(&Mode::Command(String::new())), ("── COMMAND ──", Tone::Amber));
    let mut f = NewClientForm::new();
    assert_eq!(mode_label(&Mode::NewClient(f.clone())), ("── NEW CLIENT ──", Tone::Green));
    f.edit_id = Some("c".to_string());
    assert_eq!(mode_label(&Mode::NewClient(f)), ("── EDIT CLIENT ──", Tone::Cyan));
    assert_eq!(
        mode_label(&Mode::RepairProject { idx: 0, chosen: ProjectStatus::Active, error: None }),
        ("── REPAIR ──", Tone::Red)
    );
}

#[test]
fn hints_follow_view_and_focus() {
    assert_eq!(normal_hints(View::Projects, Focus::Right), vec![("/", "search"), ("q", "quit")]);
    let h = normal_hints(View::Clients, Focus::Left);
    assert_eq!(h.len(), 8);
    assert_eq!(h[3], ("c", "contact"));
    assert_eq!(normal_hints(View::Dashboard, Focus::Right)[1], ("1 2 3", "nav"));
}

#[test]
fn popups_are_placed() {
    let area = Area { x: 0, y: 0, width: 100, height: 40 };
    assert_eq!(search_popup(area, 3), Area { x: 13, y: 3, width: 74, height: 9 });
    assert_eq!(search_popup(area, 30), Area { x: 13, y: 3, width: 74, height: 20 });
    let small = Area { x: 2, y: 1, width: 10, height: 6 };
    assert_eq!(search_popup(small, 0), Area { x: 4, y: 4, width: 6, height: 2 });
    assert_eq!(repair_popup(area, false), Area { x: 20, y: 15, width: 60, height: 9 });
    assert_eq!(repair_popup(area, true), Area { x: 20, y: 15, width: 60, height: 10 });
    assert_eq!(hours_popup(area, 36, 7), Area { x: 32, y: 16, width: 36, height: 7 });
    assert_eq!(hours_popup(small, 36, 7), Area { x: 2, y: 1, width: 10, height: 6 });
    assert_eq!(inner_area(area, 2), Area { x: 2, y: 1, width: 96, height: 38 });
    assert_eq!(inner_area(small, 1), Area { x: 3, y: 2, width: 8, height: 4 });
}

#[test]
fn placeholders_and_notes() {
    assert_eq!(search_placeholder(""), "  type to search across clients and projects");
    assert_eq!(search_placeholder("x"), "  no results");
    let s = Stats { total_clients: 3, active_projects: 1, total_projects: 4, attention_count: 2, clients_this_quarter: 0 };
    assert_eq!(stat_notes(&s), (String::new(), "of 4 total".to_string(), "need follow-up".to_string()));
    let s = Stats { total_clients: 3, active_projects: 0, total_projects: 0, attention_count: 0, clients_this_quarter: 2 };
    assert_eq!(stat_notes(&s), ("+2 this quarter".to_string(), String::new(), String::new()));
    assert_eq!(entries_label(1), "  1 entry");
    assert_eq!(entries_label(3), "  3 entries");
    assert_eq!(entry_date("2024-05-06T10:00:00Z"), "2024-05-06");
    assert_eq!(entry_date("2024"), "2024");
}

#[test]
fn form_cells_are_laid_out() {
    assert_eq!(padded("ab", 4), "ab  ");
    assert_eq!(padded("abcdef", 4), "abcdef");
    assert_eq!(field_cell("abc", true, 6), "abc█  ");
    assert_eq!(field_cell("abcdefgh", false, 4), "efgh");
    assert_eq!(field_cell("abcdefgh", true, 4), "fgh█");
    assert_eq!(choice_cell("active", true), "◀ active ▶");
    assert_eq!(choice_cell("active", false), "  active  ");
    assert_eq!(
        completion_view("no", "rth & Co", 28),
        ("no".to_string(), "rth & Co".to_string(), " ".repeat(17))
    );
    assert_eq!(
        completion_view("abcdef", "ghijk", 5),
        ("cdef".to_string(), String::new(), String::new())
    );
    assert_eq!(completion_view("ab", "cdefgh", 6), ("ab".to_string(), "cde".to_string(), String::new()));
}

#[test]
fn graph_shows_clients_and_live_projects() {
    let clients = vec![client("c1", "North"), client("c2", "Zilt"), client("c3", "Solo")];
    let projects = vec![
        project("c1", "halyard", ProjectStatus::Pending),
        project("c1", "atlas", ProjectStatus::Active),
        project("c1", "old", ProjectStatus::Archived),
        project("c2", "ember", ProjectStatus::Active),
    ];
    let rows = graph_rows(&clients, &projects);
    assert_eq!(rows.len(), 2 + 3 + 2 + 1);
    assert!(matches!(rows[0], GraphRow::Title));
    assert!(matches!(rows[1], GraphRow::Stem));
    match &rows[2] {
        GraphRow::ClientProject { prefix, client, link, project, status } => {
            assert_eq!(*prefix, "├── ");
            assert_eq!(client, &format!("{:<22}", "North"));
            assert_eq!(*link, "────┬── ");
            assert_eq!(project, &format!("{:<12}", "halyard"));
            assert_eq!(*status, ProjectStatus::Pending);
        },
        r => panic!("unexpected row {:?}", r),
    }
    match &rows[3] {
        GraphRow::Branch { lead, project, status } => {
            assert_eq!(lead, &format!("│   {}└── ", " ".repeat(12)));
            assert_eq!(project, &format!("{:<12}", "atlas"));
            assert_eq!(*status, ProjectStatus::Active);
        },
        r => panic!("unexpected row {:?}", r),
    }
    assert!(matches!(rows[4], GraphRow::Stem));
    match &rows[5] {
        GraphRow::ClientProject { link, .. } => assert_eq!(*link, "──── "),
        r => panic!("unexpected row {:?}", r),
    }
    assert!(matches!(rows[6], GraphRow::Stem));
    match &rows[7] {
        GraphRow::Client { prefix, name } => {
            assert_eq!(*prefix, "└── ");
            assert_eq!(name, "Solo");
        },
        r => panic!("unexpected row {:?}", r),
    }
}

#[test]
fn next_up_lists_four_open_milestones() {
    let mut a = project("c1", "a", ProjectStatus::Active);
    a.milestones = vec![milestone("m1", false, Some("2024-06-01")), milestone("m2", true, None), milestone("m3", false, None)];
    let mut lead = project("c1", "l", ProjectStatus::Lead);
    lead.milestones = vec![milestone("x", false, None)];
    let mut b = project("c1", "b", ProjectStatus::Running);
    b.milestones = vec![milestone("n1", false, None), milestone("n2", false, Some("d")), milestone("n3", false, None)];
    let items = next_up(&vec![a, lead, b]);
    assert_eq!(
        items,
        vec![
            ("a · m1".to_string(), "2024-06-01".to_string()),
            ("a · m3".to_string(), String::new()),
            ("b · n1".to_string(), String::new()),
            ("b · n2".to_string(), "d".to_string()),
        ]
    );
}

#[test]
fn milestones_list_by_ord_and_mark_current() {
    let mut ms = vec![milestone("c", false, None), milestone("a", true, None), milestone("b", false, None), milestone("d", false, None)];
    ms[0].ord = 3;
    ms[1].ord = 1;
    ms[2].ord = 2;
    ms[3].ord = 2;
    assert_eq!(rhizome::screen::milestone_order(&ms), vec![1, 2, 3, 0]);
    assert!(!rhizome::screen::milestone_is_current(&ms, 1));
    assert!(!rhizome::screen::milestone_is_current(&ms, 2));
    ms[1].done_at = None;
    assert!(rhizome::screen::milestone_is_current(&ms, 1));
    assert!(rhizome::screen::milestone_is_current(&ms, 0));
}
