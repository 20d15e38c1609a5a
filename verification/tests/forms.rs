use rhizome::forms::{NewClientForm, NewContactForm, NewProjectForm};
use rhizome::models::{Client, ContactMoment, Project, ProjectStatus};

fn client() -> Client {
    Client {
        id: "c1".to_string(),
        name: "North & Co".to_string(),
        domain: Some("north.co".to_string()),
        city: Some("Oslo".to_string()),
        country: None,
        primary_contact: Some("Ada".to_string()),
        primary_role: None,
        currency: "NOK".to_string(),
        default_rate_cents: Some(12550),
        status: "active".to_string(),
        acct_code: Some("n-001".to_string()),
        created_at: "2024-01-01T00:00:00Z".to_string(),
        updated_at: "2024-01-02T00:00:00Z".to_string(),
    }
}

fn project() -> Project {
    Project {
        id: "p1".to_string(),
        client_id: "c1".to_string(),
        name: "Halyard".to_string(),
        summary: Some("site".to_string()),
        status: ProjectStatus::Blocked,
        budget_hours_bits: None,
        budget_kind: "monthly".to_string(),
        spent_hours_bits: 0,
        rate_cents: Some(9999),
        deadline: None,
        owner: Some("kim".to_string()),
        repo_url: None,
        created_at: "2024-01-01T00:00:00Z".to_string(),
        updated_at: "2024-01-01T00:00:00Z".to_string(),
        milestones: Vec::new(),
        pulse: Vec::new(),
        client_name: Some("North & Co".to_string()),
    }
}

fn values(fields: &[rhizome::forms::FormField]) -> Vec<String> {
    fields.iter().map(|f| f.value.clone()).collect()
}

#[test]
fn client_form_starts_empty_with_euro() {
    let f = NewClientForm::new();
    assert_eq!(f.fields.len(), 8);
    assert_eq!(values(&f.fields), vec!["", "", "", "", "", "", "EUR", ""]);
    assert_eq!(f.fields[0].label, "name");
    assert!(f.fields[0].required);
    assert!(!f.fields[7].required);
    assert_eq!(f.fields[7].label, "rate €/h");
    assert_eq!(f.focused, 0);
    assert!(f.error.is_none());
    assert!(f.edit_id.is_none());
    assert!(!f.is_valid());
}

#[test]
fn client_form_from_client_fills_fields() {
    let f = NewClientForm::from_client(&client());
    assert_eq!(
        values(&f.fields),
        vec!["North & Co", "north.co", "Oslo", "", "Ada", "", "NOK", "125"]
    );
    assert_eq!(f.edit_id.as_deref(), Some("c1"));
    assert!(f.is_valid());
}

#[test]
fn client_form_blank_name_is_invalid() {
    let mut f = NewClientForm::new();
    f.fields[0].value = "   ".to_string();
    assert!(!f.is_valid());
    f.fields[0].value = " x ".to_string();
    assert!(f.is_valid());
}

#[test]
fn form_focus_wraps_both_ways() {
    let mut f = NewClientForm::new();
    f.prev_field();
    assert_eq!(f.focused, 7);
    f.next_field();
    assert_eq!(f.focused, 0);
    for _ in 0..3 {
        f.next_field();
    }
    assert_eq!(f.focused, 3);
    f.prev_field();
    f.next_field();
    assert_eq!(f.focused, 3);
}

#[test]
fn project_form_starts_active_total() {
    let f = NewProjectForm::new();
    assert_eq!(f.fields.len(), 10);
    assert_eq!(f.fields[3].value, "active");
    assert_eq!(f.fields[4].value, "total");
    assert!(f.fields[0].required && f.fields[1].required);
    assert!(!f.is_valid());
}

#[test]
fn project_form_from_project_fills_fields() {
    let f = NewProjectForm::from_project(&project(), "12.5".to_string());
    assert_eq!(
        values(&f.fields),
        vec!["Halyard", "North & Co", "site", "blocked", "monthly", "12.5", "99", "", "kim", ""]
    );
    assert_eq!(f.edit_id.as_deref(), Some("p1"));
    assert!(f.is_valid());
}

#[test]
fn project_budget_kind_cycles_between_two() {
    let mut f = NewProjectForm::new();
    f.cycle_budget_kind();
    assert_eq!(f.fields[4].value, "monthly");
    f.cycle_budget_kind();
    assert_eq!(f.fields[4].value, "total");
    f.fields[4].value = "weird".to_string();
    f.cycle_budget_kind();
    assert_eq!(f.fields[4].value, "monthly");
}

#[test]
fn project_status_cycles_through_all() {
    let mut f = NewProjectForm::new();
    let mut seen = Vec::new();
    for _ in 0..6 {
        f.cycle_status(true);
        seen.push(f.fields[3].value.clone());
    }
    assert_eq!(seen, vec!["running", "blocked", "archived", "lead", "pending", "active"]);
    f.cycle_status(false);
    assert_eq!(f.fields[3].value, "pending");
    f.cycle_status(true);
    assert_eq!(f.fields[3].value, "active");
    f.fields[3].value = "unknown".to_string();
    f.cycle_status(false);
    assert_eq!(f.fields[3].value, "archived");
}

#[test]
fn contact_form_for_client_on_date() {
    let f = NewContactForm::for_client_on(&client(), "2024-05-06".to_string());
    assert_eq!(values(&f.fields), vec!["2024-05-06", "email", ""]);
    assert_eq!(f.client_id, "c1");
    assert_eq!(f.client_name, "North & Co");
    assert!(f.edit_id.is_none());
    assert!(!f.is_valid());
}

#[test]
fn contact_form_for_client_today_is_a_date() {
    let f = NewContactForm::for_client(&client());
    assert_eq!(f.fields[0].value.len(), 10);
    let d: Vec<char> = f.fields[0].value.chars().collect();
    assert_eq!((d[4], d[7]), ('-', '-'));
    assert!(d.iter().enumerate().all(|(i, c)| i == 4 || i == 7 || c.is_ascii_digit()));
    assert_eq!(f.fields[1].value, "email");
}

#[test]
fn contact_form_from_contact() {
    let c = ContactMoment {
        id: "m1".to_string(),
        client_id: "c1".to_string(),
        kind: "phone".to_string(),
        summary: "call".to_string(),
        date: "2024-02-03".to_string(),
        created_at: "2024-02-03T10:00:00Z".to_string(),
    };
    let f = NewContactForm::from_contact(&client(), &c);
    assert_eq!(values(&f.fields), vec!["2024-02-03", "phone", "call"]);
    assert_eq!(f.edit_id.as_deref(), Some("m1"));
    assert!(f.is_valid());
}

#[test]
fn contact_kind_cycles_and_undoes() {
    let mut f = NewContactForm::for_client_on(&client(), "2024-05-06".to_string());
    f.cycle_kind_forward();
    assert_eq!(f.fields[1].value, "phone");
    f.cycle_kind_forward();
    assert_eq!(f.fields[1].value, "meeting");
    f.cycle_kind_forward();
    assert_eq!(f.fields[1].value, "email");
    f.cycle_kind_backward();
    assert_eq!(f.fields[1].value, "meeting");
    f.cycle_kind_forward();
    assert_eq!(f.fields[1].value, "email");
}
