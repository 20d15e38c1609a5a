//! The input forms for clients, projects and contact moments: their initial
//! contents, validity, focus movement and the value cycling of choice fields.
use vstd::prelude::*;
use crate::dates::{today_ymd, ymd_text};
use crate::models::{
    contact_kind_at, contact_kinds, status_at, status_index, status_name, status_seq, trunc_div, Client,
    ContactMoment, Project, ProjectStatus,
};
use crate::text::{
    copy_string, i64_text, int_text, is_blank, is_blank_str, opt_or_default, opt_or_empty, owned,
    str_eq,
};

verus! {

/// One labelled input of a form.
#[derive(Debug, Clone, PartialEq)]
pub struct FormField {
    pub label: &'static str,
    pub value: String,
    pub required: bool,
}

/// What a field holds: its label, its text and whether it is required.
pub open spec fn field_view(f: FormField) -> (Seq<char>, Seq<char>, bool) {
    (f.label@, f.value@, f.required)
}

/// The views of all fields of a form.
pub open spec fn fields_view(fields: Seq<FormField>) -> Seq<(Seq<char>, Seq<char>, bool)> {
    fields.map_values(|f: FormField| field_view(f))
}

/// The focus after moving forward among `n` fields, wrapping around.
pub open spec fn next_index(i: nat, n: nat) -> nat {
    (((i + 1) as int) % (n as int)) as nat
}

/// The focus after moving backward among `n` fields, wrapping around.
pub open spec fn prev_index(i: nat, n: nat) -> nat {
    if i == 0 { (n - 1) as nat } else { (i - 1) as nat }
}

/// `Some(v)` viewed as text, `None` as the empty text: `unwrap_or_default`.
pub open spec fn rate_units_text(cents: Option<i64>) -> Seq<char> {
    match cents {
        Some(c) => int_text(trunc_div(c as int, 100)),
        None => Seq::empty(),
    }
}

fn field(label: &'static str, value: String, required: bool) -> (f: FormField)
    ensures
        field_view(f) == (label@, value@, required),
{
    FormField { label, value, required }
}

fn empty_field(label: &'static str, required: bool) -> (f: FormField)
    ensures
        field_view(f) == (label@, Seq::<char>::empty(), required),
{
    FormField { label, value: String::new(), required }
}

impl FormField {
    /// The same field holding `value`.
    pub fn with_value(&self, value: String) -> (f: FormField)
        ensures
            field_view(f) == (self.label@, value@, self.required),
    {
        FormField { label: self.label, value, required: self.required }
    }
}

/// Replaces the text of field `k`, leaving the other fields as they were.
pub(crate) fn set_field_value(fields: &mut Vec<FormField>, k: usize, value: String)
    requires
        k < old(fields)@.len(),
    ensures
        final(fields)@.len() == old(fields)@.len(),
        fields_view(final(fields)@) == fields_view(old(fields)@).update(
            k as int,
            (old(fields)@[k as int].label@, value@, old(fields)@[k as int].required),
        ),
{
    let f = fields[k].with_value(value);
    fields.set(k, f);
    assert(fields_view(fields@) =~= fields_view(old(fields)@).update(
        k as int,
        (old(fields)@[k as int].label@, value@, old(fields)@[k as int].required),
    ));
}

fn rate_units_string(cents: Option<i64>) -> (r: String)
    ensures
        r@ == rate_units_text(cents),
{
    match cents {
        Some(c) => i64_text(c / 100),
        None => String::new(),
    }
}

// ── New-client form ──────────────────────────────────────────────────────────

/// The form for creating (or, with `edit_id`, editing) a client.
#[derive(Debug, Clone, PartialEq)]
pub struct NewClientForm {
    pub fields: Vec<FormField>,
    pub focused: usize,
    pub error: Option<String>,
    /// The id of the client being edited; `None` when creating one.
    pub edit_id: Option<String>,
}

/// The client form's fields: labels, initial texts and which are required.
pub open spec fn client_form_fields(
    name: Seq<char>,
    domain: Seq<char>,
    city: Seq<char>,
    country: Seq<char>,
    contact: Seq<char>,
    role: Seq<char>,
    currency: Seq<char>,
    rate: Seq<char>,
) -> Seq<(Seq<char>, Seq<char>, bool)> {
    seq![
        ("name"@, name, true),
        ("domain"@, domain, false),
        ("city"@, city, false),
        ("country"@, country, false),
        ("contact"@, contact, false),
        ("role"@, role, false),
        ("currency"@, currency, false),
        ("rate €/h"@, rate, false),
    ]
}

impl NewClientForm {
    /// An empty form, with currency `EUR`, focused on the name.
    pub fn new() -> (f: NewClientForm)
        ensures
            fields_view(f.fields@) == client_form_fields(
                Seq::empty(),
                Seq::empty(),
                Seq::empty(),
                Seq::empty(),
                Seq::empty(),
                Seq::empty(),
                "EUR"@,
                Seq::empty(),
            ),
            f.focused == 0,
            f.error is None,
            f.edit_id is None,
    {
        let fields = vec![
            empty_field("name", true),
            empty_field("domain", false),
            empty_field("city", false),
            empty_field("country", false),
            empty_field("contact", false),
            empty_field("role", false),
            field("currency", owned("EUR"), false),
            empty_field("rate €/h", false),
        ];
        let f = NewClientForm { fields, focused: 0, error: None, edit_id: None };
        assert(fields_view(f.fields@) =~= client_form_fields(
            Seq::empty(),
            Seq::empty(),
            Seq::empty(),
            Seq::empty(),
            Seq::empty(),
            Seq::empty(),
            "EUR"@,
            Seq::empty(),
        ));
        f
    }

    /// A form filled in from an existing client, for editing it.
    pub fn from_client(client: &Client) -> (f: NewClientForm)
        ensures
            fields_view(f.fields@) == client_form_fields(
                client.name@,
                opt_or_empty(client.domain),
                opt_or_empty(client.city),
                opt_or_empty(client.country),
                opt_or_empty(client.primary_contact),
                opt_or_empty(client.primary_role),
                client.currency@,
                rate_units_text(client.default_rate_cents),
            ),
            f.focused == 0,
            f.error is None,
            f.edit_id matches Some(id) && id@ == client.id@,
    {
        let fields = vec![
            field("name", copy_string(&client.name), true),
            field("domain", opt_or_default(&client.domain), false),
            field("city", opt_or_default(&client.city), false),
            field("country", opt_or_default(&client.country), false),
            field("contact", opt_or_default(&client.primary_contact), false),
            field("role", opt_or_default(&client.primary_role), false),
            field("currency", copy_string(&client.currency), false),
            field("rate €/h", rate_units_string(client.default_rate_cents), false),
        ];
        let f = NewClientForm {
            fields,
            focused: 0,
            error: None,
            edit_id: Some(copy_string(&client.id)),
        };
        assert(fields_view(f.fields@) =~= client_form_fields(
            client.name@,
            opt_or_empty(client.domain),
            opt_or_empty(client.city),
            opt_or_empty(client.country),
            opt_or_empty(client.primary_contact),
            opt_or_empty(client.primary_role),
            client.currency@,
            rate_units_text(client.default_rate_cents),
        ));
        f
    }

    /// A client form can be saved once the name is not blank.
    pub fn is_valid(&self) -> (b: bool)
        requires
            self.fields@.len() >= 1,
        ensures
            b == !is_blank(self.fields@[0].value@),
    {
        !is_blank_str(self.fields[0].value.as_str())
    }

    /// Moves the focus to the next field, wrapping around.
    pub fn next_field(&mut self)
        requires
            old(self).fields@.len() > 0,
            old(self).focused < usize::MAX,
        ensures
            final(self).focused == next_index(
                old(self).focused as nat,
                old(self).fields@.len(),
            ),
            final(self).focused < final(self).fields@.len(),
            final(self).fields == old(self).fields,
            final(self).error == old(self).error,
            final(self).edit_id == old(self).edit_id,
    {
        self.focused = (self.focused + 1) % self.fields.len();
    }

    /// Moves the focus to the previous field, wrapping around.
    pub fn prev_field(&mut self)
        requires
            old(self).focused > 0 || old(self).fields@.len() > 0,
        ensures
            final(self).focused == prev_index(
                old(self).focused as nat,
                old(self).fields@.len(),
            ),
            old(self).focused < old(self).fields@.len() ==> final(self).focused
                < final(self).fields@.len(),
            final(self).fields == old(self).fields,
            final(self).error == old(self).error,
            final(self).edit_id == old(self).edit_id,
    {
        self.focused = if self.focused == 0 {
            self.fields.len() - 1
        } else {
            self.focused - 1
        };
    }
}

// ── New-project form ─────────────────────────────────────────────────────────

/// The form for creating (or, with `edit_id`, editing) a project.
/// Fields: 0 name, 1 client, 2 summary, 3 status, 4 budget kind, 5 budget hours,
/// 6 rate, 7 deadline, 8 owner, 9 repo.
#[derive(Debug, Clone, PartialEq)]
pub struct NewProjectForm {
    pub fields: Vec<FormField>,
    pub focused: usize,
    pub error: Option<String>,
    pub edit_id: Option<String>,
}

/// The project form's fields.
pub open spec fn project_form_fields(
    name: Seq<char>,
    client: Seq<char>,
    summary: Seq<char>,
    status: Seq<char>,
    budget: Seq<char>,
    budget_h: Seq<char>,
    rate: Seq<char>,
    deadline: Seq<char>,
    owner: Seq<char>,
    repo: Seq<char>,
) -> Seq<(Seq<char>, Seq<char>, bool)> {
    seq![
        ("name"@, name, true),
        ("client"@, client, true),
        ("summary"@, summary, false),
        ("status"@, status, false),
        ("budget"@, budget, false),
        ("budget h"@, budget_h, false),
        ("rate €/h"@, rate, false),
        ("deadline"@, deadline, false),
        ("owner"@, owner, false),
        ("repo"@, repo, false),
    ]
}

/// The budget kind after `v` in the cycle `total → monthly → total`; an unknown
/// kind counts as `total`.
pub open spec fn next_budget_kind(v: Seq<char>) -> Seq<char> {
    if v == "monthly"@ { "total"@ } else { "monthly"@ }
}

/// The position of a status name in the cycling order; an unknown name counts as 0.
pub open spec fn status_position_of_name(v: Seq<char>) -> nat {
    if v == "lead"@ {
        0
    } else if v == "pending"@ {
        1
    } else if v == "active"@ {
        2
    } else if v == "running"@ {
        3
    } else if v == "blocked"@ {
        4
    } else if v == "archived"@ {
        5
    } else {
        0
    }
}

/// The status name one step forward (or backward) from `v` in the cycling order.
pub open spec fn cycled_status_name(v: Seq<char>, forward: bool) -> Seq<char> {
    let cur = status_position_of_name(v);
    let next = if forward { (cur + 1) % 6 } else { (cur + 5) % 6 };
    status_name(status_seq()[next as int])
}

fn status_position_from_name(v: &str) -> (i: usize)
    ensures
        i == status_position_of_name(v@),
{
    if str_eq(v, "lead") {
        0
    } else if str_eq(v, "pending") {
        1
    } else if str_eq(v, "active") {
        2
    } else if str_eq(v, "running") {
        3
    } else if str_eq(v, "blocked") {
        4
    } else if str_eq(v, "archived") {
        5
    } else {
        0
    }
}

impl NewProjectForm {
    /// An empty form with status `active` and budget kind `total`.
    pub fn new() -> (f: NewProjectForm)
        ensures
            fields_view(f.fields@) == project_form_fields(
                Seq::empty(),
                Seq::empty(),
                Seq::empty(),
                "active"@,
                "total"@,
                Seq::empty(),
                Seq::empty(),
                Seq::empty(),
                Seq::empty(),
                Seq::empty(),
            ),
            f.focused == 0,
            f.error is None,
            f.edit_id is None,
    {
        let fields = vec![
            empty_field("name", true),
            empty_field("client", true),
            empty_field("summary", false),
            field("status", owned("active"), false),
            field("budget", owned("total"), false),
            empty_field("budget h", false),
            empty_field("rate €/h", false),
            empty_field("deadline", false),
            empty_field("owner", false),
            empty_field("repo", false),
        ];
        let f = NewProjectForm { fields, focused: 0, error: None, edit_id: None };
        assert(fields_view(f.fields@) =~= project_form_fields(
            Seq::empty(),
            Seq::empty(),
            Seq::empty(),
            "active"@,
            "total"@,
            Seq::empty(),
            Seq::empty(),
            Seq::empty(),
            Seq::empty(),
            Seq::empty(),
        ));
        f
    }

    /// A form filled in from an existing project. The budget hours are given as
    /// text (`budget_hours_text`), since hour values are floating point.
    pub fn from_project(project: &Project, budget_hours_text: String) -> (f: NewProjectForm)
        ensures
            fields_view(f.fields@) == project_form_fields(
                project.name@,
                opt_or_empty(project.client_name),
                opt_or_empty(project.summary),
                status_name(project.status),
                project.budget_kind@,
                budget_hours_text@,
                rate_units_text(project.rate_cents),
                opt_or_empty(project.deadline),
                opt_or_empty(project.owner),
                opt_or_empty(project.repo_url),
            ),
            f.focused == 0,
            f.error is None,
            f.edit_id matches Some(id) && id@ == project.id@,
    {
        let fields = vec![
            field("name", copy_string(&project.name), true),
            field("client", opt_or_default(&project.client_name), true),
            field("summary", opt_or_default(&project.summary), false),
            field("status", owned(project.status.as_str()), false),
            field("budget", copy_string(&project.budget_kind), false),
            field("budget h", budget_hours_text, false),
            field("rate €/h", rate_units_string(project.rate_cents), false),
            field("deadline", opt_or_default(&project.deadline), false),
            field("owner", opt_or_default(&project.owner), false),
            field("repo", opt_or_default(&project.repo_url), false),
        ];
        let f = NewProjectForm {
            fields,
            focused: 0,
            error: None,
            edit_id: Some(copy_string(&project.id)),
        };
        assert(fields_view(f.fields@) =~= project_form_fields(
            project.name@,
            opt_or_empty(project.client_name),
            opt_or_empty(project.summary),
            status_name(project.status),
            project.budget_kind@,
            budget_hours_text@,
            rate_units_text(project.rate_cents),
            opt_or_empty(project.deadline),
            opt_or_empty(project.owner),
            opt_or_empty(project.repo_url),
        ));
        f
    }

    /// Switches the budget kind (field 4) between `total` and `monthly`.
    pub fn cycle_budget_kind(&mut self)
        requires
            old(self).fields@.len() > 4,
        ensures
            final(self).fields@.len() == old(self).fields@.len(),
            fields_view(final(self).fields@) == fields_view(old(self).fields@).update(
                4,
                (
                    old(self).fields@[4].label@,
                    next_budget_kind(old(self).fields@[4].value@),
                    old(self).fields@[4].required,
                ),
            ),
            final(self).focused == old(self).focused,
            final(self).error == old(self).error,
            final(self).edit_id == old(self).edit_id,
    {
        let next = if str_eq(self.fields[4].value.as_str(), "monthly") {
            owned("total")
        } else {
            owned("monthly")
        };
        set_field_value(&mut self.fields, 4, next);
    }

    /// Moves the status (field 3) one step forward or backward in the cycling order.
    pub fn cycle_status(&mut self, forward: bool)
        requires
            old(self).fields@.len() > 3,
        ensures
            final(self).fields@.len() == old(self).fields@.len(),
            fields_view(final(self).fields@) == fields_view(old(self).fields@).update(
                3,
                (
                    old(self).fields@[3].label@,
                    cycled_status_name(old(self).fields@[3].value@, forward),
                    old(self).fields@[3].required,
                ),
            ),
            final(self).focused == old(self).focused,
            final(self).error == old(self).error,
            final(self).edit_id == old(self).edit_id,
    {
        let n: usize = 6;
        let cur = status_position_from_name(self.fields[3].value.as_str());
        let next = if forward { (cur + 1) % n } else { (cur + n - 1) % n };
        let s: ProjectStatus = status_at(next);
        set_field_value(&mut self.fields, 3, owned(s.as_str()));
    }

    /// A project form can be saved once name and client are not blank.
    pub fn is_valid(&self) -> (b: bool)
        requires
            self.fields@.len() >= 2,
        ensures
            b == (!is_blank(self.fields@[0].value@) && !is_blank(self.fields@[1].value@)),
    {
        !is_blank_str(self.fields[0].value.as_str()) && !is_blank_str(
            self.fields[1].value.as_str(),
        )
    }

    /// Moves the focus to the next field, wrapping around.
    pub fn next_field(&mut self)
        requires
            old(self).fields@.len() > 0,
            old(self).focused < usize::MAX,
        ensures
            final(self).focused == next_index(
                old(self).focused as nat,
                old(self).fields@.len(),
            ),
            final(self).focused < final(self).fields@.len(),
            final(self).fields == old(self).fields,
            final(self).error == old(self).error,
            final(self).edit_id == old(self).edit_id,
    {
        self.focused = (self.focused + 1) % self.fields.len();
    }

    /// Moves the focus to the previous field, wrapping around.
    pub fn prev_field(&mut self)
        requires
            old(self).focused > 0 || old(self).fields@.len() > 0,
        ensures
            final(self).focused == prev_index(
                old(self).focused as nat,
                old(self).fields@.len(),
            ),
            old(self).focused < old(self).fields@.len() ==> final(self).focused
                < final(self).fields@.len(),
            final(self).fields == old(self).fields,
            final(self).error == old(self).error,
            final(self).edit_id == old(self).edit_id,
    {
        self.focused = if self.focused == 0 {
            self.fields.len() - 1
        } else {
            self.focused - 1
        };
    }
}

// ── New-contact form ─────────────────────────────────────────────────────────

/// The form for recording (or, with `edit_id`, editing) a contact moment.
/// Fields: 0 date (`YYYY-MM-DD`), 1 kind, 2 summary.
#[derive(Debug, Clone, PartialEq)]
pub struct NewContactForm {
    pub fields: Vec<FormField>,
    pub focused: usize,
    pub error: Option<String>,
    pub client_id: String,
    pub client_name: String,
    pub edit_id: Option<String>,
}

/// The contact form's fields.
pub open spec fn contact_form_fields(date: Seq<char>, kind: Seq<char>, summary: Seq<char>) -> Seq<
    (Seq<char>, Seq<char>, bool),
> {
    seq![("date"@, date, true), ("type"@, kind, true), ("summary"@, summary, true)]
}

/// The position of a contact kind in the cycling order; an unknown kind counts as 0.
pub open spec fn kind_position(v: Seq<char>) -> nat {
    if v == "email"@ {
        0
    } else if v == "phone"@ {
        1
    } else if v == "meeting"@ {
        2
    } else {
        0
    }
}

/// The contact kind one step forward (or backward) from `v`.
pub open spec fn cycled_kind(v: Seq<char>, forward: bool) -> Seq<char> {
    let cur = kind_position(v);
    contact_kinds()[(if forward { (cur + 1) % 3 } else { (cur + 2) % 3 }) as int]
}

fn kind_position_of(v: &str) -> (i: usize)
    ensures
        i == kind_position(v@),
        i < 3,
{
    if str_eq(v, "email") {
        0
    } else if str_eq(v, "phone") {
        1
    } else if str_eq(v, "meeting") {
        2
    } else {
        0
    }
}

impl NewContactForm {
    /// A form for a new contact with `client`, dated `today`, of kind `email`.
    pub fn for_client_on(client: &Client, today: String) -> (f: NewContactForm)
        ensures
            fields_view(f.fields@) == contact_form_fields(today@, "email"@, Seq::empty()),
            f.focused == 0,
            f.error is None,
            f.client_id@ == client.id@,
            f.client_name@ == client.name@,
            f.edit_id is None,
    {
        let fields = vec![
            field("date", today, true),
            field("type", owned("email"), true),
            empty_field("summary", true),
        ];
        let f = NewContactForm {
            fields,
            focused: 0,
            error: None,
            client_id: copy_string(&client.id),
            client_name: copy_string(&client.name),
            edit_id: None,
        };
        assert(fields_view(f.fields@) =~= contact_form_fields(today@, "email"@, Seq::empty()));
        f
    }

    /// A form for a new contact with `client`, dated today (local time).
    pub fn for_client(client: &Client) -> (f: NewContactForm)
        ensures
            exists|d: Seq<char>|
                ymd_text(d) && fields_view(f.fields@) == #[trigger] contact_form_fields(d, "email"@, Seq::empty()),
            f.focused == 0,
            f.error is None,
            f.client_id@ == client.id@,
            f.client_name@ == client.name@,
            f.edit_id is None,
    {
        let today = today_ymd();
        let f = Self::for_client_on(client, today);
        assert(fields_view(f.fields@) == contact_form_fields(today@, "email"@, Seq::empty()));
        f
    }

    /// A form filled in from an existing contact moment, for editing it.
    pub fn from_contact(client: &Client, contact: &ContactMoment) -> (f: NewContactForm)
        ensures
            fields_view(f.fields@) == contact_form_fields(
                contact.date@,
                contact.kind@,
                contact.summary@,
            ),
            f.focused == 0,
            f.error is None,
            f.client_id@ == client.id@,
            f.client_name@ == client.name@,
            f.edit_id matches Some(id) && id@ == contact.id@,
    {
        let fields = vec![
            field("date", copy_string(&contact.date), true),
            field("type", copy_string(&contact.kind), true),
            field("summary", copy_string(&contact.summary), true),
        ];
        let f = NewContactForm {
            fields,
            focused: 0,
            error: None,
            client_id: copy_string(&client.id),
            client_name: copy_string(&client.name),
            edit_id: Some(copy_string(&contact.id)),
        };
        assert(fields_view(f.fields@) =~= contact_form_fields(
            contact.date@,
            contact.kind@,
            contact.summary@,
        ));
        f
    }

    /// A contact form can be saved once date and summary are not blank.
    pub fn is_valid(&self) -> (b: bool)
        requires
            self.fields@.len() >= 3,
        ensures
            b == (!is_blank(self.fields@[0].value@) && !is_blank(self.fields@[2].value@)),
    {
        !is_blank_str(self.fields[0].value.as_str()) && !is_blank_str(
            self.fields[2].value.as_str(),
        )
    }

    /// Moves the kind (field 1) one step forward: email → phone → meeting → email.
    pub fn cycle_kind_forward(&mut self)
        requires
            old(self).fields@.len() > 1,
        ensures
            final(self).fields@.len() == old(self).fields@.len(),
            fields_view(final(self).fields@) == fields_view(old(self).fields@).update(
                1,
                (
                    old(self).fields@[1].label@,
                    cycled_kind(old(self).fields@[1].value@, true),
                    old(self).fields@[1].required,
                ),
            ),
            final(self).focused == old(self).focused,
            final(self).error == old(self).error,
            final(self).edit_id == old(self).edit_id,
            final(self).client_id == old(self).client_id,
            final(self).client_name == old(self).client_name,
    {
        let cur = kind_position_of(self.fields[1].value.as_str());
        let next = owned(contact_kind_at((cur + 1) % 3));
        set_field_value(&mut self.fields, 1, next);
    }

    /// Moves the kind (field 1) one step backward: email → meeting → phone → email.
    pub fn cycle_kind_backward(&mut self)
        requires
            old(self).fields@.len() > 1,
        ensures
            final(self).fields@.len() == old(self).fields@.len(),
            fields_view(final(self).fields@) == fields_view(old(self).fields@).update(
                1,
                (
                    old(self).fields@[1].label@,
                    cycled_kind(old(self).fields@[1].value@, false),
                    old(self).fields@[1].required,
                ),
            ),
            final(self).focused == old(self).focused,
            final(self).error == old(self).error,
            final(self).edit_id == old(self).edit_id,
            final(self).client_id == old(self).client_id,
            final(self).client_name == old(self).client_name,
    {
        let cur = kind_position_of(self.fields[1].value.as_str());
        let next = owned(contact_kind_at((cur + 2) % 3));
        set_field_value(&mut self.fields, 1, next);
    }

    /// Moves the focus to the next field, wrapping around.
    pub fn next_field(&mut self)
        requires
            old(self).fields@.len() > 0,
            old(self).focused < usize::MAX,
        ensures
            final(self).focused == next_index(
                old(self).focused as nat,
                old(self).fields@.len(),
            ),
            final(self).focused < final(self).fields@.len(),
            final(self).fields == old(self).fields,
            final(self).error == old(self).error,
            final(self).edit_id == old(self).edit_id,
            final(self).client_id == old(self).client_id,
            final(self).client_name == old(self).client_name,
    {
        self.focused = (self.focused + 1) % self.fields.len();
    }

    /// Moves the focus to the previous field, wrapping around.
    pub fn prev_field(&mut self)
        requires
            old(self).focused > 0 || old(self).fields@.len() > 0,
        ensures
            final(self).focused == prev_index(
                old(self).focused as nat,
                old(self).fields@.len(),
            ),
            old(self).focused < old(self).fields@.len() ==> final(self).focused
                < final(self).fields@.len(),
            final(self).fields == old(self).fields,
            final(self).error == old(self).error,
            final(self).edit_id == old(self).edit_id,
            final(self).client_id == old(self).client_id,
            final(self).client_name == old(self).client_name,
    {
        self.focused = if self.focused == 0 {
            self.fields.len() - 1
        } else {
            self.focused - 1
        };
    }
}

// ── Laws ─────────────────────────────────────────────────────────────────────

/// Moving the focus forward keeps it among the fields.
pub proof fn law_next_index_in_range(i: nat, n: nat)
    requires
        n > 0,
    ensures
        next_index(i, n) < n,
{
}

/// Moving the focus backward from a field keeps it among the fields.
pub proof fn law_prev_index_in_range(i: nat, n: nat)
    requires
        i < n,
    ensures
        prev_index(i, n) < n,
{
}

/// Moving forward then backward returns to the same field.
pub proof fn law_prev_undoes_next(i: nat, n: nat)
    requires
        i < n,
    ensures
        prev_index(next_index(i, n), n) == i,
{
    let m = (i + 1) as int;
    let k = n as int;
    if m < k {
        assert(m % k == m) by (nonlinear_arith)
            requires 0 <= m < k;
    } else {
        assert(m % k == 0) by (nonlinear_arith)
            requires m == k, k > 0;
    }
}

/// Moving backward then forward returns to the same field.
pub proof fn law_next_undoes_prev(i: nat, n: nat)
    requires
        i < n,
    ensures
        next_index(prev_index(i, n), n) == i,
{
    let k = n as int;
    if i == 0 {
        assert(((k - 1) + 1) % k == 0) by (nonlinear_arith)
            requires k > 0;
    } else {
        let j = i as int;
        assert(((j - 1) + 1) % k == j) by (nonlinear_arith)
            requires 0 < j < k;
    }
}

/// Switching the budget kind twice gives back a known kind.
pub proof fn law_budget_kind_cycle(v: Seq<char>)
    requires
        v == "total"@ || v == "monthly"@,
    ensures
        next_budget_kind(next_budget_kind(v)) == v,
{
    reveal_strlit("total");
    reveal_strlit("monthly");
}

/// Stepping the status forward then backward gives back a known status name.
pub proof fn law_status_cycle_round_trip(s: ProjectStatus, forward: bool)
    ensures
        cycled_status_name(cycled_status_name(status_name(s), forward), !forward) == status_name(s),
{
    lemma_status_positions();
    let i = status_index(s);
    assert(status_position_of_name(status_name(s)) == i);
    let j: nat = if forward { (i + 1) % 6 } else { (i + 5) % 6 };
    let t = status_seq()[j as int];
    assert(status_index(t) == j);
    assert(cycled_status_name(status_name(s), forward) == status_name(t));
    assert(status_position_of_name(status_name(t)) == j);
    let k: nat = if !forward { (j + 1) % 6 } else { (j + 5) % 6 };
    assert(k == i);
    assert(status_seq()[i as int] == s);
}

/// Each status name sits at its status's position.
proof fn lemma_status_positions()
    ensures
        forall|s: ProjectStatus| status_position_of_name(#[trigger] status_name(s)) == status_index(s),
        forall|i: int| 0 <= i < 6 ==> status_index(#[trigger] status_seq()[i]) == i,
{
    reveal_strlit("lead");
    reveal_strlit("pending");
    reveal_strlit("active");
    reveal_strlit("running");
    reveal_strlit("blocked");
    reveal_strlit("archived");
    assert("pending"@ != "blocked"@) by {
        assert("pending"@[0] != "blocked"@[0]);
    }
    assert("pending"@ != "running"@) by {
        assert("pending"@[0] != "running"@[0]);
    }
    assert("running"@ != "blocked"@) by {
        assert("running"@[0] != "blocked"@[0]);
    }
    assert("lead"@.len() == 4 && "active"@.len() == 6 && "running"@.len() == 7);
    assert("blocked"@.len() == 7 && "archived"@.len() == 8 && "pending"@.len() == 7);
    assert forall|s: ProjectStatus| status_position_of_name(#[trigger] status_name(s)) == status_index(s) by {
        match s {
            ProjectStatus::Lead => {},
            ProjectStatus::Pending => {},
            ProjectStatus::Active => {},
            ProjectStatus::Running => {},
            ProjectStatus::Blocked => {},
            ProjectStatus::Archived => {},
        }
    }
}

/// Stepping the contact kind forward then backward gives back a known kind.
pub proof fn law_kind_cycle_round_trip(v: Seq<char>, forward: bool)
    requires
        v == "email"@ || v == "phone"@ || v == "meeting"@,
    ensures
        cycled_kind(cycled_kind(v, forward), !forward) == v,
{
    reveal_strlit("email");
    reveal_strlit("phone");
    reveal_strlit("meeting");
    assert("email"@ != "phone"@) by {
        assert("email"@[0] != "phone"@[0]);
    }
    assert("meeting"@.len() == 7 && "email"@.len() == 5 && "phone"@.len() == 5);
    assert("meeting"@ != "email"@);
    assert("meeting"@ != "phone"@);
    assert(kind_position("email"@) == 0);
    assert(kind_position("phone"@) == 1);
    assert(kind_position("meeting"@) == 2);
    assert(contact_kinds()[0] == "email"@);
    assert(contact_kinds()[1] == "phone"@);
    assert(contact_kinds()[2] == "meeting"@);
}

} // verus!
