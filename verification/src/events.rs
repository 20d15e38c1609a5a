//! Key handling: for each mode, what a key does to the state, and which outside
//! work (saving, deleting, reading hour values) it asks the caller to perform.
use vstd::prelude::*;
use vstd::view::View as _;
use crate::app::{App, Focus, Mode, View, SearchHit, first_row, selected_item, selected_contact_count};
use crate::search::{client_hits, project_hits, hits_view, committed};
use crate::forms::{contact_form_fields, client_form_fields, project_form_fields, rate_units_text};
use crate::app::{app_nav, BootPhase};
use crate::dates::{today_ymd, ymd_text};
use crate::forms::{
    FormField, NewClientForm, NewContactForm, NewProjectForm, field_view, fields_view, next_index,
    prev_index, set_field_value, next_budget_kind, cycled_status_name, cycled_kind,
};
use crate::models::{status_at, status_index, status_position, status_seq, ProjectStatus};
use crate::nav::{clamped, step_result, ListState};
use crate::search::{hours_count, is_hours_entry};
use crate::updates::{client_by_prefix, find_client_by_prefix};
use crate::models::{ActivityEntry, Client, ContactMoment, Project, status_name};
use crate::text::{opt_view, is_blank, copy_opt, int_text, u64_text, opt_or_empty, byte_len, byte_prefix, char_boundary, chars_of, drop_last_char, lowercase_chars, is_char_boundary, owned, pop_char, prefix_bytes, push_char, spec_to_lowercase, str_eq, trim, trimmed, utf8_bytes, copy_string};

verus! {

/// A key, as the terminal reports it.
#[derive(Debug, Clone, Copy, PartialEq, Eq, Structural)]
pub enum KeyCode {
    Char(char),
    Enter,
    Esc,
    Tab,
    BackTab,
    Backspace,
    Up,
    Down,
    Left,
    Right,
    /// Any other key; no mode reacts to it.
    Other,
}

/// A key press, with whether Control was held.
#[derive(Debug, Clone, Copy, PartialEq, Eq, Structural)]
pub struct KeyEvent {
    pub code: KeyCode,
    pub ctrl: bool,
}

/// Outside work that a key press asks for. After doing it the caller reports back
/// through the `App` method named in each variant's comment.
#[derive(Debug)]
pub enum Effect {
    Nothing,
    /// Save the client (any failure is ignored).
    SaveClient(NewClientForm),
    /// Save the contact moment, then `contact_save_finished`.
    SaveContact(NewContactForm),
    /// Save the project, then `project_save_finished`.
    SaveProject(NewProjectForm),
    /// Archive the client's projects and delete the client.
    DeleteClient(String),
    /// Delete the project.
    DeleteProject(String),
    /// Delete the contact moment.
    DeleteContact(String),
    /// Delete the hour entry, then `after_hours_entry_deleted`.
    DeleteHoursEntry { activity_id: String, project_id: String },
    /// Parse `input` as hours and log them, then `hours_saved` or `hours_rejected`.
    SaveHours { project_id: String, input: String },
    /// Parse `hours_input` and change the entry, then `hours_edited` or `hours_edit_rejected`.
    EditHours {
        project_id: String,
        activity_id: String,
        date_input: String,
        hours_input: String,
        focused: usize,
    },
    /// Rewrite broken project file `idx` with status `chosen`, then `repair_finished`.
    Repair { idx: usize, chosen: ProjectStatus },
    /// Write the budget hours of project `index` as text, then `open_project_form`.
    EditProject { index: usize },
    /// Write the hours of the entry as text, then `open_hours_editor`.
    EditHoursEntry { project_id: String, activity_id: String, date: String },
    /// Write the hours of the entry as text, then `confirm_hours_delete`.
    AskDeleteHours { project_id: String, activity_id: String, label: String },
}

/// The forms in a mode have all their fields and a focus among them.
pub open spec fn mode_wf(m: Mode) -> bool {
    match m {
        Mode::NewClient(f) => f.fields@.len() >= 8 && f.focused < f.fields@.len(),
        Mode::NewProject(f) => f.fields@.len() >= 10 && f.focused < f.fields@.len(),
        Mode::NewContact(f) => f.fields@.len() >= 3 && f.focused < f.fields@.len(),
        _ => true,
    }
}

/// The fields with `c` appended to field `k`.
pub open spec fn pushed(fields: Seq<FormField>, k: int, c: char) -> Seq<(Seq<char>, Seq<char>, bool)> {
    fields_view(fields).update(k, (fields[k].label@, fields[k].value@.push(c), fields[k].required))
}

/// The fields with the last character of field `k` removed.
pub open spec fn popped(fields: Seq<FormField>, k: int) -> Seq<(Seq<char>, Seq<char>, bool)> {
    fields_view(fields).update(
        k,
        (fields[k].label@, drop_last_char(fields[k].value@), fields[k].required),
    )
}

fn push_to_field(fields: &mut Vec<FormField>, k: usize, c: char)
    requires
        k < old(fields)@.len(),
    ensures
        final(fields)@.len() == old(fields)@.len(),
        fields_view(final(fields)@) == pushed(old(fields)@, k as int, c),
{
    let mut f = fields.remove(k);
    push_char(&mut f.value, c);
    fields.insert(k, f);
    assert(fields_view(fields@) =~= pushed(old(fields)@, k as int, c));
}

fn pop_from_field(fields: &mut Vec<FormField>, k: usize)
    requires
        k < old(fields)@.len(),
    ensures
        final(fields)@.len() == old(fields)@.len(),
        fields_view(final(fields)@) == popped(old(fields)@, k as int),
{
    let mut f = fields.remove(k);
    pop_char(&mut f.value);
    fields.insert(k, f);
    assert(fields_view(fields@) =~= popped(old(fields)@, k as int));
}

/// An ASCII digit.
pub open spec fn is_ascii_digit(c: char) -> bool {
    0x30 <= (c as u32) <= 0x39
}

fn ascii_digit(c: char) -> (b: bool)
    ensures
        b == is_ascii_digit(c),
{
    let u = c as u32;
    0x30 <= u && u <= 0x39
}

/// `s` holds a `'.'`.
pub open spec fn has_dot(s: Seq<char>) -> bool {
    exists|i: int| 0 <= i < s.len() && s[i] == '.'
}

fn has_dot_exec(s: &String) -> (b: bool)
    ensures
        b == has_dot(s@),
{
    let v = chars_of(s.as_str());
    let mut i: usize = 0;
    while i < v.len()
        invariant
            i <= v@.len(),
            v@ == s@,
            forall|k: int| 0 <= k < i ==> v@[k] != '.',
        decreases v.len() - i,
    {
        if v[i] == '.' {
            return true;
        }
        i = i + 1;
    }
    false
}

/// Saving keys: Enter, or Control-S.
pub open spec fn is_save_key(k: KeyEvent) -> bool {
    k.code == KeyCode::Enter || (k.code == KeyCode::Char('s') && k.ctrl)
}

// ── Command mode ─────────────────────────────────────────────────────────────

/// What a key does in Command mode.
pub open spec fn command_ok(a: App, k: KeyEvent, b: App) -> bool {
    match k.code {
        KeyCode::Esc => b == (App { mode: Mode::Normal, input: b.input, ..a }) && b.input@.len()
            == 0,
        KeyCode::Enter => {
            let cmd = spec_to_lowercase(trim(a.input@));
            &&& b == (App {
                mode: Mode::Normal,
                input: b.input,
                should_quit: a.should_quit || cmd == "q"@ || cmd == "quit"@,
                ..a
            })
            &&& b.input@.len() == 0
        },
        KeyCode::Char(c) => {
            &&& b == (App { mode: b.mode, input: b.input, ..a })
            &&& b.input@ == a.input@.push(c)
            &&& b.mode matches Mode::Command(t) && t@ == b.input@
        },
        KeyCode::Backspace => {
            &&& b == (App { mode: b.mode, input: b.input, ..a })
            &&& b.input@ == drop_last_char(a.input@)
            &&& b.mode matches Mode::Command(t) && t@ == b.input@
        },
        _ => b == a,
    }
}

fn handle_command(app: &mut App, key: KeyEvent, text: String)
    ensures
        command_ok(App { mode: Mode::Command(text), ..*old(app) }, key, *final(app)),
        mode_wf(final(app).mode),
{
    match key.code {
        KeyCode::Esc => {
            app.mode = Mode::Normal;
            app.input = String::new();
        },
        KeyCode::Enter => {
            let t = trimmed(app.input.as_str());
            let cmd = lowercase_chars(t.as_str());
            app.mode = Mode::Normal;
            app.input = String::new();
            let q = chars_of("q");
            let quit = chars_of("quit");
            if crate::text::seq_eq(&cmd, &q) || crate::text::seq_eq(&cmd, &quit) {
                app.should_quit = true;
            }
        },
        KeyCode::Char(c) => {
            push_char(&mut app.input, c);
            app.mode = Mode::Command(copy_string(&app.input));
        },
        KeyCode::Backspace => {
            pop_char(&mut app.input);
            app.mode = Mode::Command(copy_string(&app.input));
        },
        _ => {
            app.mode = Mode::Command(text);
        },
    }
}

// ── Forms ────────────────────────────────────────────────────────────────────

/// `b` is `a` with another mode and nothing else changed.
pub open spec fn only_mode(a: App, b: App) -> bool {
    b == (App { mode: b.mode, ..a })
}

/// `a` left in mode Normal with the focus on the list pane.
pub open spec fn closed_form(a: App) -> App {
    App { mode: Mode::Normal, focus: Focus::Left, ..a }
}

/// The client form `g` shows `fields`, focus `focused` and `error`, and edits
/// what `form` edits.
pub open spec fn client_form_is(
    g: NewClientForm,
    form: NewClientForm,
    fields: Seq<(Seq<char>, Seq<char>, bool)>,
    focused: nat,
    error: Option<Seq<char>>,
) -> bool {
    &&& fields_view(g.fields@) == fields
    &&& g.focused == focused
    &&& opt_view(g.error) == error
    &&& opt_view(g.edit_id) == opt_view(form.edit_id)
}

/// The key left the client form open, now as described, and asked for nothing.
pub open spec fn client_stays(
    a: App,
    form: NewClientForm,
    b: App,
    e: Effect,
    fields: Seq<(Seq<char>, Seq<char>, bool)>,
    focused: nat,
    error: Option<Seq<char>>,
) -> bool {
    &&& only_mode(a, b)
    &&& e is Nothing
    &&& b.mode matches Mode::NewClient(g) && client_form_is(g, form, fields, focused, error)
}

/// What a key does to the client form `form` (the mode of `a`).
pub open spec fn new_client_ok(a: App, form: NewClientForm, k: KeyEvent, b: App, e: Effect) -> bool {
    let fs = fields_view(form.fields@);
    let n = form.fields@.len();
    let foc = form.focused as nat;
    let valid = !is_blank(form.fields@[0].value@);
    let msg = "name is required"@;
    let save = b == closed_form(a) && e == Effect::SaveClient(form);
    match k.code {
        KeyCode::Esc => b == closed_form(a) && e is Nothing,
        KeyCode::Char(c) => if c == 's' && k.ctrl {
            if valid {
                save
            } else {
                client_stays(a, form, b, e, fs, foc, Some(msg))
            }
        } else {
            client_stays(a, form, b, e, pushed(form.fields@, foc as int, c), foc, None)
        },
        KeyCode::Tab | KeyCode::Down => client_stays(a, form, b, e, fs, next_index(foc, n), None),
        KeyCode::BackTab | KeyCode::Up => client_stays(a, form, b, e, fs, prev_index(foc, n), None),
        KeyCode::Enter => if foc == n - 1 {
            if valid {
                save
            } else {
                client_stays(a, form, b, e, fs, 0, Some(msg))
            }
        } else {
            client_stays(a, form, b, e, fs, next_index(foc, n), opt_view(form.error))
        },
        KeyCode::Backspace => client_stays(
            a,
            form,
            b,
            e,
            popped(form.fields@, foc as int),
            foc,
            opt_view(form.error),
        ),
        _ => b == a && e is Nothing,
    }
}

fn handle_new_client(app: &mut App, key: KeyEvent, form: NewClientForm) -> (e: Effect)
    requires
        form.fields@.len() >= 8,
        form.focused < form.fields@.len(),
    ensures
        new_client_ok(App { mode: Mode::NewClient(form), ..*old(app) }, form, key, *final(app), e),
        mode_wf(final(app).mode),
{
    let mut form = form;
    let _n = form.fields.len();
    match key.code {
        KeyCode::Esc => {
            app.mode = Mode::Normal;
            app.focus = Focus::Left;
            Effect::Nothing
        },
        KeyCode::Char(c) => {
            if c == 's' && key.ctrl {
                if form.is_valid() {
                    app.mode = Mode::Normal;
                    app.focus = Focus::Left;
                    Effect::SaveClient(form)
                } else {
                    form.error = Some(owned("name is required"));
                    app.mode = Mode::NewClient(form);
            Effect::Nothing
                }
            } else {
                form.error = None;
                let k = form.focused;
                push_to_field(&mut form.fields, k, c);
                app.mode = Mode::NewClient(form);
            Effect::Nothing
            }
        },
        KeyCode::Tab | KeyCode::Down => {
            form.error = None;
            form.next_field();
            app.mode = Mode::NewClient(form);
            Effect::Nothing
        },
        KeyCode::BackTab | KeyCode::Up => {
            form.error = None;
            form.prev_field();
            app.mode = Mode::NewClient(form);
            Effect::Nothing
        },
        KeyCode::Enter => {
            if form.focused == form.fields.len() - 1 {
                if form.is_valid() {
                    app.mode = Mode::Normal;
                    app.focus = Focus::Left;
                    Effect::SaveClient(form)
                } else {
                    form.focused = 0;
                    form.error = Some(owned("name is required"));
                    app.mode = Mode::NewClient(form);
            Effect::Nothing
                }
            } else {
                form.next_field();
                app.mode = Mode::NewClient(form);
            Effect::Nothing
            }
        },
        KeyCode::Backspace => {
            let k = form.focused;
            pop_from_field(&mut form.fields, k);
            app.mode = Mode::NewClient(form);
            Effect::Nothing
        },
        _ => {
            app.mode = Mode::NewClient(form);
            Effect::Nothing
        },
    }
}

/// Field `k` of `fields` holding `v`.
pub open spec fn with_value(fields: Seq<FormField>, k: int, v: Seq<char>) -> Seq<
    (Seq<char>, Seq<char>, bool),
> {
    fields_view(fields).update(k, (fields[k].label@, v, fields[k].required))
}

fn copy_fields(v: &Vec<FormField>) -> (r: Vec<FormField>)
    ensures
        fields_view(r@) == fields_view(v@),
{
    let mut r: Vec<FormField> = Vec::new();
    let mut i: usize = 0;
    while i < v.len()
        invariant
            i <= v@.len(),
            fields_view(r@) == fields_view(v@).take(i as int),
        decreases v.len() - i,
    {
        let f = v[i].with_value(copy_string(&v[i].value));
        let ghost before = r@;
        r.push(f);
        assert(fields_view(r@) =~= fields_view(before).push(field_view(f)));
        i = i + 1;
        assert(fields_view(r@) =~= fields_view(v@).take(i as int));
    }
    assert(fields_view(v@).take(i as int) =~= fields_view(v@));
    r
}

// ── Project form ─────────────────────────────────────────────────────────────

/// The project form `g` shows `fields`, focus `focused` and `error`, and edits
/// what `form` edits.
pub open spec fn project_form_is(
    g: NewProjectForm,
    form: NewProjectForm,
    fields: Seq<(Seq<char>, Seq<char>, bool)>,
    focused: nat,
    error: Option<Seq<char>>,
) -> bool {
    &&& fields_view(g.fields@) == fields
    &&& g.focused == focused
    &&& opt_view(g.error) == error
    &&& opt_view(g.edit_id) == opt_view(form.edit_id)
}

fn copy_project_form(f: &NewProjectForm) -> (g: NewProjectForm)
    ensures
        project_form_is(g, *f, fields_view(f.fields@), f.focused as nat, opt_view(f.error)),
{
    NewProjectForm {
        fields: copy_fields(&f.fields),
        focused: f.focused,
        error: copy_opt(&f.error),
        edit_id: copy_opt(&f.edit_id),
    }
}

/// The key left the project form open, now as described, and asked for nothing.
pub open spec fn project_stays(
    a: App,
    form: NewProjectForm,
    b: App,
    e: Effect,
    fields: Seq<(Seq<char>, Seq<char>, bool)>,
    focused: nat,
    error: Option<Seq<char>>,
) -> bool {
    &&& only_mode(a, b)
    &&& e is Nothing
    &&& b.mode matches Mode::NewProject(g) && project_form_is(g, form, fields, focused, error)
}

/// Leaving the client field (1): a typed text that begins the lower-cased name of
/// a client becomes that client's name.
pub open spec fn completed_fields(clients: Seq<Client>, fields: Seq<FormField>, focused: nat) -> Seq<
    (Seq<char>, Seq<char>, bool),
> {
    let typed = spec_to_lowercase(trim(fields[1].value@));
    if focused == 1 && typed.len() > 0 {
        match client_by_prefix(clients, typed) {
            Some(c) => with_value(fields, 1, c.name@),
            None => fields_view(fields),
        }
    } else {
        fields_view(fields)
    }
}

/// The save key on a valid project form keeps the form open and asks for the
/// save; the result decides the rest (`project_save_finished`).
pub open spec fn project_save(a: App, form: NewProjectForm, b: App, e: Effect) -> bool {
    &&& b == a
    &&& e matches Effect::SaveProject(g) && project_form_is(
        g,
        form,
        fields_view(form.fields@),
        form.focused as nat,
        opt_view(form.error),
    )
}

/// What a key does to the project form `form` (the mode of `a`).
pub open spec fn new_project_ok(a: App, form: NewProjectForm, k: KeyEvent, b: App, e: Effect) -> bool {
    let fields = form.fields@;
    let fs = fields_view(fields);
    let n = fields.len();
    let foc = form.focused as nat;
    let valid = !is_blank(fields[0].value@) && !is_blank(fields[1].value@);
    let msg = "name and client are required"@;
    let choice = foc == 3 || foc == 4;
    match k.code {
        KeyCode::Esc => b == closed_form(a) && e is Nothing,
        KeyCode::Char(c) => if c == 's' && k.ctrl {
            if valid {
                project_save(a, form, b, e)
            } else {
                project_stays(a, form, b, e, fs, foc, Some(msg))
            }
        } else if c == ' ' && foc == 3 {
            project_stays(a, form, b, e, with_value(fields, 3, cycled_status_name(fields[3].value@, true)), foc, opt_view(form.error))
        } else if c == ' ' && foc == 4 {
            project_stays(a, form, b, e, with_value(fields, 4, next_budget_kind(fields[4].value@)), foc, opt_view(form.error))
        } else if !choice {
            project_stays(a, form, b, e, pushed(fields, foc as int, c), foc, None)
        } else {
            b == a && e is Nothing
        },
        KeyCode::Tab | KeyCode::Down => project_stays(
            a,
            form,
            b,
            e,
            completed_fields(a.clients@, fields, foc),
            next_index(foc, n),
            None,
        ),
        KeyCode::BackTab | KeyCode::Up => project_stays(a, form, b, e, fs, prev_index(foc, n), None),
        KeyCode::Enter => if foc == n - 1 {
            if valid {
                project_save(a, form, b, e)
            } else {
                project_stays(a, form, b, e, fs, 0, Some(msg))
            }
        } else {
            project_stays(a, form, b, e, fs, next_index(foc, n), opt_view(form.error))
        },
        KeyCode::Left | KeyCode::Right => if foc == 3 {
            project_stays(a, form, b, e, with_value(fields, 3, cycled_status_name(fields[3].value@, k.code == KeyCode::Right)), foc, opt_view(form.error))
        } else if foc == 4 {
            project_stays(a, form, b, e, with_value(fields, 4, next_budget_kind(fields[4].value@)), foc, opt_view(form.error))
        } else {
            b == a && e is Nothing
        },
        KeyCode::Backspace => if !choice {
            project_stays(a, form, b, e, popped(fields, foc as int), foc, opt_view(form.error))
        } else {
            b == a && e is Nothing
        },
        _ => b == a && e is Nothing,
    }
}

fn handle_new_project(app: &mut App, key: KeyEvent, form: NewProjectForm) -> (e: Effect)
    requires
        form.fields@.len() >= 10,
        form.focused < form.fields@.len(),
    ensures
        new_project_ok(App { mode: Mode::NewProject(form), ..*old(app) }, form, key, *final(app), e),
        mode_wf(final(app).mode),
{
    let mut form = form;
    let _n = form.fields.len();
    match key.code {
        KeyCode::Esc => {
            app.mode = Mode::Normal;
            app.focus = Focus::Left;
            Effect::Nothing
        },
        KeyCode::Char(c) => {
            if c == 's' && key.ctrl {
                if form.is_valid() {
                    let g = copy_project_form(&form);
                    app.mode = Mode::NewProject(form);
                    Effect::SaveProject(g)
                } else {
                    form.error = Some(owned("name and client are required"));
                    app.mode = Mode::NewProject(form);
            Effect::Nothing
                }
            } else if c == ' ' && form.focused == 3 {
                form.cycle_status(true);
                app.mode = Mode::NewProject(form);
            Effect::Nothing
            } else if c == ' ' && form.focused == 4 {
                form.cycle_budget_kind();
                app.mode = Mode::NewProject(form);
            Effect::Nothing
            } else if form.focused != 3 && form.focused != 4 {
                form.error = None;
                let k = form.focused;
                push_to_field(&mut form.fields, k, c);
                app.mode = Mode::NewProject(form);
            Effect::Nothing
            } else {
                app.mode = Mode::NewProject(form);
            Effect::Nothing
            }
        },
        KeyCode::Tab | KeyCode::Down => {
            form.error = None;
            if form.focused == 1 {
                let typed = trimmed(form.fields[1].value.as_str());
                let q = lowercase_chars(typed.as_str());
                if q.len() > 0 {
                    match find_client_by_prefix(&app.clients, &q) {
                        Some(c) => {
                            let name = copy_string(&c.name);
                            set_field_value(&mut form.fields, 1, name);
                        },
                        None => {},
                    }
                }
            }
            form.next_field();
            app.mode = Mode::NewProject(form);
            Effect::Nothing
        },
        KeyCode::BackTab | KeyCode::Up => {
            form.error = None;
            form.prev_field();
            app.mode = Mode::NewProject(form);
            Effect::Nothing
        },
        KeyCode::Enter => {
            if form.focused == form.fields.len() - 1 {
                if form.is_valid() {
                    let g = copy_project_form(&form);
                    app.mode = Mode::NewProject(form);
                    Effect::SaveProject(g)
                } else {
                    form.focused = 0;
                    form.error = Some(owned("name and client are required"));
                    app.mode = Mode::NewProject(form);
            Effect::Nothing
                }
            } else {
                form.next_field();
                app.mode = Mode::NewProject(form);
            Effect::Nothing
            }
        },
        KeyCode::Left | KeyCode::Right => {
            let forward = match key.code {
                KeyCode::Right => true,
                _ => false,
            };
            if form.focused == 3 {
                form.cycle_status(forward);
            } else if form.focused == 4 {
                form.cycle_budget_kind();
            }
            app.mode = Mode::NewProject(form);
            Effect::Nothing
        },
        KeyCode::Backspace => {
            if form.focused != 3 && form.focused != 4 {
                let k = form.focused;
                pop_from_field(&mut form.fields, k);
            }
            app.mode = Mode::NewProject(form);
            Effect::Nothing
        },
        _ => {
            app.mode = Mode::NewProject(form);
            Effect::Nothing
        },
    }
}

// ── Contact form ─────────────────────────────────────────────────────────────

/// The contact form `g` shows `fields`, focus `focused` and `error`, and belongs
/// to the same client and contact as `form`.
pub open spec fn contact_form_is(
    g: NewContactForm,
    form: NewContactForm,
    fields: Seq<(Seq<char>, Seq<char>, bool)>,
    focused: nat,
    error: Option<Seq<char>>,
) -> bool {
    &&& fields_view(g.fields@) == fields
    &&& g.focused == focused
    &&& opt_view(g.error) == error
    &&& opt_view(g.edit_id) == opt_view(form.edit_id)
    &&& g.client_id@ == form.client_id@
    &&& g.client_name@ == form.client_name@
}

fn copy_contact_form(f: &NewContactForm) -> (g: NewContactForm)
    ensures
        contact_form_is(g, *f, fields_view(f.fields@), f.focused as nat, opt_view(f.error)),
{
    NewContactForm {
        fields: copy_fields(&f.fields),
        focused: f.focused,
        error: copy_opt(&f.error),
        client_id: copy_string(&f.client_id),
        client_name: copy_string(&f.client_name),
        edit_id: copy_opt(&f.edit_id),
    }
}

/// The key left the contact form open, now as described, and asked for nothing.
pub open spec fn contact_stays(
    a: App,
    form: NewContactForm,
    b: App,
    e: Effect,
    fields: Seq<(Seq<char>, Seq<char>, bool)>,
    focused: nat,
    error: Option<Seq<char>>,
) -> bool {
    &&& only_mode(a, b)
    &&& e is Nothing
    &&& b.mode matches Mode::NewContact(g) && contact_form_is(g, form, fields, focused, error)
}

/// The save key on a valid contact form keeps the form open and asks for the
/// save; the result decides the rest (`contact_save_finished`).
pub open spec fn contact_save(a: App, form: NewContactForm, b: App, e: Effect) -> bool {
    &&& b == a
    &&& e matches Effect::SaveContact(g) && contact_form_is(
        g,
        form,
        fields_view(form.fields@),
        form.focused as nat,
        opt_view(form.error),
    )
}

/// What a key does to the contact form `form` (the mode of `a`).
pub open spec fn new_contact_ok(a: App, form: NewContactForm, k: KeyEvent, b: App, e: Effect) -> bool {
    let fields = form.fields@;
    let fs = fields_view(fields);
    let n = fields.len();
    let foc = form.focused as nat;
    let valid = !is_blank(fields[0].value@) && !is_blank(fields[2].value@);
    let msg = "date and summary are required"@;
    let err = opt_view(form.error);
    match k.code {
        KeyCode::Esc => b == closed_form(a) && e is Nothing,
        KeyCode::Char(c) => if c == 's' && k.ctrl {
            if valid {
                contact_save(a, form, b, e)
            } else {
                contact_stays(a, form, b, e, fs, foc, Some(msg))
            }
        } else if c == ' ' && foc == 1 {
            contact_stays(a, form, b, e, with_value(fields, 1, cycled_kind(fields[1].value@, true)), foc, err)
        } else if foc != 1 {
            contact_stays(a, form, b, e, pushed(fields, foc as int, c), foc, None)
        } else {
            b == a && e is Nothing
        },
        KeyCode::Tab | KeyCode::Down => contact_stays(a, form, b, e, fs, next_index(foc, n), None),
        KeyCode::BackTab | KeyCode::Up => contact_stays(a, form, b, e, fs, prev_index(foc, n), None),
        KeyCode::Enter => if foc == n - 1 {
            if valid {
                contact_save(a, form, b, e)
            } else {
                contact_stays(a, form, b, e, fs, 0, Some(msg))
            }
        } else {
            contact_stays(a, form, b, e, fs, next_index(foc, n), err)
        },
        KeyCode::Left | KeyCode::Right => if foc == 1 {
            contact_stays(a, form, b, e, with_value(fields, 1, cycled_kind(fields[1].value@, k.code == KeyCode::Right)), foc, err)
        } else {
            b == a && e is Nothing
        },
        KeyCode::Backspace => if foc != 1 {
            contact_stays(a, form, b, e, popped(fields, foc as int), foc, err)
        } else {
            b == a && e is Nothing
        },
        _ => b == a && e is Nothing,
    }
}

fn handle_new_contact(app: &mut App, key: KeyEvent, form: NewContactForm) -> (e: Effect)
    requires
        form.fields@.len() >= 3,
        form.focused < form.fields@.len(),
    ensures
        new_contact_ok(App { mode: Mode::NewContact(form), ..*old(app) }, form, key, *final(app), e),
        mode_wf(final(app).mode),
{
    let mut form = form;
    let _n = form.fields.len();
    match key.code {
        KeyCode::Esc => {
            app.mode = Mode::Normal;
            app.focus = Focus::Left;
            Effect::Nothing
        },
        KeyCode::Char(c) => {
            if c == 's' && key.ctrl {
                if form.is_valid() {
                    let g = copy_contact_form(&form);
                    app.mode = Mode::NewContact(form);
                    Effect::SaveContact(g)
                } else {
                    form.error = Some(owned("date and summary are required"));
                    app.mode = Mode::NewContact(form);
            Effect::Nothing
                }
            } else if c == ' ' && form.focused == 1 {
                form.cycle_kind_forward();
                app.mode = Mode::NewContact(form);
            Effect::Nothing
            } else if form.focused != 1 {
                form.error = None;
                let k = form.focused;
                push_to_field(&mut form.fields, k, c);
                app.mode = Mode::NewContact(form);
            Effect::Nothing
            } else {
                app.mode = Mode::NewContact(form);
            Effect::Nothing
            }
        },
        KeyCode::Tab | KeyCode::Down => {
            form.error = None;
            form.next_field();
            app.mode = Mode::NewContact(form);
            Effect::Nothing
        },
        KeyCode::BackTab | KeyCode::Up => {
            form.error = None;
            form.prev_field();
            app.mode = Mode::NewContact(form);
            Effect::Nothing
        },
        KeyCode::Enter => {
            if form.focused == form.fields.len() - 1 {
                if form.is_valid() {
                    let g = copy_contact_form(&form);
                    app.mode = Mode::NewContact(form);
                    Effect::SaveContact(g)
                } else {
                    form.focused = 0;
                    form.error = Some(owned("date and summary are required"));
                    app.mode = Mode::NewContact(form);
            Effect::Nothing
                }
            } else {
                form.next_field();
                app.mode = Mode::NewContact(form);
            Effect::Nothing
            }
        },
        KeyCode::Left | KeyCode::Right => {
            if form.focused == 1 {
                match key.code {
                    KeyCode::Right => form.cycle_kind_forward(),
                    _ => form.cycle_kind_backward(),
                }
            }
            app.mode = Mode::NewContact(form);
            Effect::Nothing
        },
        KeyCode::Backspace => {
            if form.focused != 1 {
                let k = form.focused;
                pop_from_field(&mut form.fields, k);
            }
            app.mode = Mode::NewContact(form);
            Effect::Nothing
        },
        _ => {
            app.mode = Mode::NewContact(form);
            Effect::Nothing
        },
    }
}

// ── Hours ────────────────────────────────────────────────────────────────────

fn save_key(key: KeyEvent) -> (b: bool)
    ensures
        b == is_save_key(key),
{
    match key.code {
        KeyCode::Enter => true,
        KeyCode::Char(c) => c == 's' && key.ctrl,
        _ => false,
    }
}

/// The hour field accepts a digit, or one decimal point.
pub open spec fn accepts_hours_char(input: Seq<char>, c: char) -> bool {
    is_ascii_digit(c) || (c == '.' && !has_dot(input))
}

/// The key left the hour entry open with `input` and no error.
pub open spec fn add_hours_stays(a: App, pid: String, b: App, e: Effect, input: Seq<char>) -> bool {
    &&& only_mode(a, b)
    &&& e is Nothing
    &&& b.mode matches Mode::AddHours { project_id: p, input: i, error: er } && p == pid && i@ == input
        && er is None
}

/// What a key does while hours for project `pid` are typed in (mode of `a`).
pub open spec fn add_hours_ok(a: App, pid: String, input: String, k: KeyEvent, b: App, e: Effect) -> bool {
    if is_save_key(k) {
        &&& b == a
        &&& e matches Effect::SaveHours { project_id: p, input: i } && p@ == pid@ && i@ == input@
    } else {
        match k.code {
            KeyCode::Esc => b == closed_form(a) && e is Nothing,
            KeyCode::Char(c) => if accepts_hours_char(input@, c) {
                add_hours_stays(a, pid, b, e, input@.push(c))
            } else {
                b == a && e is Nothing
            },
            KeyCode::Backspace => add_hours_stays(a, pid, b, e, drop_last_char(input@)),
            _ => b == a && e is Nothing,
        }
    }
}

fn handle_add_hours(app: &mut App, key: KeyEvent, project_id: String, input: String, error: Option<String>) -> (e: Effect)
    ensures
        add_hours_ok(
            App { mode: Mode::AddHours { project_id: project_id, input: input, error: error }, ..*old(app) },
            project_id,
            input,
            key,
            *final(app),
            e,
        ),
        mode_wf(final(app).mode),
{
    let mut input = input;
    if save_key(key) {
        let p = copy_string(&project_id);
        let i = copy_string(&input);
        app.mode = Mode::AddHours { project_id, input, error };
        return Effect::SaveHours { project_id: p, input: i };
    }
    match key.code {
        KeyCode::Esc => {
            app.mode = Mode::Normal;
            app.focus = Focus::Left;
            Effect::Nothing
        },
        KeyCode::Char(c) => {
            if ascii_digit(c) || (c == '.' && !has_dot_exec(&input)) {
                push_char(&mut input, c);
                app.mode = Mode::AddHours { project_id, input, error: None };
            } else {
                app.mode = Mode::AddHours { project_id, input, error };
            }
            Effect::Nothing
        },
        KeyCode::Backspace => {
            pop_char(&mut input);
            app.mode = Mode::AddHours { project_id, input, error: None };
            Effect::Nothing
        },
        _ => {
            app.mode = Mode::AddHours { project_id, input, error };
            Effect::Nothing
        },
    }
}

/// The hour entries of project `pid`, in list order.
pub open spec fn hour_entries(a: App, pid: Seq<char>) -> Seq<ActivityEntry> {
    a.activity@.filter(|x: ActivityEntry| is_hours_entry(x, pid))
}

/// The highlighted hour entry of project `pid`.
pub open spec fn selected_hours(a: App, pid: Seq<char>) -> Option<ActivityEntry> {
    selected_item(hour_entries(a, pid), a.hours_list.selected)
}

/// The number of bytes of an entry's time that hold its date: at most 10.
pub open spec fn date_bytes(at: Seq<char>) -> int {
    if utf8_bytes(at).len() < 10 { utf8_bytes(at).len() as int } else { 10 }
}

/// The hour log key cannot slice an entry's time inside a character: `e` takes
/// the first (at most) ten bytes, `d` exactly ten.
pub open spec fn hours_key_safe(a: App, pid: Seq<char>, k: KeyEvent) -> bool {
    match selected_hours(a, pid) {
        Some(en) => {
            &&& k.code == KeyCode::Char('e') ==> char_boundary(en.at@, date_bytes(en.at@))
            &&& k.code == KeyCode::Char('d') ==> utf8_bytes(en.at@).len() >= 10 && char_boundary(en.at@, 10)
        },
        None => true,
    }
}

/// What a key does in the hour log of project `pid` (mode of `a`).
pub open spec fn view_hours_ok(a: App, pid: String, k: KeyEvent, b: App, e: Effect) -> bool {
    let count = hours_count(a, pid@);
    let moved = |d: int|
        App {
            hours_list: ListState {
                selected: if count == 0 { None } else { step_result(a.hours_list.selected, count, d) },
            },
            ..a
        };
    match k.code {
        KeyCode::Esc => b == closed_form(a) && e is Nothing,
        KeyCode::Down => b == moved(1) && e is Nothing,
        KeyCode::Up => b == moved(-1) && e is Nothing,
        KeyCode::Char(c) => if c == 'j' {
            b == moved(1) && e is Nothing
        } else if c == 'k' {
            b == moved(-1) && e is Nothing
        } else if c == 'a' {
            &&& only_mode(a, b)
            &&& e is Nothing
            &&& b.mode matches Mode::AddHours { project_id: p, input: i, error: er } && p == pid
                && i@.len() == 0 && er is None
        } else if c == 'e' {
            &&& b == a
            &&& match selected_hours(a, pid@) {
                Some(en) => e matches Effect::EditHoursEntry { project_id: p, activity_id: x, date: d }
                    && p@ == pid@ && x@ == en.id@ && d@ == byte_prefix(en.at@, date_bytes(en.at@)),
                None => e is Nothing,
            }
        } else if c == 'd' {
            &&& b == a
            &&& match selected_hours(a, pid@) {
                Some(en) => e matches Effect::AskDeleteHours { project_id: p, activity_id: x, label: l }
                    && p@ == pid@ && x@ == en.id@ && l@ == byte_prefix(en.at@, 10),
                None => e is Nothing,
            }
        } else {
            b == a && e is Nothing
        },
        _ => b == a && e is Nothing,
    }
}

fn handle_view_hours(app: &mut App, key: KeyEvent, project_id: String) -> (e: Effect)
    requires
        hours_key_safe(App { mode: Mode::ViewHours { project_id: project_id }, ..*old(app) }, project_id@, key),
    ensures
        view_hours_ok(App { mode: Mode::ViewHours { project_id: project_id }, ..*old(app) }, project_id, key, *final(app), e),
        mode_wf(final(app).mode),
{
    let count = app.project_hours_count(project_id.as_str());
    let down = match key.code {
        KeyCode::Down => true,
        KeyCode::Char(c) => c == 'j',
        _ => false,
    };
    let up = match key.code {
        KeyCode::Up => true,
        KeyCode::Char(c) => c == 'k',
        _ => false,
    };
    if down || up {
        app.mode = Mode::ViewHours { project_id };
        app.nav_hours(if down { 1 } else { -1 }, count);
        return Effect::Nothing;
    }
    match key.code {
        KeyCode::Esc => {
            app.mode = Mode::Normal;
            app.focus = Focus::Left;
            Effect::Nothing
        },
        KeyCode::Char(c) => {
            if c == 'a' {
                app.mode = Mode::AddHours { project_id, input: String::new(), error: None };
                Effect::Nothing
            } else if c == 'e' || c == 'd' {
                let found = match app.selected_hours_entry(project_id.as_str()) {
                    Some(en) => {
                        let at = en.at.as_str();
                        let cut: usize = if c == 'd' {
                            10
                        } else {
                            let len = byte_len(at);
                            if len < 10 { len } else { 10 }
                        };
                        Some((copy_string(&en.id), owned(prefix_bytes(at, cut))))
                    },
                    None => None,
                };
                let p = copy_string(&project_id);
                app.mode = Mode::ViewHours { project_id };
                match found {
                    Some((id, text)) => if c == 'd' {
                        Effect::AskDeleteHours { project_id: p, activity_id: id, label: text }
                    } else {
                        Effect::EditHoursEntry { project_id: p, activity_id: id, date: text }
                    },
                    None => Effect::Nothing,
                }
            } else {
                app.mode = Mode::ViewHours { project_id };
                Effect::Nothing
            }
        },
        _ => {
            app.mode = Mode::ViewHours { project_id };
            Effect::Nothing
        },
    }
}

/// The key left the hour editor open with these texts and focus and no error.
pub open spec fn edit_hours_stays(
    a: App,
    pid: String,
    aid: String,
    b: App,
    e: Effect,
    date: Seq<char>,
    hours: Seq<char>,
    focused: usize,
) -> bool {
    &&& only_mode(a, b)
    &&& e is Nothing
    &&& b.mode matches Mode::EditHours {
        project_id: p,
        activity_id: x,
        date_input: d,
        hours_input: h,
        focused: f,
        error: er,
    } && p == pid && x == aid && d@ == date && h@ == hours && f == focused && er is None
}

/// What a key does in the editor of hour entry `aid` of project `pid` (mode of `a`).
pub open spec fn edit_hours_ok(
    a: App,
    pid: String,
    aid: String,
    date: String,
    hours: String,
    focused: usize,
    k: KeyEvent,
    b: App,
    e: Effect,
) -> bool {
    let save = (k.code == KeyCode::Enter && focused == 1) || (k.code == KeyCode::Char('s') && k.ctrl);
    if save {
        &&& b == a
        &&& e matches Effect::EditHours {
            project_id: p,
            activity_id: x,
            date_input: d,
            hours_input: h,
            focused: f,
        } && p@ == pid@ && x@ == aid@ && d@ == date@ && h@ == hours@ && f == focused
    } else {
        match k.code {
            KeyCode::Esc => b == closed_form(a) && e is Nothing,
            KeyCode::Tab | KeyCode::Down | KeyCode::Enter => if focused == 0 {
                edit_hours_stays(a, pid, aid, b, e, date@, hours@, 1)
            } else {
                b == a && e is Nothing
            },
            KeyCode::BackTab | KeyCode::Up => if focused == 1 {
                edit_hours_stays(a, pid, aid, b, e, date@, hours@, 0)
            } else {
                b == a && e is Nothing
            },
            KeyCode::Char(c) => if focused == 0 && (is_ascii_digit(c) || c == '-') {
                edit_hours_stays(a, pid, aid, b, e, date@.push(c), hours@, focused)
            } else if focused == 1 && accepts_hours_char(hours@, c) {
                edit_hours_stays(a, pid, aid, b, e, date@, hours@.push(c), focused)
            } else {
                b == a && e is Nothing
            },
            KeyCode::Backspace => if focused == 0 {
                edit_hours_stays(a, pid, aid, b, e, drop_last_char(date@), hours@, focused)
            } else if focused == 1 {
                edit_hours_stays(a, pid, aid, b, e, date@, drop_last_char(hours@), focused)
            } else {
                b == a && e is Nothing
            },
            _ => b == a && e is Nothing,
        }
    }
}

fn handle_edit_hours(
    app: &mut App,
    key: KeyEvent,
    project_id: String,
    activity_id: String,
    date_input: String,
    hours_input: String,
    focused: usize,
    error: Option<String>,
) -> (e: Effect)
    ensures
        edit_hours_ok(
            App {
                mode: Mode::EditHours {
                    project_id: project_id,
                    activity_id: activity_id,
                    date_input: date_input,
                    hours_input: hours_input,
                    focused: focused,
                    error: error,
                },
                ..*old(app)
            },
            project_id,
            activity_id,
            date_input,
            hours_input,
            focused,
            key,
            *final(app),
            e,
        ),
        mode_wf(final(app).mode),
{
    let mut date_input = date_input;
    let mut hours_input = hours_input;
    let is_enter = match key.code {
        KeyCode::Enter => true,
        _ => false,
    };
    let ctrl_s = match key.code {
        KeyCode::Char(c) => c == 's' && key.ctrl,
        _ => false,
    };
    if (is_enter && focused == 1) || ctrl_s {
        let eff = Effect::EditHours {
            project_id: copy_string(&project_id),
            activity_id: copy_string(&activity_id),
            date_input: copy_string(&date_input),
            hours_input: copy_string(&hours_input),
            focused,
        };
        app.mode = Mode::EditHours { project_id, activity_id, date_input, hours_input, focused, error };
        return eff;
    }
    match key.code {
        KeyCode::Esc => {
            app.mode = Mode::Normal;
            app.focus = Focus::Left;
            return Effect::Nothing;
        },
        KeyCode::Tab | KeyCode::Down | KeyCode::Enter => {
            if focused == 0 {
                app.mode = Mode::EditHours {
                    project_id,
                    activity_id,
                    date_input,
                    hours_input,
                    focused: 1,
                    error: None,
                };
                return Effect::Nothing;
            }
        },
        KeyCode::BackTab | KeyCode::Up => {
            if focused == 1 {
                app.mode = Mode::EditHours {
                    project_id,
                    activity_id,
                    date_input,
                    hours_input,
                    focused: 0,
                    error: None,
                };
                return Effect::Nothing;
            }
        },
        KeyCode::Char(c) => {
            if focused == 0 && (ascii_digit(c) || c == '-') {
                push_char(&mut date_input, c);
                app.mode = Mode::EditHours { project_id, activity_id, date_input, hours_input, focused, error: None };
                return Effect::Nothing;
            } else if focused == 1 && (ascii_digit(c) || (c == '.' && !has_dot_exec(&hours_input))) {
                push_char(&mut hours_input, c);
                app.mode = Mode::EditHours { project_id, activity_id, date_input, hours_input, focused, error: None };
                return Effect::Nothing;
            }
        },
        KeyCode::Backspace => {
            if focused == 0 {
                pop_char(&mut date_input);
                app.mode = Mode::EditHours { project_id, activity_id, date_input, hours_input, focused, error: None };
                return Effect::Nothing;
            } else if focused == 1 {
                pop_char(&mut hours_input);
                app.mode = Mode::EditHours { project_id, activity_id, date_input, hours_input, focused, error: None };
                return Effect::Nothing;
            }
        },
        _ => {},
    }
    app.mode = Mode::EditHours { project_id, activity_id, date_input, hours_input, focused, error };
    Effect::Nothing
}

// ── Repair and confirmation ──────────────────────────────────────────────────

/// What a key does while broken project file `idx` is given status `chosen`.
pub open spec fn repair_ok(a: App, idx: usize, chosen: ProjectStatus, k: KeyEvent, b: App, e: Effect) -> bool {
    let cur = status_index(chosen);
    if is_save_key(k) {
        b == a && e == (Effect::Repair { idx, chosen })
    } else {
        &&& e is Nothing
        &&& match k.code {
            KeyCode::Esc => b == (App { mode: Mode::Normal, ..a }),
            KeyCode::Left => b == (App {
                mode: Mode::RepairProject { idx, chosen: status_seq()[((cur + 5) % 6) as int], error: None },
                ..a
            }),
            KeyCode::Right => b == (App {
                mode: Mode::RepairProject { idx, chosen: status_seq()[((cur + 1) % 6) as int], error: None },
                ..a
            }),
            KeyCode::Char(c) => if c == ' ' {
                b == (App {
                    mode: Mode::RepairProject { idx, chosen: status_seq()[((cur + 1) % 6) as int], error: None },
                    ..a
                })
            } else {
                b == a
            },
            _ => b == a,
        }
    }
}

fn handle_repair(app: &mut App, key: KeyEvent, idx: usize, chosen: ProjectStatus, error: Option<String>) -> (e: Effect)
    ensures
        repair_ok(
            App { mode: Mode::RepairProject { idx, chosen, error }, ..*old(app) },
            idx,
            chosen,
            key,
            *final(app),
            e,
        ),
        mode_wf(final(app).mode),
{
    if save_key(key) {
        app.mode = Mode::RepairProject { idx, chosen, error };
        return Effect::Repair { idx, chosen };
    }
    let cur = status_position(chosen);
    let step: usize = match key.code {
        KeyCode::Esc => {
            app.mode = Mode::Normal;
            return Effect::Nothing;
        },
        KeyCode::Left => 5,
        KeyCode::Right => 1,
        KeyCode::Char(c) => if c == ' ' { 1 } else { 0 },
        _ => 0,
    };
    if step == 0 {
        app.mode = Mode::RepairProject { idx, chosen, error };
    } else {
        let next = status_at((cur + step) % 6);
        app.mode = Mode::RepairProject { idx, chosen: next, error: None };
    }
    Effect::Nothing
}

/// `context`, or the empty text.
pub open spec fn context_text(context: Option<String>) -> Seq<char> {
    match context {
        Some(c) => c@,
        None => Seq::empty(),
    }
}

/// The mode a confirmation returns to: the contact list, the hour log, or Normal.
pub open spec fn returns_to(kind: Seq<char>, context: Option<String>, b: App) -> bool {
    if kind == "contact"@ {
        b.mode == Mode::ViewContacts
    } else if kind == "hours_entry"@ {
        b.mode matches Mode::ViewHours { project_id: p } && p@ == context_text(context)
    } else {
        b.mode == Mode::Normal
    }
}

/// What a key does while deleting `id` (of `kind`) waits for confirmation.
pub open spec fn confirm_ok(
    a: App,
    kind: String,
    id: String,
    context: Option<String>,
    k: KeyEvent,
    b: App,
    e: Effect,
) -> bool {
    let yes = k.code == KeyCode::Char('y') || k.code == KeyCode::Char('Y');
    let no = k.code == KeyCode::Char('n') || k.code == KeyCode::Char('N');
    if k.code == KeyCode::Esc {
        only_mode(a, b) && b.mode == Mode::Normal && e is Nothing
    } else if yes {
        &&& only_mode(a, b)
        &&& returns_to(kind@, context, b)
        &&& if kind@ == "client"@ {
            e == Effect::DeleteClient(id)
        } else if kind@ == "contact"@ {
            e == Effect::DeleteContact(id)
        } else if kind@ == "hours_entry"@ {
            e matches Effect::DeleteHoursEntry { activity_id: x, project_id: p } && x == id && p@
                == context_text(context)
        } else {
            e == Effect::DeleteProject(id)
        }
    } else if no {
        only_mode(a, b) && returns_to(kind@, context, b) && e is Nothing
    } else {
        b == a && e is Nothing
    }
}

fn context_or_empty(context: &Option<String>) -> (r: String)
    ensures
        r@ == context_text(*context),
{
    match context {
        Some(c) => copy_string(c),
        None => String::new(),
    }
}

fn handle_confirm_delete(
    app: &mut App,
    key: KeyEvent,
    kind: String,
    id: String,
    name: String,
    warning: Option<String>,
    context: Option<String>,
) -> (e: Effect)
    ensures
        confirm_ok(
            App { mode: Mode::ConfirmDelete { kind, id, name, warning, context }, ..*old(app) },
            kind,
            id,
            context,
            key,
            *final(app),
            e,
        ),
        mode_wf(final(app).mode),
{
    let yes = match key.code {
        KeyCode::Char(c) => c == 'y' || c == 'Y',
        _ => false,
    };
    let no = match key.code {
        KeyCode::Char(c) => c == 'n' || c == 'N',
        _ => false,
    };
    if key.code == KeyCode::Esc {
        app.mode = Mode::Normal;
        return Effect::Nothing;
    }
    if !yes && !no {
        app.mode = Mode::ConfirmDelete { kind, id, name, warning, context };
        return Effect::Nothing;
    }
    let is_contact = str_eq(kind.as_str(), "contact");
    let is_hours = str_eq(kind.as_str(), "hours_entry");
    if is_contact {
        app.mode = Mode::ViewContacts;
    } else if is_hours {
        app.mode = Mode::ViewHours { project_id: context_or_empty(&context) };
    } else {
        app.mode = Mode::Normal;
    }
    if no {
        return Effect::Nothing;
    }
    if str_eq(kind.as_str(), "client") {
        Effect::DeleteClient(id)
    } else if is_contact {
        Effect::DeleteContact(id)
    } else if is_hours {
        Effect::DeleteHoursEntry { activity_id: id, project_id: context_or_empty(&context) }
    } else {
        Effect::DeleteProject(id)
    }
}

// ── Contact list ─────────────────────────────────────────────────────────────

/// The highlighted contact moment of the highlighted client.
pub open spec fn selected_contact_of(a: App) -> Option<ContactMoment> {
    match selected_item(a.clients@, a.client_list.selected) {
        Some(c) => selected_item(
            a.contacts@.filter(|m: ContactMoment| m.client_id@ == c.id@),
            a.contact_list.selected,
        ),
        None => None,
    }
}

/// What a key does in the contact list of the highlighted client; a new contact
/// is dated `today`.
pub open spec fn view_contacts_ok(a: App, k: KeyEvent, today: Seq<char>, b: App, e: Effect) -> bool {
    let client = selected_item(a.clients@, a.client_list.selected);
    let count = selected_contact_count(a);
    let moved = |d: int|
        App { contact_list: ListState { selected: step_result(a.contact_list.selected, count, d) }, ..a };
    &&& e is Nothing
    &&& match k.code {
        KeyCode::Esc => b == closed_form(a),
        KeyCode::Down => b == moved(1),
        KeyCode::Up => b == moved(-1),
        KeyCode::Char(c) => if c == 'j' {
            b == moved(1)
        } else if c == 'k' {
            b == moved(-1)
        } else if c == 'n' {
            match client {
                Some(cl) => {
                    &&& only_mode(a, b)
                    &&& b.mode matches Mode::NewContact(g) && fields_view(g.fields@)
                        == contact_form_fields(today, "email"@, Seq::empty()) && g.focused == 0
                        && g.error is None && g.client_id@ == cl.id@ && g.client_name@ == cl.name@
                        && g.edit_id is None
                },
                None => b == a,
            }
        } else if c == 'e' {
            match (client, selected_contact_of(a)) {
                (Some(cl), Some(ct)) => {
                    &&& only_mode(a, b)
                    &&& b.mode matches Mode::NewContact(g) && fields_view(g.fields@)
                        == contact_form_fields(ct.date@, ct.kind@, ct.summary@) && g.focused == 0
                        && g.error is None && g.client_id@ == cl.id@ && g.client_name@ == cl.name@
                        && opt_view(g.edit_id) == Some(ct.id@)
                },
                _ => b == a,
            }
        } else if c == 'd' {
            match selected_contact_of(a) {
                Some(ct) => {
                    &&& only_mode(a, b)
                    &&& b.mode matches Mode::ConfirmDelete { kind, id, name, warning, context }
                        && kind@ == "contact"@ && id@ == ct.id@ && name@ == ct.date@ && warning is None
                        && context is None
                },
                None => b == a,
            }
        } else {
            b == a
        },
        _ => b == a,
    }
}

fn handle_view_contacts(app: &mut App, key: KeyEvent, today: &str) -> (e: Effect)
    ensures
        view_contacts_ok(App { mode: Mode::ViewContacts, ..*old(app) }, key, today@, *final(app), e),
        mode_wf(final(app).mode),
{
    app.mode = Mode::ViewContacts;
    match key.code {
        KeyCode::Esc => {
            app.mode = Mode::Normal;
            app.focus = Focus::Left;
        },
        KeyCode::Down => app.nav_contact(1),
        KeyCode::Up => app.nav_contact(-1),
        KeyCode::Char(c) => {
            if c == 'j' {
                app.nav_contact(1);
            } else if c == 'k' {
                app.nav_contact(-1);
            } else if c == 'n' {
                let form = match app.selected_client() {
                    Some(client) => Some(NewContactForm::for_client_on(client, owned(today))),
                    None => None,
                };
                match form {
                    Some(f) => {
                        assert(fields_view(f.fields@).len() == f.fields@.len());
                        app.mode = Mode::NewContact(f);
                    },
                    None => {},
                }
            } else if c == 'e' {
                let form = match (app.selected_client(), app.selected_contact()) {
                    (Some(client), Some(contact)) => Some(NewContactForm::from_contact(client, contact)),
                    _ => None,
                };
                match form {
                    Some(f) => {
                        assert(fields_view(f.fields@).len() == f.fields@.len());
                        app.mode = Mode::NewContact(f);
                    },
                    None => {},
                }
            } else if c == 'd' {
                let data = match app.selected_contact() {
                    Some(ct) => Some((copy_string(&ct.id), copy_string(&ct.date))),
                    None => None,
                };
                match data {
                    Some((id, date)) => {
                        app.mode = Mode::ConfirmDelete {
                            kind: owned("contact"),
                            id,
                            name: date,
                            warning: None,
                            context: None,
                        };
                    },
                    None => {},
                }
            }
        },
        _ => {},
    }
    Effect::Nothing
}

// ── Search ───────────────────────────────────────────────────────────────────

/// The hits of a global search for `q`.
pub open spec fn search_hits(a: App, q: Seq<char>) -> Seq<SearchHit> {
    if q.len() == 0 {
        Seq::empty()
    } else {
        client_hits(a.clients@, spec_to_lowercase(q)) + project_hits(a.projects@, spec_to_lowercase(q))
    }
}

/// The search now reads `q`: its hits are listed, the first highlighted.
pub open spec fn searched(a: App, q: Seq<char>, b: App) -> bool {
    &&& b == (App {
        mode: b.mode,
        input: b.input,
        search_results: b.search_results,
        search_list: b.search_list,
        ..a
    })
    &&& b.input@ == q
    &&& b.mode matches Mode::Search(t) && t@ == q
    &&& hits_view(b.search_results@) == search_hits(a, q)
    &&& b.search_list.selected == first_row(b.search_results@.len())
}

/// What a key does while searching (mode of `a`).
pub open spec fn search_ok(a: App, k: KeyEvent, b: App) -> bool {
    let moved = |d: int|
        App {
            search_list: ListState {
                selected: if a.search_results@.len() == 0 {
                    None
                } else {
                    step_result(a.search_list.selected, a.search_results@.len(), d)
                },
            },
            ..a
        };
    match k.code {
        KeyCode::Esc => {
            &&& b == (App {
                mode: Mode::Normal,
                input: b.input,
                search_results: b.search_results,
                search_list: ListState { selected: None },
                ..a
            })
            &&& b.input@.len() == 0
            &&& b.search_results@.len() == 0
        },
        KeyCode::Enter => {
            &&& b == (App {
                mode: Mode::Normal,
                input: b.input,
                search_results: b.search_results,
                ..committed(a)
            })
            &&& b.input@.len() == 0
            &&& b.search_results@.len() == 0
        },
        KeyCode::Down => b == moved(1),
        KeyCode::Up => b == moved(-1),
        KeyCode::Char(c) => if c == 'j' {
            b == moved(1)
        } else if c == 'k' {
            b == moved(-1)
        } else {
            searched(a, a.input@.push(c), b)
        },
        KeyCode::Backspace => searched(a, drop_last_char(a.input@), b),
        _ => b == a,
    }
}

fn handle_search(app: &mut App, key: KeyEvent, query: String)
    ensures
        search_ok(App { mode: Mode::Search(query), ..*old(app) }, key, *final(app)),
        mode_wf(final(app).mode),
{
    app.mode = Mode::Search(query);
    match key.code {
        KeyCode::Esc => {
            app.mode = Mode::Normal;
            app.input = String::new();
            app.search_results = Vec::new();
            app.search_list.select(None);
        },
        KeyCode::Enter => {
            app.commit_global_search();
            app.mode = Mode::Normal;
            app.input = String::new();
            app.search_results = Vec::new();
        },
        KeyCode::Down => app.nav_search(1),
        KeyCode::Up => app.nav_search(-1),
        KeyCode::Char(c) => {
            if c == 'j' {
                app.nav_search(1);
            } else if c == 'k' {
                app.nav_search(-1);
            } else {
                push_char(&mut app.input, c);
                app.mode = Mode::Search(copy_string(&app.input));
                let q = copy_string(&app.input);
                app.global_search(q.as_str());
            }
        },
        KeyCode::Backspace => {
            pop_char(&mut app.input);
            app.mode = Mode::Search(copy_string(&app.input));
            let q = copy_string(&app.input);
            app.global_search(q.as_str());
        },
        _ => {},
    }
}

// ── Normal mode ──────────────────────────────────────────────────────────────

/// `a` showing view `v` (the focus goes to the list when the view changes).
pub open spec fn switched(a: App, v: View) -> App {
    if a.active_view != v {
        App { active_view: v, focus: Focus::Left, ..a }
    } else {
        a
    }
}

/// `a` with the first row of the active view's list highlighted.
pub open spec fn nav_first_of(a: App) -> App {
    match a.active_view {
        View::Dashboard => App { dashboard_list: ListState { selected: Some(0) }, ..a },
        View::Clients => App { client_list: ListState { selected: Some(0) }, ..a },
        View::Projects => App { project_list: ListState { selected: Some(0) }, ..a },
    }
}

/// `a` with the last row of the active view's list highlighted (unchanged for an
/// empty list).
pub open spec fn nav_last_of(a: App) -> App {
    match a.active_view {
        View::Dashboard => if a.projects@.len() > 0 {
            App { dashboard_list: ListState { selected: Some((a.projects@.len() - 1) as usize) }, ..a }
        } else {
            a
        },
        View::Clients => if a.clients@.len() > 0 {
            App { client_list: ListState { selected: Some((a.clients@.len() - 1) as usize) }, ..a }
        } else {
            a
        },
        View::Projects => if a.projects@.len() > 0 {
            App { project_list: ListState { selected: Some((a.projects@.len() - 1) as usize) }, ..a }
        } else {
            a
        },
    }
}

/// The projects of client `id` that are not archived.
pub open spec fn live_projects(ps: Seq<Project>, id: Seq<char>) -> nat {
    ps.filter(|p: Project| p.client_id@ == id && p.status != ProjectStatus::Archived).len()
}

/// The warning shown before deleting a client with `n > 0` live projects.
pub open spec fn archive_warning(n: nat) -> Seq<char> {
    int_text(n as int) + " project"@ + (if n == 1 { Seq::empty() } else { "s"@ }) + " will be archived"@
}

/// `d` on the list pane asks to confirm deleting the highlighted project or client.
pub open spec fn delete_asked(a: App, b: App) -> bool {
    match a.active_view {
        View::Projects => match selected_item(a.projects@, a.project_list.selected) {
            Some(p) => {
                &&& only_mode(a, b)
                &&& b.mode matches Mode::ConfirmDelete { kind, id, name, warning, context }
                    && kind@ == "project"@ && id@ == p.id@ && name@ == p.name@ && warning is None
                    && context is None
            },
            None => b == a,
        },
        View::Clients => match selected_item(a.clients@, a.client_list.selected) {
            Some(c) => {
                let n = live_projects(a.projects@, c.id@);
                &&& only_mode(a, b)
                &&& b.mode matches Mode::ConfirmDelete { kind, id, name, warning, context }
                    && kind@ == "client"@ && id@ == c.id@ && name@ == c.name@ && opt_view(warning) == (
                    if n > 0 {
                        Some(archive_warning(n))
                    } else {
                        None
                    }) && context is None
            },
            None => b == a,
        },
        View::Dashboard => b == a,
    }
}

/// The new-client form is open on an empty form, focused.
pub open spec fn opened_new_client(a: App, b: App) -> bool {
    &&& b == (App { mode: b.mode, focus: Focus::Right, ..a })
    &&& b.mode matches Mode::NewClient(g) && fields_view(g.fields@) == client_form_fields(
        Seq::empty(),
        Seq::empty(),
        Seq::empty(),
        Seq::empty(),
        Seq::empty(),
        Seq::empty(),
        "EUR"@,
        Seq::empty(),
    ) && g.focused == 0 && g.error is None && g.edit_id is None
}

/// The new-project form is open on an empty form, focused.
pub open spec fn opened_new_project(a: App, b: App) -> bool {
    &&& b == (App { mode: b.mode, focus: Focus::Right, ..a })
    &&& b.mode matches Mode::NewProject(g) && fields_view(g.fields@) == project_form_fields(
        Seq::empty(),
        Seq::empty(),
        Seq::empty(),
        "active"@,
        "total"@,
        Seq::empty(),
        Seq::empty(),
        Seq::empty(),
        Seq::empty(),
        Seq::empty(),
    ) && g.focused == 0 && g.error is None && g.edit_id is None
}

/// The client form is open on client `cl`, for editing it.
pub open spec fn opened_client_edit(a: App, cl: Client, b: App) -> bool {
    &&& b == (App { mode: b.mode, focus: Focus::Right, ..a })
    &&& b.mode matches Mode::NewClient(g) && fields_view(g.fields@) == client_form_fields(
        cl.name@,
        opt_or_empty(cl.domain),
        opt_or_empty(cl.city),
        opt_or_empty(cl.country),
        opt_or_empty(cl.primary_contact),
        opt_or_empty(cl.primary_role),
        cl.currency@,
        rate_units_text(cl.default_rate_cents),
    ) && g.focused == 0 && g.error is None && opt_view(g.edit_id) == Some(cl.id@)
}

/// What a character key does in Normal mode (no `g` pending).
pub open spec fn normal_char_ok(a: App, c: char, b: App, e: Effect) -> bool {
    let v = a.active_view;
    if c == 'e' && v == View::Projects {
        &&& b == a
        &&& match selected_item(a.projects@, a.project_list.selected) {
            Some(_) => e == Effect::EditProject { index: a.project_list.selected.unwrap() },
            None => e is Nothing,
        }
    } else {
        &&& e is Nothing
        &&& if c == 'q' {
            b == (App { should_quit: true, ..a })
        } else if c == '1' {
            b == switched(a, View::Dashboard)
        } else if c == '2' {
            b == switched(a, View::Clients)
        } else if c == '3' {
            b == switched(a, View::Projects)
        } else if c == 'g' {
            b == (App { g_pending: true, ..a })
        } else if c == 'j' {
            b == app_nav(a, 1)
        } else if c == 'k' {
            b == app_nav(a, -1)
        } else if c == 'G' {
            b == nav_last_of(a)
        } else {
            normal_view_char_ok(a, c, b)
        }
    }
}

/// What a character key does in Normal mode that depends on the view or opens
/// another mode.
pub open spec fn normal_view_char_ok(a: App, c: char, b: App) -> bool {
    let v = a.active_view;
    if c == 'd' && a.focus == Focus::Left {
            delete_asked(a, b)
        } else if c == 'n' && v == View::Clients {
            opened_new_client(a, b)
        } else if c == 'n' && v == View::Projects {
            opened_new_project(a, b)
        } else if c == 'c' && v == View::Clients {
            match selected_item(a.clients@, a.client_list.selected) {
                Some(_) => b == (App {
                    mode: Mode::ViewContacts,
                    focus: Focus::Right,
                    contact_list: ListState { selected: first_row(selected_contact_count(a)) },
                    ..a
                }),
                None => b == a,
            }
        } else if c == 'e' && v == View::Clients {
            match selected_item(a.clients@, a.client_list.selected) {
                Some(cl) => opened_client_edit(a, cl, b),
                None => b == a,
            }
        } else if c == 'l' && v == View::Projects {
            match selected_item(a.projects@, a.project_list.selected) {
                Some(p) => {
                    &&& b == (App {
                        mode: b.mode,
                        focus: Focus::Right,
                        hours_list: ListState { selected: first_row(hours_count(a, p.id@)) },
                        ..a
                    })
                    &&& b.mode matches Mode::ViewHours { project_id } && project_id@ == p.id@
                },
                None => b == a,
            }
        } else {
            normal_other_char_ok(a, c, b)
        }
}

/// What the repair, focus, search and command keys do in Normal mode.
pub open spec fn normal_other_char_ok(a: App, c: char, b: App) -> bool {
        if c == 'r' && a.active_view == View::Dashboard && a.broken_projects@.len() > 0 {
            b == (App {
                mode: Mode::RepairProject { idx: 0, chosen: ProjectStatus::Active, error: None },
                ..a
            })
        } else if c == 'h' {
            b == (App { focus: Focus::Left, ..a })
        } else if c == '/' {
            &&& b == (App {
                mode: b.mode,
                input: b.input,
                search_results: b.search_results,
                search_list: ListState { selected: None },
                ..a
            })
            &&& b.mode matches Mode::Search(t) && t@.len() == 0
            &&& b.input@.len() == 0
            &&& b.search_results@.len() == 0
        } else if c == ':' {
            &&& b == (App { mode: b.mode, input: b.input, ..a })
            &&& b.mode matches Mode::Command(t) && t@.len() == 0
            &&& b.input@.len() == 0
        } else {
            b == a
        }
}

/// What a key does in Normal mode when no `g` is pending.
pub open spec fn normal_main_ok(a: App, k: KeyEvent, b: App, e: Effect) -> bool {
    match k.code {
        KeyCode::Char(c) => normal_char_ok(a, c, b, e),
        KeyCode::Down => b == app_nav(a, 1) && e is Nothing,
        KeyCode::Up => b == app_nav(a, -1) && e is Nothing,
        KeyCode::Left => b == (App { focus: Focus::Left, ..a }) && e is Nothing,
        KeyCode::Esc => b == (App { g_pending: false, ..a }) && e is Nothing,
        _ => b == a && e is Nothing,
    }
}

/// What a key does in Normal mode: after `g`, the keys `d`, `c`, `p` switch view
/// and `g` goes to the top; any other key clears the pending `g` and acts as usual.
pub open spec fn normal_ok(a: App, k: KeyEvent, b: App, e: Effect) -> bool {
    let a1 = App { g_pending: false, ..a };
    if a.g_pending {
        match k.code {
            KeyCode::Char(c) => if c == 'd' {
                b == switched(a1, View::Dashboard) && e is Nothing
            } else if c == 'c' {
                b == switched(a1, View::Clients) && e is Nothing
            } else if c == 'p' {
                b == switched(a1, View::Projects) && e is Nothing
            } else if c == 'g' {
                b == nav_first_of(a1) && e is Nothing
            } else {
                normal_char_ok(a1, c, b, e)
            },
            _ => normal_main_ok(a1, k, b, e),
        }
    } else {
        normal_main_ok(a, k, b, e)
    }
}

fn live_project_count(projects: &Vec<Project>, client_id: &str) -> (n: usize)
    ensures
        n == live_projects(projects@, client_id@),
{
    let ghost pred = |p: Project| p.client_id@ == client_id@ && p.status != ProjectStatus::Archived;
    let mut n: usize = 0;
    let mut i: usize = 0;
    while i < projects.len()
        invariant
            i <= projects@.len(),
            pred == (|p: Project| p.client_id@ == client_id@ && p.status != ProjectStatus::Archived),
            n == projects@.take(i as int).filter(pred).len(),
            n <= i,
        decreases projects.len() - i,
    {
        proof {
            reveal_with_fuel(Seq::<_>::filter, 1);
            assert(projects@.take(i + 1).drop_last() =~= projects@.take(i as int));
        }
        let p = &projects[i];
        let archived = match p.status {
            ProjectStatus::Archived => true,
            _ => false,
        };
        if str_eq(p.client_id.as_str(), client_id) && !archived {
            n = n + 1;
        }
        i = i + 1;
    }
    assert(projects@.take(i as int) =~= projects@);
    n
}

fn ask_delete(app: &mut App)
    requires
        old(app).mode == Mode::Normal,
    ensures
        delete_asked(*old(app), *final(app)),
{
    match app.active_view {
        View::Projects => {
            let data = match app.selected_project() {
                Some(p) => Some((copy_string(&p.id), copy_string(&p.name))),
                None => None,
            };
            match data {
                Some((id, name)) => {
                    app.mode = Mode::ConfirmDelete {
                        kind: owned("project"),
                        id,
                        name,
                        warning: None,
                        context: None,
                    };
                },
                None => {},
            }
        },
        View::Clients => {
            let data = match app.selected_client() {
                Some(c) => Some((copy_string(&c.id), copy_string(&c.name))),
                None => None,
            };
            match data {
                Some((id, name)) => {
                    let n = live_project_count(&app.projects, id.as_str());
                    let warning = if n > 0 {
                        let mut w = u64_text(n as u64);
                        w.append(" project");
                        if n != 1 {
                            w.append("s");
                        }
                        w.append(" will be archived");
                        assert(w@ =~= archive_warning(n as nat));
                        Some(w)
                    } else {
                        None
                    };
                    app.mode = Mode::ConfirmDelete {
                        kind: owned("client"),
                        id,
                        name,
                        warning,
                        context: None,
                    };
                },
                None => {},
            }
        },
        View::Dashboard => {},
    }
}

fn normal_char(app: &mut App, c: char) -> (e: Effect)
    requires
        old(app).mode == Mode::Normal,
    ensures
        normal_char_ok(*old(app), c, *final(app), e),
        mode_wf(final(app).mode),
{
    let v = app.active_view;
    if c == 'e' && v == View::Projects {
        return match app.project_list.selected {
            Some(i) => if i < app.projects.len() {
                Effect::EditProject { index: i }
            } else {
                Effect::Nothing
            },
            None => Effect::Nothing,
        };
    }
    if c == 'q' {
        app.should_quit = true;
    } else if c == '1' {
        app.switch_view(View::Dashboard);
    } else if c == '2' {
        app.switch_view(View::Clients);
    } else if c == '3' {
        app.switch_view(View::Projects);
    } else if c == 'g' {
        app.g_pending = true;
    } else if c == 'j' {
        app.nav_down();
    } else if c == 'k' {
        app.nav_up();
    } else if c == 'G' {
        app.nav_last();
    } else {
        normal_view_char(app, c);
    }
    Effect::Nothing
}

fn normal_view_char(app: &mut App, c: char)
    requires
        old(app).mode == Mode::Normal,
    ensures
        normal_view_char_ok(*old(app), c, *final(app)),
        mode_wf(final(app).mode),
{
    let v = app.active_view;
    if c == 'd' && app.focus == Focus::Left {
        ask_delete(app);
    } else if c == 'n' && v == View::Clients {
        let f = NewClientForm::new();
        assert(fields_view(f.fields@).len() == f.fields@.len());
        app.mode = Mode::NewClient(f);
        app.focus = Focus::Right;
    } else if c == 'n' && v == View::Projects {
        let f = NewProjectForm::new();
        assert(fields_view(f.fields@).len() == f.fields@.len());
        app.mode = Mode::NewProject(f);
        app.focus = Focus::Right;
    } else if c == 'c' && v == View::Clients {
        if app.selected_client().is_some() {
            app.enter_contact_list();
            app.mode = Mode::ViewContacts;
            app.focus = Focus::Right;
        }
    } else if c == 'e' && v == View::Clients {
        let form = match app.selected_client() {
            Some(cl) => Some(NewClientForm::from_client(cl)),
            None => None,
        };
        match form {
            Some(f) => {
                assert(fields_view(f.fields@).len() == f.fields@.len());
                app.mode = Mode::NewClient(f);
                app.focus = Focus::Right;
            },
            None => {},
        }
    } else if c == 'l' && v == View::Projects {
        let pid = match app.selected_project() {
            Some(p) => Some(copy_string(&p.id)),
            None => None,
        };
        match pid {
            Some(project_id) => {
                let count = app.project_hours_count(project_id.as_str());
                app.hours_list.select(if count > 0 { Some(0) } else { None });
                app.mode = Mode::ViewHours { project_id };
                app.focus = Focus::Right;
            },
            None => {},
        }
    } else {
        normal_other_char(app, c);
    }
}

fn normal_other_char(app: &mut App, c: char)
    requires
        old(app).mode == Mode::Normal,
    ensures
        normal_other_char_ok(*old(app), c, *final(app)),
        mode_wf(final(app).mode),
{
    if c == 'r' && app.active_view == View::Dashboard && app.broken_projects.len() > 0 {
        app.mode = Mode::RepairProject { idx: 0, chosen: ProjectStatus::Active, error: None };
    } else if c == 'h' {
        app.focus = Focus::Left;
    } else if c == '/' {
        app.mode = Mode::Search(String::new());
        app.input = String::new();
        app.init_search();
    } else if c == ':' {
        app.mode = Mode::Command(String::new());
        app.input = String::new();
    }
}

fn normal_main(app: &mut App, key: KeyEvent) -> (e: Effect)
    requires
        old(app).mode == Mode::Normal,
    ensures
        normal_main_ok(*old(app), key, *final(app), e),
        mode_wf(final(app).mode),
{
    match key.code {
        KeyCode::Char(c) => normal_char(app, c),
        KeyCode::Down => {
            app.nav_down();
            Effect::Nothing
        },
        KeyCode::Up => {
            app.nav_up();
            Effect::Nothing
        },
        KeyCode::Left => {
            app.focus = Focus::Left;
            Effect::Nothing
        },
        KeyCode::Esc => {
            app.g_pending = false;
            Effect::Nothing
        },
        _ => Effect::Nothing,
    }
}

fn handle_normal(app: &mut App, key: KeyEvent) -> (e: Effect)
    requires
        old(app).mode == Mode::Normal,
    ensures
        normal_ok(*old(app), key, *final(app), e),
        mode_wf(final(app).mode),
{
    if app.g_pending {
        app.g_pending = false;
        match key.code {
            KeyCode::Char(c) => {
                if c == 'd' {
                    app.switch_view(View::Dashboard);
                    return Effect::Nothing;
                } else if c == 'c' {
                    app.switch_view(View::Clients);
                    return Effect::Nothing;
                } else if c == 'p' {
                    app.switch_view(View::Projects);
                    return Effect::Nothing;
                } else if c == 'g' {
                    app.nav_first();
                    return Effect::Nothing;
                }
            },
            _ => {},
        }
    }
    normal_main(app, key)
}

// ── All modes ────────────────────────────────────────────────────────────────

/// What a key does to the whole state `a`, giving `b` and asking for `e`; a new
/// contact form is dated `today`. Before the start-up animation has finished, any
/// key just ends it.
pub open spec fn key_ok(a: App, k: KeyEvent, today: Seq<char>, b: App, e: Effect) -> bool {
    if a.boot_phase != BootPhase::Done {
        b == (App { boot_phase: BootPhase::Done, boot_skip: true, ..a }) && e is Nothing
    } else {
        match a.mode {
            Mode::Normal => normal_ok(a, k, b, e),
            Mode::Search(_) => search_ok(a, k, b) && e is Nothing,
            Mode::Command(_) => command_ok(a, k, b) && e is Nothing,
            Mode::ConfirmDelete { kind, id, context, .. } => confirm_ok(a, kind, id, context, k, b, e),
            Mode::NewClient(f) => new_client_ok(a, f, k, b, e),
            Mode::NewProject(f) => new_project_ok(a, f, k, b, e),
            Mode::NewContact(f) => new_contact_ok(a, f, k, b, e),
            Mode::ViewContacts => view_contacts_ok(a, k, today, b, e),
            Mode::AddHours { project_id, input, .. } => add_hours_ok(a, project_id, input, k, b, e),
            Mode::ViewHours { project_id } => view_hours_ok(a, project_id, k, b, e),
            Mode::EditHours { project_id, activity_id, date_input, hours_input, focused, .. } =>
                edit_hours_ok(a, project_id, activity_id, date_input, hours_input, focused, k, b, e),
            Mode::RepairProject { idx, chosen, .. } => repair_ok(a, idx, chosen, k, b, e),
        }
    }
}

/// The key does not slice an hour entry's time inside a character (the one way
/// a key could fail).
pub open spec fn key_safe(a: App, k: KeyEvent) -> bool {
    a.boot_phase == BootPhase::Done ==> match a.mode {
        Mode::ViewHours { project_id } => hours_key_safe(a, project_id@, k),
        _ => true,
    }
}

impl App {
    /// Whether the open form has all its fields and its focus among them.
    pub fn forms_whole(&self) -> (b: bool)
        ensures
            b == mode_wf(self.mode),
    {
        match &self.mode {
            Mode::NewClient(f) => f.fields.len() >= 8 && f.focused < f.fields.len(),
            Mode::NewProject(f) => f.fields.len() >= 10 && f.focused < f.fields.len(),
            Mode::NewContact(f) => f.fields.len() >= 3 && f.focused < f.fields.len(),
            _ => true,
        }
    }

    /// Whether `key` can be handled: in the hour log, `e` and `d` read the date
    /// from the first ten bytes of the highlighted entry's time.
    pub fn key_is_safe(&self, key: KeyEvent) -> (b: bool)
        ensures
            b == key_safe(*self, key),
    {
        if self.boot_phase != BootPhase::Done {
            return true;
        }
        match &self.mode {
            Mode::ViewHours { project_id } => match self.selected_hours_entry(project_id.as_str()) {
                Some(en) => {
                    let at = en.at.as_str();
                    let len = byte_len(at);
                    let cut: usize = if len < 10 { len } else { 10 };
                    let is_e = key.code == KeyCode::Char('e');
                    let is_d = key.code == KeyCode::Char('d');
                    (!is_e || is_char_boundary(at, cut)) && (!is_d || (len >= 10 && is_char_boundary(at, 10)))
                },
                None => true,
            },
            _ => true,
        }
    }
}

/// Handles one key press, dating a new contact `today`, and returns the outside
/// work it asks for.
pub fn handle_key_on(key: KeyEvent, app: &mut App, today: &str) -> (e: Effect)
    requires
        mode_wf(old(app).mode),
        key_safe(*old(app), key),
    ensures
        key_ok(*old(app), key, today@, *final(app), e),
        mode_wf(final(app).mode),
{
    if !app.boot_done() {
        app.skip_boot();
        return Effect::Nothing;
    }
    let mut mode = Mode::Normal;
    std::mem::swap(&mut mode, &mut app.mode);
    match mode {
        Mode::Normal => handle_normal(app, key),
        Mode::Search(q) => {
            handle_search(app, key, q);
            Effect::Nothing
        },
        Mode::Command(t) => {
            handle_command(app, key, t);
            Effect::Nothing
        },
        Mode::ConfirmDelete { kind, id, name, warning, context } => handle_confirm_delete(
            app,
            key,
            kind,
            id,
            name,
            warning,
            context,
        ),
        Mode::NewClient(f) => handle_new_client(app, key, f),
        Mode::NewProject(f) => handle_new_project(app, key, f),
        Mode::NewContact(f) => handle_new_contact(app, key, f),
        Mode::ViewContacts => handle_view_contacts(app, key, today),
        Mode::AddHours { project_id, input, error } => handle_add_hours(app, key, project_id, input, error),
        Mode::ViewHours { project_id } => handle_view_hours(app, key, project_id),
        Mode::EditHours { project_id, activity_id, date_input, hours_input, focused, error } =>
            handle_edit_hours(app, key, project_id, activity_id, date_input, hours_input, focused, error),
        Mode::RepairProject { idx, chosen, error } => handle_repair(app, key, idx, chosen, error),
    }
}

/// Handles one key press (a new contact is dated today, local time) and returns
/// the outside work it asks for.
pub fn handle_key(key: KeyEvent, app: &mut App) -> (e: Effect)
    requires
        mode_wf(old(app).mode),
        key_safe(*old(app), key),
    ensures
        exists|today: Seq<char>| ymd_text(today) && #[trigger] key_ok(*old(app), key, today, *final(app), e),
        mode_wf(final(app).mode),
{
    let today = today_ymd();
    handle_key_on(key, app, today.as_str())
}

// ── After the outside work ───────────────────────────────────────────────────

/// How logging or changing hours went.
#[derive(Debug)]
pub enum HoursOutcome {
    /// The hours were written.
    Saved,
    /// The typed hours are not a number above zero.
    Invalid,
    /// Writing failed with this message.
    Failed(String),
}

/// What an hour editor shows after `outcome`: nothing, or an error text.
pub open spec fn hours_error(outcome: HoursOutcome, invalid: Seq<char>) -> Option<Seq<char>> {
    match outcome {
        HoursOutcome::Saved => None,
        HoursOutcome::Invalid => Some(invalid),
        HoursOutcome::Failed(m) => Some(m@),
    }
}

/// The error shown when typed hours are not a number above zero.
pub open spec fn add_hours_invalid() -> Seq<char> {
    "enter a number > 0 (e.g. 2 or 1.5)"@
}

/// The error shown when edited hours are not a number above zero.
pub open spec fn edit_hours_invalid() -> Seq<char> {
    "hours must be > 0 (e.g. 2 or 1.5)"@
}

fn outcome_error(outcome: HoursOutcome, invalid: &str) -> (r: Option<String>)
    ensures
        opt_view(r) == hours_error(outcome, invalid@),
{
    match outcome {
        HoursOutcome::Saved => None,
        HoursOutcome::Invalid => Some(owned(invalid)),
        HoursOutcome::Failed(m) => Some(m),
    }
}

impl App {
    /// After saving contact `form`: on success (`Ok` with the contacts read back)
    /// the contact list shows again; on failure the form stays open with the
    /// message.
    pub fn contact_save_finished(&mut self, form: NewContactForm, result: Result<Vec<ContactMoment>, String>)
        ensures
            match result {
                Ok(contacts) => *final(self) == (App {
                    mode: Mode::ViewContacts,
                    contacts: contacts,
                    ..*old(self)
                }),
                Err(msg) => {
                    &&& only_mode(*old(self), *final(self))
                    &&& final(self).mode matches Mode::NewContact(g) && contact_form_is(
                        g,
                        form,
                        fields_view(form.fields@),
                        form.focused as nat,
                        Some(msg@),
                    )
                },
            },
            form.fields@.len() >= 3 && form.focused < form.fields@.len() ==> mode_wf(final(self).mode),
    {
        match result {
            Ok(contacts) => {
                self.contacts = contacts;
                self.mode = Mode::ViewContacts;
            },
            Err(msg) => {
                let mut form = form;
                form.error = Some(msg);
                self.mode = Mode::NewContact(form);
            },
        }
    }

    /// After saving project `form` (the projects already read back): success
    /// closes the form; failure keeps it open with the message.
    pub fn project_save_finished(&mut self, form: NewProjectForm, result: Result<(), String>)
        ensures
            match result {
                Ok(_) => *final(self) == closed_form(*old(self)),
                Err(msg) => {
                    &&& only_mode(*old(self), *final(self))
                    &&& final(self).mode matches Mode::NewProject(g) && project_form_is(
                        g,
                        form,
                        fields_view(form.fields@),
                        form.focused as nat,
                        Some(msg@),
                    )
                },
            },
            form.fields@.len() >= 10 && form.focused < form.fields@.len() ==> mode_wf(final(self).mode),
    {
        match result {
            Ok(_) => {
                self.mode = Mode::Normal;
                self.focus = Focus::Left;
            },
            Err(msg) => {
                let mut form = form;
                form.error = Some(msg);
                self.mode = Mode::NewProject(form);
            },
        }
    }

    /// After logging the hours typed for project `project_id`: saved hours show
    /// the hour log; otherwise the entry stays open with the error.
    pub fn hours_add_finished(&mut self, project_id: String, input: String, outcome: HoursOutcome)
        ensures
            match outcome {
                HoursOutcome::Saved => *final(self) == (App {
                    mode: Mode::ViewHours { project_id: project_id },
                    focus: Focus::Right,
                    ..*old(self)
                }),
                _ => {
                    &&& only_mode(*old(self), *final(self))
                    &&& final(self).mode matches Mode::AddHours { project_id: p, input: i, error: er }
                        && p == project_id && i == input && opt_view(er) == hours_error(
                        outcome,
                        add_hours_invalid(),
                    )
                },
            },
            mode_wf(final(self).mode),
    {
        match outcome {
            HoursOutcome::Saved => {
                self.mode = Mode::ViewHours { project_id };
                self.focus = Focus::Right;
            },
            _ => {
                let error = outcome_error(outcome, "enter a number > 0 (e.g. 2 or 1.5)");
                self.mode = Mode::AddHours { project_id, input, error };
            },
        }
    }

    /// After changing hour entry `activity_id`: saved changes show the hour log;
    /// otherwise the editor stays open with the error.
    pub fn hours_edit_finished(
        &mut self,
        project_id: String,
        activity_id: String,
        date_input: String,
        hours_input: String,
        focused: usize,
        outcome: HoursOutcome,
    )
        ensures
            match outcome {
                HoursOutcome::Saved => *final(self) == (App {
                    mode: Mode::ViewHours { project_id: project_id },
                    ..*old(self)
                }),
                _ => {
                    &&& only_mode(*old(self), *final(self))
                    &&& final(self).mode matches Mode::EditHours {
                        project_id: p,
                        activity_id: x,
                        date_input: d,
                        hours_input: h,
                        focused: f,
                        error: er,
                    } && p == project_id && x == activity_id && d == date_input && h == hours_input
                        && f == focused && opt_view(er) == hours_error(outcome, edit_hours_invalid())
                },
            },
            mode_wf(final(self).mode),
    {
        match outcome {
            HoursOutcome::Saved => {
                self.mode = Mode::ViewHours { project_id };
            },
            _ => {
                let error = outcome_error(outcome, "hours must be > 0 (e.g. 2 or 1.5)");
                self.mode = Mode::EditHours { project_id, activity_id, date_input, hours_input, focused, error };
            },
        }
    }

    /// After rewriting broken project file `idx` with status `chosen`: success
    /// returns to Normal mode; failure keeps the choice open with the message.
    pub fn repair_finished(&mut self, idx: usize, chosen: ProjectStatus, result: Result<(), String>)
        ensures
            match result {
                Ok(_) => *final(self) == (App { mode: Mode::Normal, ..*old(self) }),
                Err(msg) => {
                    &&& only_mode(*old(self), *final(self))
                    &&& final(self).mode matches Mode::RepairProject { idx: i, chosen: c, error: Some(m) }
                        && i == idx && c == chosen && m == msg
                },
            },
            mode_wf(final(self).mode),
    {
        match result {
            Ok(_) => self.mode = Mode::Normal,
            Err(msg) => self.mode = Mode::RepairProject { idx, chosen, error: Some(msg) },
        }
    }

    /// After an hour entry of project `project_id` was deleted (and the activity
    /// read back): the hour-log highlight stays within the remaining entries.
    pub fn hours_entry_deleted(&mut self, project_id: &str)
        ensures
            *final(self) == (App {
                hours_list: ListState {
                    selected: clamped(old(self).hours_list.selected, hours_count(*old(self), project_id@)),
                },
                ..*old(self)
            }),
    {
        let count = self.project_hours_count(project_id);
        crate::nav::clamp_list(&mut self.hours_list, count);
    }

    /// Opens the form for editing project `index`, whose budget hours read
    /// `budget_hours_text` (nothing happens for an index past the list).
    pub fn open_project_form(&mut self, index: usize, budget_hours_text: String)
        ensures
            index < old(self).projects@.len() ==> {
                let p = old(self).projects@[index as int];
                &&& *final(self) == (App { mode: final(self).mode, focus: Focus::Right, ..*old(self) })
                &&& final(self).mode matches Mode::NewProject(g) && fields_view(g.fields@)
                    == project_form_fields(
                    p.name@,
                    opt_or_empty(p.client_name),
                    opt_or_empty(p.summary),
                    status_name(p.status),
                    p.budget_kind@,
                    budget_hours_text@,
                    rate_units_text(p.rate_cents),
                    opt_or_empty(p.deadline),
                    opt_or_empty(p.owner),
                    opt_or_empty(p.repo_url),
                ) && g.focused == 0 && g.error is None && opt_view(g.edit_id) == Some(p.id@)
            },
            index >= old(self).projects@.len() ==> *final(self) == *old(self),
            mode_wf(old(self).mode) ==> mode_wf(final(self).mode),
    {
        if index < self.projects.len() {
            let f = NewProjectForm::from_project(&self.projects[index], budget_hours_text);
            assert(fields_view(f.fields@).len() == f.fields@.len());
            self.mode = Mode::NewProject(f);
            self.focus = Focus::Right;
        }
    }

    /// Opens the editor of hour entry `activity_id` of project `project_id`, on
    /// its date, with its hours written `hours_text`.
    pub fn open_hours_editor(&mut self, project_id: String, activity_id: String, date: String, hours_text: String)
        ensures
            *final(self) == (App {
                mode: Mode::EditHours {
                    project_id: project_id,
                    activity_id: activity_id,
                    date_input: date,
                    hours_input: hours_text,
                    focused: 0,
                    error: None,
                },
                ..*old(self)
            }),
    {
        self.mode = Mode::EditHours {
            project_id,
            activity_id,
            date_input: date,
            hours_input: hours_text,
            focused: 0,
            error: None,
        };
    }

    /// Asks to confirm deleting hour entry `activity_id` of project `project_id`,
    /// named by its date `label` and its hours written `hours_text`.
    pub fn confirm_hours_delete(&mut self, project_id: String, activity_id: String, label: &str, hours_text: &str)
        ensures
            only_mode(*old(self), *final(self)),
            final(self).mode matches Mode::ConfirmDelete { kind, id, name, warning, context }
                && kind@ == "hours_entry"@ && id == activity_id && name@ == label@ + " ("@ + hours_text@
                + "h)"@ && warning is None && context == Some(project_id),
    {
        let mut name = owned(label);
        name.append(" (");
        name.append(hours_text);
        name.append("h)");
        self.mode = Mode::ConfirmDelete {
            kind: owned("hours_entry"),
            id: activity_id,
            name,
            warning: None,
            context: Some(project_id),
        };
    }
}

// ── Laws ─────────────────────────────────────────────────────────────────────

/// A plain key press (Control not held).
pub open spec fn plain(code: KeyCode) -> KeyEvent {
    KeyEvent { code, ctrl: false }
}

/// The highlighted row of the active view's list.
pub open spec fn active_selection(a: App) -> Option<usize> {
    match a.active_view {
        View::Dashboard => a.dashboard_list.selected,
        View::Clients => a.client_list.selected,
        View::Projects => a.project_list.selected,
    }
}

/// The number of rows of the active view's list.
pub open spec fn active_len(a: App) -> nat {
    match a.active_view {
        View::Clients => a.clients@.len(),
        _ => a.projects@.len(),
    }
}

/// Esc goes back to Normal mode from any mode.
pub proof fn law_esc_returns_to_normal(a: App, k: KeyEvent, today: Seq<char>, b: App, e: Effect)
    requires
        a.boot_phase == BootPhase::Done,
        k.code == KeyCode::Esc,
        key_ok(a, k, today, b, e),
    ensures
        b.mode == Mode::Normal,
{
}

/// A deletion is only ever asked for by `y` (or `Y`) on a confirmation.
pub proof fn law_deletion_is_confirmed(a: App, k: KeyEvent, today: Seq<char>, b: App, e: Effect)
    requires
        key_ok(a, k, today, b, e),
        e is DeleteClient || e is DeleteProject || e is DeleteContact || e is DeleteHoursEntry,
    ensures
        a.mode is ConfirmDelete,
        k.code == KeyCode::Char('y') || k.code == KeyCode::Char('Y'),
{
}

/// A form is only ever saved when its required fields are filled in.
pub proof fn law_saved_forms_are_filled(a: App, k: KeyEvent, today: Seq<char>, b: App, e: Effect)
    requires
        mode_wf(a.mode),
        key_ok(a, k, today, b, e),
    ensures
        e matches Effect::SaveClient(f) ==> !is_blank(f.fields@[0].value@),
        e matches Effect::SaveProject(f) ==> !is_blank(f.fields@[0].value@) && !is_blank(
            f.fields@[1].value@,
        ),
        e matches Effect::SaveContact(f) ==> !is_blank(f.fields@[0].value@) && !is_blank(
            f.fields@[2].value@,
        ),
{
    match e {
        Effect::SaveProject(f) => {
            if let Mode::NewProject(form) = a.mode {
                assert(fields_view(f.fields@) == fields_view(form.fields@));
                assert(fields_view(f.fields@)[0] == field_view(f.fields@[0]));
                assert(fields_view(form.fields@)[0] == field_view(form.fields@[0]));
                assert(fields_view(f.fields@)[1] == field_view(f.fields@[1]));
                assert(fields_view(form.fields@)[1] == field_view(form.fields@[1]));
            }
        },
        Effect::SaveContact(f) => {
            if let Mode::NewContact(form) = a.mode {
                assert(fields_view(f.fields@) == fields_view(form.fields@));
                assert(fields_view(f.fields@)[0] == field_view(f.fields@[0]));
                assert(fields_view(form.fields@)[0] == field_view(form.fields@[0]));
                assert(fields_view(f.fields@)[2] == field_view(f.fields@[2]));
                assert(fields_view(form.fields@)[2] == field_view(form.fields@[2]));
            }
        },
        _ => {},
    }
}

/// In Normal mode `1`, `2` and `3` show the dashboard, the clients and the projects.
pub proof fn law_digits_pick_views(a: App, c: char, today: Seq<char>, b: App, e: Effect)
    requires
        a.boot_phase == BootPhase::Done,
        a.mode == Mode::Normal,
        c == '1' || c == '2' || c == '3',
        key_ok(a, plain(KeyCode::Char(c)), today, b, e),
    ensures
        b.active_view == (if c == '1' {
            View::Dashboard
        } else if c == '2' {
            View::Clients
        } else {
            View::Projects
        }),
        b.mode == Mode::Normal,
{
}

/// In Normal mode `q` quits.
pub proof fn law_q_quits(a: App, today: Seq<char>, b: App, e: Effect)
    requires
        a.boot_phase == BootPhase::Done,
        a.mode == Mode::Normal,
        key_ok(a, plain(KeyCode::Char('q')), today, b, e),
    ensures
        b.should_quit,
{
}

/// In Normal mode `g` `g` highlights the first row of the active list.
pub proof fn law_gg_goes_to_top(
    a: App,
    today: Seq<char>,
    b: App,
    e1: Effect,
    c: App,
    e2: Effect,
)
    requires
        a.boot_phase == BootPhase::Done,
        a.mode == Mode::Normal,
        key_ok(a, plain(KeyCode::Char('g')), today, b, e1),
        key_ok(b, plain(KeyCode::Char('g')), today, c, e2),
    ensures
        active_selection(c) == Some(0usize),
        c.active_view == a.active_view,
        c.mode == Mode::Normal,
{
}

/// In Normal mode `G` highlights the last row of a non-empty active list.
pub proof fn law_shift_g_goes_to_bottom(a: App, today: Seq<char>, b: App, e: Effect)
    requires
        a.boot_phase == BootPhase::Done,
        a.mode == Mode::Normal,
        !a.g_pending,
        active_len(a) > 0,
        key_ok(a, plain(KeyCode::Char('G')), today, b, e),
    ensures
        active_selection(b) == Some((active_len(a) - 1) as usize),
{
}

/// In Normal mode `j` then `k` comes back to the highlighted row, when it is
/// not the last one.
pub proof fn law_down_then_up(
    a: App,
    today: Seq<char>,
    b: App,
    e1: Effect,
    c: App,
    e2: Effect,
)
    requires
        a.boot_phase == BootPhase::Done,
        a.mode == Mode::Normal,
        !a.g_pending,
        active_selection(a) matches Some(i) && i + 1 < active_len(a),
        active_len(a) <= usize::MAX,
        key_ok(a, plain(KeyCode::Char('j')), today, b, e1),
        key_ok(b, plain(KeyCode::Char('k')), today, c, e2),
    ensures
        c == a,
{
    let i = active_selection(a).unwrap();
    crate::nav::law_step_down_up(i, active_len(a));
}

/// Search filters live: a typed character (other than the `j`/`k` moves) lists
/// exactly the hits for the text typed so far, the first one highlighted.
pub proof fn law_search_is_live(a: App, c: char, today: Seq<char>, b: App, e: Effect)
    requires
        a.boot_phase == BootPhase::Done,
        a.mode is Search,
        c != 'j' && c != 'k',
        key_ok(a, plain(KeyCode::Char(c)), today, b, e),
    ensures
        b.input@ == a.input@.push(c),
        hits_view(b.search_results@) == search_hits(a, b.input@),
        b.search_list.selected == first_row(b.search_results@.len()),
        e is Nothing,
{
}

/// Esc never asks for outside work: nothing is saved or deleted.
pub proof fn law_escape_asks_nothing(a: App, k: KeyEvent, today: Seq<char>, b: App, e: Effect)
    requires
        k.code == KeyCode::Esc,
        key_ok(a, k, today, b, e),
    ensures
        e is Nothing,
{
}

/// In the client list, `c` opens the contact log of the highlighted client.
pub proof fn law_c_opens_contact_log(a: App, today: Seq<char>, b: App, e: Effect)
    requires
        a.boot_phase == BootPhase::Done,
        a.mode == Mode::Normal,
        !a.g_pending,
        a.active_view == View::Clients,
        selected_item(a.clients@, a.client_list.selected) is Some,
        key_ok(a, plain(KeyCode::Char('c')), today, b, e),
    ensures
        b.mode == Mode::ViewContacts,
        b.client_list == a.client_list,
        b.focus == Focus::Right,
        e is Nothing,
{
}

/// In the project list, `l` opens the hour log of the highlighted project.
pub proof fn law_l_opens_hour_log(a: App, today: Seq<char>, b: App, e: Effect)
    requires
        a.boot_phase == BootPhase::Done,
        a.mode == Mode::Normal,
        a.active_view == View::Projects,
        selected_item(a.projects@, a.project_list.selected) is Some,
        key_ok(a, plain(KeyCode::Char('l')), today, b, e),
    ensures
        b.mode matches Mode::ViewHours { project_id }
            && project_id@ == selected_item(a.projects@, a.project_list.selected).unwrap().id@,
        b.focus == Focus::Right,
        e is Nothing,
{
}

/// In the client or project list, `n` opens an empty form for a new record.
pub proof fn law_n_opens_new_form(a: App, today: Seq<char>, b: App, e: Effect)
    requires
        a.boot_phase == BootPhase::Done,
        a.mode == Mode::Normal,
        a.active_view != View::Dashboard,
        key_ok(a, plain(KeyCode::Char('n')), today, b, e),
    ensures
        a.active_view == View::Clients ==> (b.mode matches Mode::NewClient(f) && f.edit_id is None
            && f.focused == 0),
        a.active_view == View::Projects ==> (b.mode matches Mode::NewProject(f) && f.edit_id is None
            && f.focused == 0),
        b.focus == Focus::Right,
        e is Nothing,
{
}

/// On a highlighted client, `e` opens the client form on that client for
/// editing; on a highlighted project it asks for the project form.
pub proof fn law_e_edits_the_row(a: App, today: Seq<char>, b: App, e: Effect)
    requires
        a.boot_phase == BootPhase::Done,
        a.mode == Mode::Normal,
        a.active_view != View::Dashboard,
        active_selection(a) matches Some(i) && i < active_len(a),
        key_ok(a, plain(KeyCode::Char('e')), today, b, e),
    ensures
        a.active_view == View::Clients ==> (b.mode matches Mode::NewClient(f) && opt_view(f.edit_id)
            == Some(a.clients@[active_selection(a).unwrap() as int].id@)),
        a.active_view == View::Projects ==> b.mode == Mode::Normal && e == (Effect::EditProject {
            index: active_selection(a).unwrap(),
        }),
{
}

/// On a highlighted row of the focused list, `d` deletes nothing yet: it asks
/// for a confirmation naming the row.
pub proof fn law_d_asks_first(a: App, today: Seq<char>, b: App, e: Effect)
    requires
        a.boot_phase == BootPhase::Done,
        a.mode == Mode::Normal,
        !a.g_pending,
        a.focus == Focus::Left,
        a.active_view != View::Dashboard,
        active_selection(a) matches Some(i) && i < active_len(a),
        key_ok(a, plain(KeyCode::Char('d')), today, b, e),
    ensures
        b.mode matches Mode::ConfirmDelete { id, .. } && id@ == (if a.active_view == View::Clients {
            a.clients@[active_selection(a).unwrap() as int].id@
        } else {
            a.projects@[active_selection(a).unwrap() as int].id@
        }),
        e is Nothing,
{
}

/// In Normal mode `/` opens an empty live search and `:` an empty command line.
pub proof fn law_slash_and_colon_open_prompts(a: App, c: char, today: Seq<char>, b: App, e: Effect)
    requires
        a.boot_phase == BootPhase::Done,
        a.mode == Mode::Normal,
        c == '/' || c == ':',
        key_ok(a, plain(KeyCode::Char(c)), today, b, e),
    ensures
        c == '/' ==> (b.mode matches Mode::Search(t) && t@.len() == 0),
        c == ':' ==> (b.mode matches Mode::Command(t) && t@.len() == 0),
        b.input@.len() == 0,
        e is Nothing,
{
}

/// `:q` and `:quit` (in any case, with spaces around) quit.
pub proof fn law_colon_q_quits(a: App, today: Seq<char>, b: App, e: Effect)
    requires
        a.boot_phase == BootPhase::Done,
        a.mode is Command,
        spec_to_lowercase(trim(a.input@)) == "q"@ || spec_to_lowercase(trim(a.input@)) == "quit"@,
        key_ok(a, plain(KeyCode::Enter), today, b, e),
    ensures
        b.should_quit,
        b.mode == Mode::Normal,
{
}

} // verus!
