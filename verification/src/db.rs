//! Records kept by the record store, and the rules that order them.

use crate::text::str_eq;
use vstd::prelude::*;
use vstd::string::*;

verus! {

/// Column of the board a session sits in.
#[derive(Debug, Clone, Copy, PartialEq, Eq, Structural)]
pub enum Status {
    Planned,
    InProgress,
    Review,
    Done,
}

impl Status {
    /// The status at a position of the board, from 0 at the left; `Done` for
    /// any position from 3 on.
    pub open spec fn at(i: int) -> Status {
        if i == 0 {
            Status::Planned
        } else if i == 1 {
            Status::InProgress
        } else if i == 2 {
            Status::Review
        } else {
            Status::Done
        }
    }

    /// The text under which the status is stored.
    pub open spec fn stored_text(self) -> Seq<char> {
        match self {
            Status::Planned => "planned"@,
            Status::InProgress => "in_progress"@,
            Status::Review => "review"@,
            Status::Done => "done"@,
        }
    }

    /// The status that a stored text stands for, if any.
    pub open spec fn parse(s: Seq<char>) -> Option<Status> {
        if s == "planned"@ {
            Some(Status::Planned)
        } else if s == "in_progress"@ {
            Some(Status::InProgress)
        } else if s == "review"@ {
            Some(Status::Review)
        } else if s == "done"@ {
            Some(Status::Done)
        } else {
            None
        }
    }

    /// The heading shown above the column.
    pub open spec fn heading(self) -> Seq<char> {
        match self {
            Status::Planned => "Planned"@,
            Status::InProgress => "In Progress"@,
            Status::Review => "Review"@,
            Status::Done => "Done"@,
        }
    }

    /// The text under which the status is stored.
    pub fn as_str(&self) -> (r: &'static str)
        ensures
            r@ == self.stored_text(),
    {
        match self {
            Status::Planned => "planned",
            Status::InProgress => "in_progress",
            Status::Review => "review",
            Status::Done => "done",
        }
    }

    /// The status that a stored text stands for; `None` for any other text.
    pub fn from_str(s: &str) -> (r: Option<Status>)
        ensures
            r == Status::parse(s@),
    {
        if str_eq(s, "planned") {
            Some(Status::Planned)
        } else if str_eq(s, "in_progress") {
            Some(Status::InProgress)
        } else if str_eq(s, "review") {
            Some(Status::Review)
        } else if str_eq(s, "done") {
            Some(Status::Done)
        } else {
            None
        }
    }

    /// The heading shown above the column.
    pub fn label(&self) -> (r: &'static str)
        ensures
            r@ == self.heading(),
    {
        match self {
            Status::Planned => "Planned",
            Status::InProgress => "In Progress",
            Status::Review => "Review",
            Status::Done => "Done",
        }
    }

    /// The four statuses in board order.
    pub fn all() -> (r: &'static [Status])
        ensures
            r@.len() == 4,
            forall|i: int| 0 <= i < 4 ==> r@[i] == Status::at(i),
    {
        &[Status::Planned, Status::InProgress, Status::Review, Status::Done]
    }

    /// Reading back the stored text of a status gives that status.
    pub proof fn lemma_parse_stored_text(s: Status)
        ensures
            Status::parse(s.stored_text()) == Some(s),
    {
        reveal_strlit("planned");
        reveal_strlit("in_progress");
        reveal_strlit("review");
        reveal_strlit("done");
        assert("planned"@.len() == 7);
        assert("in_progress"@.len() == 11);
        assert("review"@.len() == 6);
        assert("done"@.len() == 4);
    }

    /// A text is read as a status only if it is that status's stored text.
    pub proof fn lemma_parse_exact(t: Seq<char>, s: Status)
        ensures
            Status::parse(t) == Some(s) <==> t == s.stored_text(),
    {
        reveal_strlit("planned");
        reveal_strlit("in_progress");
        reveal_strlit("review");
        reveal_strlit("done");
        assert("planned"@.len() == 7);
        assert("in_progress"@.len() == 11);
        assert("review"@.len() == 6);
        assert("done"@.len() == 4);
    }
}

/// View of an optional text.
pub open spec fn opt_text(o: Option<String>) -> Option<Seq<char>> {
    match o {
        Some(s) => Some(s@),
        None => None,
    }
}

/// A project: one per working directory.
#[derive(Debug, Clone)]
pub struct Project {
    pub id: i64,
    pub name: String,
    pub path: String,
}

/// A project over plain values.
pub struct ProjectView {
    pub id: i64,
    pub name: Seq<char>,
    pub path: Seq<char>,
}

impl View for Project {
    type V = ProjectView;

    open spec fn view(&self) -> ProjectView {
        ProjectView { id: self.id, name: self.name@, path: self.path@ }
    }
}

/// A unit of work on the board.
#[derive(Debug, Clone)]
pub struct Session {
    pub id: i64,
    pub project_id: i64,
    pub name: String,
    pub status: Status,
    pub checkout_path: Option<String>,
    pub branch_name: Option<String>,
    pub ticket_id: Option<String>,
    pub ticket_url: Option<String>,
    pub tmux_window: Option<String>,
    pub claude_session_id: Option<String>,
}

/// A session over plain values.
pub struct SessionView {
    pub id: i64,
    pub project_id: i64,
    pub name: Seq<char>,
    pub status: Status,
    pub checkout_path: Option<Seq<char>>,
    pub branch_name: Option<Seq<char>>,
    pub ticket_id: Option<Seq<char>>,
    pub ticket_url: Option<Seq<char>>,
    pub tmux_window: Option<Seq<char>>,
    pub claude_session_id: Option<Seq<char>>,
}

impl View for Session {
    type V = SessionView;

    open spec fn view(&self) -> SessionView {
        SessionView {
            id: self.id,
            project_id: self.project_id,
            name: self.name@,
            status: self.status,
            checkout_path: opt_text(self.checkout_path),
            branch_name: opt_text(self.branch_name),
            ticket_id: opt_text(self.ticket_id),
            ticket_url: opt_text(self.ticket_url),
            tmux_window: opt_text(self.tmux_window),
            claude_session_id: opt_text(self.claude_session_id),
        }
    }
}

impl DeepView for Session {
    type V = SessionView;

    open spec fn deep_view(&self) -> SessionView {
        self@
    }
}

/// The status that a stored text stands for; a text that names no status
/// reads as `Planned`.
pub fn status_from_stored(text: &str) -> (r: Status)
    ensures
        r == match Status::parse(text@) {
            Some(s) => s,
            None => Status::Planned,
        },
{
    match Status::from_str(text) {
        Some(s) => s,
        None => Status::Planned,
    }
}

/// A custom column of a project's sessions.
#[derive(Debug, Clone)]
pub struct Field {
    pub id: i64,
    pub project_id: i64,
    pub name: String,
    pub description: String,
    pub display_order: i64,
    pub visible: bool,
}

/// A field over plain values.
pub struct FieldView {
    pub id: i64,
    pub project_id: i64,
    pub name: Seq<char>,
    pub description: Seq<char>,
    pub display_order: i64,
    pub visible: bool,
}

impl View for Field {
    type V = FieldView;

    open spec fn view(&self) -> FieldView {
        FieldView {
            id: self.id,
            project_id: self.project_id,
            name: self.name@,
            description: self.description@,
            display_order: self.display_order,
            visible: self.visible,
        }
    }
}

impl DeepView for Field {
    type V = FieldView;

    open spec fn deep_view(&self) -> FieldView {
        self@
    }
}

/// Two updates of `display_order`, applied in this order: the field
/// `first_id` gets `first_order`, then the field `second_id` gets
/// `second_order`.
#[derive(Debug, Clone, Copy, PartialEq, Eq, Structural)]
pub struct OrderSwap {
    pub first_id: i64,
    pub first_order: i64,
    pub second_id: i64,
    pub second_order: i64,
}

/// Index of the first field with the given id, or the length if there is none.
pub open spec fn position_from(fields: Seq<FieldView>, id: i64, i: int) -> int
    decreases fields.len() - i,
{
    if i < 0 || i >= fields.len() {
        fields.len() as int
    } else if fields[i].id == id {
        i
    } else {
        position_from(fields, id, i + 1)
    }
}

/// Index of the first field with the given id, or the length if there is none.
pub open spec fn position_of(fields: Seq<FieldView>, id: i64) -> int {
    position_from(fields, id, 0)
}

/// What `position_from` returns is the first index at or after `i` that
/// holds the id.
pub proof fn lemma_position_from(fields: Seq<FieldView>, id: i64, i: int)
    requires
        0 <= i <= fields.len(),
    ensures
        i <= position_from(fields, id, i) <= fields.len(),
        position_from(fields, id, i) < fields.len() ==> fields[position_from(fields, id, i)].id
            == id,
        forall|k: int| i <= k < position_from(fields, id, i) ==> (#[trigger] fields[k]).id != id,
    decreases fields.len() - i,
{
    if i < fields.len() && fields[i].id != id {
        lemma_position_from(fields, id, i + 1);
    }
}

/// The updates that move a field one place up in a listing: it trades its
/// `display_order` with the field before it. `None` where the field is not
/// listed or is the first.
pub open spec fn swap_up(fields: Seq<FieldView>, id: i64) -> Option<OrderSwap> {
    let i = position_of(fields, id);
    if 0 < i < fields.len() {
        Some(
            OrderSwap {
                first_id: id,
                first_order: fields[i - 1].display_order,
                second_id: fields[i - 1].id,
                second_order: fields[i].display_order,
            },
        )
    } else {
        None
    }
}

/// The updates that move a field one place down in a listing: it trades its
/// `display_order` with the field after it. `None` where the field is not
/// listed or is the last.
pub open spec fn swap_down(fields: Seq<FieldView>, id: i64) -> Option<OrderSwap> {
    let i = position_of(fields, id);
    if 0 <= i < fields.len() - 1 {
        Some(
            OrderSwap {
                first_id: id,
                first_order: fields[i + 1].display_order,
                second_id: fields[i + 1].id,
                second_order: fields[i].display_order,
            },
        )
    } else {
        None
    }
}

/// Index of the first field with the id, or the length if there is none.
fn find_field(fields: &Vec<Field>, id: i64) -> (i: usize)
    ensures
        i == position_of(fields.deep_view(), id),
        i <= fields.len(),
{
    let mut i: usize = 0;
    while i < fields.len()
        invariant
            i <= fields.len(),
            position_of(fields.deep_view(), id) == position_from(fields.deep_view(), id, i as int),
        decreases fields.len() - i,
    {
        if fields[i].id == id {
            return i;
        }
        i += 1;
    }
    i
}

/// Plans the move of a field one place up in the listing `fields`.
pub fn plan_move_up(fields: &Vec<Field>, field_id: i64) -> (r: Option<OrderSwap>)
    ensures
        r == swap_up(fields.deep_view(), field_id),
{
    let i = find_field(fields, field_id);
    if 0 < i && i < fields.len() {
        Some(
            OrderSwap {
                first_id: field_id,
                first_order: fields[i - 1].display_order,
                second_id: fields[i - 1].id,
                second_order: fields[i].display_order,
            },
        )
    } else {
        None
    }
}

/// Plans the move of a field one place down in the listing `fields`.
pub fn plan_move_down(fields: &Vec<Field>, field_id: i64) -> (r: Option<OrderSwap>)
    ensures
        r == swap_down(fields.deep_view(), field_id),
{
    let i = find_field(fields, field_id);
    if i < fields.len() && i < fields.len() - 1 {
        Some(
            OrderSwap {
                first_id: field_id,
                first_order: fields[i + 1].display_order,
                second_id: fields[i + 1].id,
                second_order: fields[i].display_order,
            },
        )
    } else {
        None
    }
}

/// The rows of a listing after the two updates of a swap, in the old places.
pub open spec fn updated(fields: Seq<FieldView>, swap: OrderSwap) -> Seq<FieldView> {
    Seq::new(
        fields.len(),
        |k: int|
            if fields[k].id == swap.second_id {
                FieldView { display_order: swap.second_order, ..fields[k] }
            } else if fields[k].id == swap.first_id {
                FieldView { display_order: swap.first_order, ..fields[k] }
            } else {
                fields[k]
            },
    )
}

/// The sequence with the entries at `i` and `i + 1` trading places.
pub open spec fn exchanged(fields: Seq<FieldView>, i: int) -> Seq<FieldView> {
    if 0 <= i < fields.len() - 1 {
        fields.update(i, fields[i + 1]).update(i + 1, fields[i])
    } else {
        fields
    }
}

/// A listing as the store gives it at steady state: ordered by
/// `display_order`, no order twice, no id twice.
pub open spec fn is_listing(fields: Seq<FieldView>) -> bool {
    &&& forall|a: int, b: int|
        0 <= a < b < fields.len() ==> (#[trigger] fields[a]).display_order < (
        #[trigger] fields[b]).display_order
    &&& forall|a: int, b: int|
        0 <= a < b < fields.len() ==> (#[trigger] fields[a]).id != (#[trigger] fields[b]).id
}

/// The listing after a field moved one place up: the updated rows, with the
/// field and the one before it trading places.
pub open spec fn moved_up(fields: Seq<FieldView>, id: i64) -> Seq<FieldView> {
    match swap_up(fields, id) {
        Some(swap) => exchanged(updated(fields, swap), position_of(fields, id) - 1),
        None => fields,
    }
}

/// The listing after a field moved one place down: the updated rows, with
/// the field and the one after it trading places.
pub open spec fn moved_down(fields: Seq<FieldView>, id: i64) -> Seq<FieldView> {
    match swap_down(fields, id) {
        Some(swap) => exchanged(updated(fields, swap), position_of(fields, id)),
        None => fields,
    }
}

/// Moving a field keeps the listing in the store's order: after the two
/// updates, the rows with the pair trading places are again ordered by
/// `display_order` without repeats, so that is how the store lists them.
pub proof fn lemma_move_keeps_listing(fields: Seq<FieldView>, id: i64)
    requires
        is_listing(fields),
    ensures
        is_listing(moved_up(fields, id)),
        is_listing(moved_down(fields, id)),
        moved_up(fields, id).len() == fields.len(),
        moved_down(fields, id).len() == fields.len(),
{
    lemma_position_from(fields, id, 0);
}

/// Reordering is a pure swap: a field that was moved up and then down is back
/// in its place, and so is every other field, with the `display_order` each
/// had before.
pub proof fn lemma_up_then_down(fields: Seq<FieldView>, id: i64)
    requires
        is_listing(fields),
        swap_up(fields, id) is Some,
    ensures
        moved_down(moved_up(fields, id), id) == fields,
{
    lemma_position_from(fields, id, 0);
    let i = position_of(fields, id);
    let up = moved_up(fields, id);
    lemma_position_from(up, id, 0);
    assert(up[i - 1].id == id);
    assert(position_of(up, id) == i - 1);
    assert(moved_down(up, id) =~= fields);
}

/// The same the other way round: down and then up.
pub proof fn lemma_down_then_up(fields: Seq<FieldView>, id: i64)
    requires
        is_listing(fields),
        swap_down(fields, id) is Some,
    ensures
        moved_up(moved_down(fields, id), id) == fields,
{
    lemma_position_from(fields, id, 0);
    let i = position_of(fields, id);
    let down = moved_down(fields, id);
    lemma_position_from(down, id, 0);
    assert(down[i + 1].id == id);
    assert(position_of(down, id) == i + 1);
    assert(moved_up(down, id) =~= fields);
}

} // verus!
