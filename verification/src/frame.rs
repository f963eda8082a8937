//! What a frame shows: the texts and tables a render pass reads off the session.

use crate::data::{Bank, Document, Entity, MemoryRecord, RecallResult};
use crate::input::InputMode;
use crate::session::ViewDataStore;
use crate::text::{
    before_first, decimal, first_chars, left_aligned, push_decimal, push_left_aligned,
    push_right_aligned, push_signed_decimal, right_aligned, signed_decimal, take_before,
    take_chars,
};
use crate::view::{title_text, View, ViewKind, ViewModel};
use vstd::prelude::*;
use vstd::view::View as _;

verus! {

/// The colour a shortcut is drawn in.
#[derive(Clone, Copy, Debug, PartialEq, Eq, Structural)]
pub enum Tone {
    Cyan,
    Green,
    Yellow,
    Red,
    Magenta,
    DarkGray,
}

/// A key and what it does, as the shortcut bar shows it.
#[derive(Clone, Copy, Debug)]
pub struct Shortcut {
    pub key: &'static str,
    pub label: &'static str,
    pub tone: Tone,
}

impl Shortcut {
    pub open spec fn view(&self) -> (Seq<char>, Seq<char>, Tone) {
        (self.key@, self.label@, self.tone)
    }
}

/// The shortcuts every screen ends with in normal mode; the one for automatic
/// reloads is green while they are on and grey while they are off.
pub open spec fn common_shortcuts(auto_refresh: bool) -> Seq<(Seq<char>, Seq<char>, Tone)> {
    seq![
        ("R"@, "Refresh"@, Tone::Yellow),
        ("a"@, "Auto"@, if auto_refresh { Tone::Green } else { Tone::DarkGray }),
        ("?"@, "Help"@, Tone::Magenta),
        ("q"@, "Quit"@, Tone::Red),
    ]
}

/// The shortcuts that are particular to a screen and a mode.
pub open spec fn own_shortcuts(kind: ViewKind, mode: InputMode) -> Seq<(Seq<char>, Seq<char>, Tone)> {
    match (kind, mode) {
        (ViewKind::Banks, InputMode::Normal) => seq![
            ("Enter"@, "Select"@, Tone::Cyan),
            ("m"@, "Mem"@, Tone::Green),
            ("e"@, "Ent"@, Tone::Green),
            ("d"@, "Docs"@, Tone::Green),
        ],
        (ViewKind::Memories, InputMode::Normal) => seq![
            ("Enter"@, "View"@, Tone::Cyan),
            ("Esc"@, "Back"@, Tone::Yellow),
            ("r"@, "Recall"@, Tone::Green),
            ("t"@, "Reflect"@, Tone::Green),
        ],
        (ViewKind::Entities, InputMode::Normal) => seq![
            ("Enter"@, "View"@, Tone::Cyan),
            ("Esc"@, "Back"@, Tone::Yellow),
        ],
        (ViewKind::Documents, InputMode::Normal) => seq![
            ("Enter"@, "View"@, Tone::Cyan),
            ("Del"@, "Delete"@, Tone::Red),
            ("Esc"@, "Back"@, Tone::Yellow),
        ],
        (ViewKind::Recall, InputMode::Normal) => seq![
            ("/"@, "Query"@, Tone::Green),
            ("Esc"@, "Back"@, Tone::Yellow),
        ],
        (ViewKind::Reflect, InputMode::Normal) => seq![
            ("/"@, "Query"@, Tone::Green),
            ("Esc"@, "Back"@, Tone::Yellow),
        ],
        (ViewKind::Recall, InputMode::Query) => seq![
            ("Enter"@, "Search"@, Tone::Green),
            ("Esc"@, "Cancel"@, Tone::Red),
        ],
        (ViewKind::Reflect, InputMode::Query) => seq![
            ("Enter"@, "Reflect"@, Tone::Green),
            ("Esc"@, "Cancel"@, Tone::Red),
        ],
        _ => seq![("?"@, "Help"@, Tone::Magenta), ("q"@, "Quit"@, Tone::Red)],
    }
}

/// The shortcut bar of a screen in a mode: in normal mode the screen's own
/// shortcuts and then the common ones; while a query is edited only the two
/// that run or cancel it.
pub open spec fn shortcut_table(kind: ViewKind, mode: InputMode, auto_refresh: bool) -> Seq<
    (Seq<char>, Seq<char>, Tone),
> {
    if mode is Normal {
        own_shortcuts(kind, mode) + common_shortcuts(auto_refresh)
    } else {
        own_shortcuts(kind, mode)
    }
}

/// The views of a list of shortcuts.
pub open spec fn shortcut_views(list: Seq<Shortcut>) -> Seq<(Seq<char>, Seq<char>, Tone)> {
    list.map_values(|s: Shortcut| s@)
}

fn entry(key: &'static str, label: &'static str, tone: Tone) -> (s: Shortcut)
    ensures
        s@ == (key@, label@, tone),
{
    Shortcut { key, label, tone }
}

/// The shortcut bar for a screen of the given kind.
pub fn shortcuts(kind: ViewKind, mode: InputMode, auto_refresh: bool) -> (list: Vec<Shortcut>)
    ensures
        shortcut_views(list@) == shortcut_table(kind, mode, auto_refresh),
{
    let mut list: Vec<Shortcut> = Vec::new();
    match mode {
        InputMode::Normal => {
            match kind {
                ViewKind::Banks => {
                    list.push(entry("Enter", "Select", Tone::Cyan));
                    list.push(entry("m", "Mem", Tone::Green));
                    list.push(entry("e", "Ent", Tone::Green));
                    list.push(entry("d", "Docs", Tone::Green));
                },
                ViewKind::Memories => {
                    list.push(entry("Enter", "View", Tone::Cyan));
                    list.push(entry("Esc", "Back", Tone::Yellow));
                    list.push(entry("r", "Recall", Tone::Green));
                    list.push(entry("t", "Reflect", Tone::Green));
                },
                ViewKind::Entities => {
                    list.push(entry("Enter", "View", Tone::Cyan));
                    list.push(entry("Esc", "Back", Tone::Yellow));
                },
                ViewKind::Documents => {
                    list.push(entry("Enter", "View", Tone::Cyan));
                    list.push(entry("Del", "Delete", Tone::Red));
                    list.push(entry("Esc", "Back", Tone::Yellow));
                },
                ViewKind::Recall => {
                    list.push(entry("/", "Query", Tone::Green));
                    list.push(entry("Esc", "Back", Tone::Yellow));
                },
                ViewKind::Reflect => {
                    list.push(entry("/", "Query", Tone::Green));
                    list.push(entry("Esc", "Back", Tone::Yellow));
                },
            }
            list.push(entry("R", "Refresh", Tone::Yellow));
            list.push(
                entry(
                    "a",
                    "Auto",
                    if auto_refresh {
                        Tone::Green
                    } else {
                        Tone::DarkGray
                    },
                ),
            );
            list.push(entry("?", "Help", Tone::Magenta));
            list.push(entry("q", "Quit", Tone::Red));
        },
        InputMode::Query => {
            match kind {
                ViewKind::Recall => {
                    list.push(entry("Enter", "Search", Tone::Green));
                    list.push(entry("Esc", "Cancel", Tone::Red));
                },
                ViewKind::Reflect => {
                    list.push(entry("Enter", "Reflect", Tone::Green));
                    list.push(entry("Esc", "Cancel", Tone::Red));
                },
                _ => {
                    list.push(entry("?", "Help", Tone::Magenta));
                    list.push(entry("q", "Quit", Tone::Red));
                },
            }
        },
    }
    assert(shortcut_views(list@) =~= shortcut_table(kind, mode, auto_refresh));
    list
}

/// Rows the shortcut bar has room for.
pub const SHORTCUT_ROWS: usize = 3;

/// How many of `count` shortcuts stand in row `row` when they fill the bar
/// column by column.
pub open spec fn cells_in_row(count: nat, row: nat) -> nat {
    if count > row {
        ((count - row - 1) / 3 + 1) as nat
    } else {
        0
    }
}

/// The shortcuts of one row, by their place in the list: every third one,
/// starting with the row's own number.
pub open spec fn row_indices(count: nat, row: nat) -> Seq<usize> {
    Seq::new(cells_in_row(count, row), |col: int| (col * 3 + row) as usize)
}

/// How many rows of the bar hold a shortcut.
pub fn shortcut_row_count(count: usize) -> (rows: usize)
    ensures
        rows == (if count < SHORTCUT_ROWS { count } else { SHORTCUT_ROWS }),
        forall|row: nat| row < SHORTCUT_ROWS ==> (#[trigger] cells_in_row(count as nat, row) > 0 <==> row < rows),
{
    if count < SHORTCUT_ROWS {
        count
    } else {
        SHORTCUT_ROWS
    }
}

/// The places in the list of the shortcuts that stand in one row of the bar.
pub fn shortcut_row(count: usize, row: usize) -> (indices: Vec<usize>)
    ensures
        indices@ == row_indices(count as nat, row as nat),
        forall|i: int| 0 <= i < indices@.len() ==> indices@[i] < count,
{
    let mut indices: Vec<usize> = Vec::new();
    if count > row {
        let cells: usize = (count - row - 1) / 3 + 1;
        let mut col: usize = 0;
        while col < cells
            invariant
                col <= cells,
                count > row,
                cells == (count - row - 1) / 3 + 1,
                indices@ == Seq::new(col as nat, |c: int| (c * 3 + row) as usize),
                forall|i: int| 0 <= i < indices@.len() ==> indices@[i] < count,
            decreases cells - col,
        {
            assert(col * 3 + row < count) by (nonlinear_arith)
                requires
                    col < cells,
                    count > row,
                    cells == (count - row - 1) / 3 + 1,
            ;
            indices.push(col * 3 + row);
            col += 1;
            assert(indices@ =~= Seq::new(col as nat, |c: int| (c * 3 + row) as usize));
        }
    }
    assert(indices@ =~= row_indices(count as nat, row as nat));
    indices
}

/// A shortcut in the bar: the key in angle brackets, right-aligned in six
/// characters, and the label left-aligned in nine.
pub open spec fn shortcut_line(key: Seq<char>, label: Seq<char>) -> Seq<char> {
    "<"@ + right_aligned(key, 6) + "> "@ + left_aligned(label, 9)
}

/// The text of a shortcut in the bar.
pub fn shortcut_text(shortcut: &Shortcut) -> (text: String)
    ensures
        text@ == shortcut_line(shortcut.key@, shortcut.label@),
{
    let mut text = String::from_str("<");
    push_right_aligned(&mut text, shortcut.key, 6);
    text.append("> ");
    push_left_aligned(&mut text, shortcut.label, 9);
    text
}

/// A bank id in square brackets after a space, or nothing for the bank list.
pub open spec fn bank_suffix(view: ViewModel) -> Seq<char> {
    match view.bank() {
        Some(id) => " ["@ + id + "]"@,
        None => Seq::empty(),
    }
}

/// The heading of the explorer on a screen.
pub open spec fn header_of(view: ViewModel) -> Seq<char> {
    "Hindsight Explorer - "@ + title_text(view.kind()) + bank_suffix(view)
}

/// What the context box says on a screen.
pub open spec fn context_of(view: ViewModel) -> Seq<char> {
    match view.bank() {
        Some(_) => "Context: "@ + title_text(view.kind()) + bank_suffix(view),
        None => "Context: Banks List"@,
    }
}

/// The heading shown above a screen.
pub fn header_title(view: &View) -> (text: String)
    ensures
        text@ == header_of(view@),
{
    let mut text = String::from_str("Hindsight Explorer - ");
    text.append(view.title());
    match view.bank_id() {
        Some(id) => {
            text.append(" [");
            text.append(id);
            text.append("]");
            assert(text@ =~= header_of(view@));
        },
        None => {
            assert(text@ =~= header_of(view@));
        },
    }
    text
}

/// The text of the context box on a screen.
pub fn context_line(view: &View) -> (text: String)
    ensures
        text@ == context_of(view@),
{
    match view.bank_id() {
        Some(id) => {
            let mut text = String::from_str("Context: ");
            text.append(view.title());
            text.append(" [");
            text.append(id);
            text.append("]");
            assert(text@ =~= context_of(view@));
            text
        },
        None => String::from_str("Context: Banks List"),
    }
}

/// What the footer shows.
#[derive(Clone, Copy, Debug, PartialEq, Eq, Structural)]
pub enum Footer {
    /// The error text.
    Error,
    /// That a load is under way.
    Loading,
    /// The status text.
    Status,
    /// Nothing.
    Empty,
}

/// An error goes before the loading sign, and that before the status.
pub open spec fn footer_of(store: ViewDataStore) -> Footer {
    if store.error@.len() > 0 {
        Footer::Error
    } else if store.loading {
        Footer::Loading
    } else if store.status@.len() > 0 {
        Footer::Status
    } else {
        Footer::Empty
    }
}

/// Which of error, loading sign and status the footer shows.
pub fn footer(store: &ViewDataStore) -> (shown: Footer)
    ensures
        shown == footer_of(*store),
{
    if !store.error.as_str().is_empty() {
        Footer::Error
    } else if store.loading {
        Footer::Loading
    } else if !store.status.as_str().is_empty() {
        Footer::Status
    } else {
        Footer::Empty
    }
}

/// A text the service may have left out, or what stands in for it.
pub open spec fn or_default(text: Option<String>, default: Seq<char>) -> Seq<char> {
    match text {
        Some(s) => s@,
        None => default,
    }
}

fn text_or<'a>(text: &'a Option<String>, default: &'a str) -> (shown: &'a str)
    ensures
        shown@ == or_default(*text, default@),
{
    match text {
        Some(s) => s.as_str(),
        None => default,
    }
}

/// Characters of a memory's text that its row shows.
pub const MEMORY_PREVIEW_CHARS: usize = 60;

/// Characters of a recall result's text that its row shows.
pub const RECALL_PREVIEW_CHARS: usize = 100;

/// The row of a bank: its id and its name, or "Unnamed" for an empty name.
pub open spec fn bank_row_of(bank: Bank) -> Seq<char> {
    bank.id@ + " - "@ + (if bank.name@.len() == 0 {
        "Unnamed"@
    } else {
        bank.name@
    })
}

/// The row of a bank in the bank list.
pub fn bank_row(bank: &Bank) -> (text: String)
    ensures
        text@ == bank_row_of(*bank),
{
    let mut text = bank.id.clone();
    text.append(" - ");
    if bank.name.as_str().is_empty() {
        text.append("Unnamed");
    } else {
        text.append(bank.name.as_str());
    }
    text
}

/// Three columns of a memory table: twelve characters, twenty, and the rest.
pub open spec fn memory_columns(first: Seq<char>, second: Seq<char>, third: Seq<char>) -> Seq<char> {
    left_aligned(first, 12) + " "@ + left_aligned(second, 20) + " "@ + third
}

fn columns(first: &str, second: &str, third: &str) -> (text: String)
    ensures
        text@ == memory_columns(first@, second@, third@),
{
    let mut text = String::new();
    push_left_aligned(&mut text, first, 12);
    text.append(" ");
    push_left_aligned(&mut text, second, 20);
    text.append(" ");
    text.append(third);
    assert(text@ =~= memory_columns(first@, second@, third@));
    text
}

/// The heading of the memory table.
pub fn memory_header() -> (text: String)
    ensures
        text@ == memory_columns("TYPE"@, "CREATED"@, "TEXT"@),
{
    columns("TYPE", "CREATED", "TEXT")
}

/// The row of a memory: its type, the date of its creation (the timestamp up
/// to the `T`), and the start of its text. A missing type or timestamp reads
/// "unknown", a missing text is empty.
pub open spec fn memory_row_of(memory: MemoryRecord) -> Seq<char> {
    memory_columns(
        or_default(memory.kind, "unknown"@),
        match memory.created_at {
            Some(stamp) => before_first(stamp@, 'T'),
            None => "unknown"@,
        },
        first_chars(or_default(memory.text, Seq::empty()), MEMORY_PREVIEW_CHARS as nat),
    )
}

/// The row of a memory in the memory table.
pub fn memory_row(memory: &MemoryRecord) -> (text: String)
    ensures
        text@ == memory_row_of(*memory),
{
    let kind = text_or(&memory.kind, "unknown");
    let created = match &memory.created_at {
        Some(stamp) => take_before(stamp.as_str(), 'T'),
        None => "unknown",
    };
    let preview = match &memory.text {
        Some(t) => take_chars(t.as_str(), MEMORY_PREVIEW_CHARS),
        None => {
            let nothing = "";
            proof {
                reveal_strlit("");
            }
            assert(nothing@ =~= Seq::<char>::empty());
            nothing
        },
    };
    columns(kind, created, preview)
}

/// The row of an entity: its name and how often it is mentioned.
pub open spec fn entity_row_of(entity: Entity) -> Seq<char> {
    entity.canonical_name@ + " (mentioned "@ + signed_decimal(entity.mention_count as int)
        + " times)"@
}

/// The row of an entity in the entity list.
pub fn entity_row(entity: &Entity) -> (text: String)
    ensures
        text@ == entity_row_of(*entity),
{
    let mut text = entity.canonical_name.clone();
    text.append(" (mentioned ");
    push_signed_decimal(&mut text, entity.mention_count);
    text.append(" times)");
    text
}

/// The row of a document: its id and, in brackets, its content type, each
/// reading "unknown" where it is missing.
pub open spec fn document_row_of(document: Document) -> Seq<char> {
    or_default(document.id, "unknown"@) + " ("@ + or_default(document.content_type, "unknown"@)
        + ")"@
}

/// The row of a document in the document list.
pub fn document_row(document: &Document) -> (text: String)
    ensures
        text@ == document_row_of(*document),
{
    let mut text = String::from_str(text_or(&document.id, "unknown"));
    text.append(" (");
    text.append(text_or(&document.content_type, "unknown"));
    text.append(")");
    text
}

/// The row of a recall result: its type in square brackets, "unknown" where
/// it is missing, and the start of its text.
pub open spec fn recall_row_of(result: RecallResult) -> Seq<char> {
    "["@ + or_default(result.kind, "unknown"@) + "] "@ + first_chars(
        result.text@,
        RECALL_PREVIEW_CHARS as nat,
    )
}

/// The row of a recall result in the result list.
pub fn recall_row(result: &RecallResult) -> (text: String)
    ensures
        text@ == recall_row_of(*result),
{
    let mut text = String::from_str("[");
    text.append(text_or(&result.kind, "unknown"));
    text.append("] ");
    text.append(take_chars(result.text.as_str(), RECALL_PREVIEW_CHARS));
    text
}

/// The heading of the list of recall results, with their number.
pub fn results_title(count: usize) -> (text: String)
    ensures
        text@ == "Results ("@ + decimal(count as nat) + ")"@,
{
    let mut text = String::from_str("Results (");
    push_decimal(&mut text, count as u64);
    text.append(")");
    text
}

} // verus!
