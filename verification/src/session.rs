//! The session controller: the only place where the state of a session changes.

use crate::cursor::{index_fits, next_index, previous_index, settled_index, SelectionCursor};
use crate::data::{
    recall_request, reflect_request, reload_for, reload_request, request_model, Bank, Budget,
    Document, Entity, FetchRequest, FetchResponse, MemoryRecord, RecallResult, RECALL_MAX_TOKENS,
};
use crate::input::{command_of, Command, InputMode, Key, KeyPress};
use crate::nav::{lemma_back_undoes_switch, NavModel, NavigationState};
use crate::refresh::RefreshScheduler;
use crate::text::{count_message, decimal, joined};
use crate::view::{View, ViewKind, ViewModel};
use vstd::prelude::*;
use vstd::view::View as _;

verus! {

/// Milliseconds the event loop waits for a key before it goes on to the
/// automatic reload and the next frame.
pub const POLL_INTERVAL_MS: u64 = 100;

/// One cursor for each screen that shows a list.
#[derive(Clone, Copy, Debug, PartialEq, Eq, Structural)]
pub struct Cursors {
    pub banks: SelectionCursor,
    pub memories: SelectionCursor,
    pub entities: SelectionCursor,
    pub documents: SelectionCursor,
    pub recall: SelectionCursor,
}

/// What was last loaded for each screen, and the notice shown below it: a
/// status, an error that takes precedence over it, and whether a load is under way.
#[derive(Debug)]
pub struct ViewDataStore {
    pub banks: Vec<Bank>,
    pub memories: Vec<MemoryRecord>,
    pub entities: Vec<Entity>,
    pub documents: Vec<Document>,
    pub recall_results: Vec<RecallResult>,
    pub reflect_text: String,
    pub status: String,
    pub error: String,
    pub loading: bool,
}

impl ViewDataStore {
    /// The loaded data of both stores is the same.
    pub open spec fn same_data(self, other: ViewDataStore) -> bool {
        &&& self.banks == other.banks
        &&& self.memories == other.memories
        &&& self.entities == other.entities
        &&& self.documents == other.documents
        &&& self.recall_results == other.recall_results
        &&& self.reflect_text == other.reflect_text
    }
}

/// What the event loop has to do after a key.
#[derive(Debug)]
pub enum Action {
    /// Nothing but drawing the next frame.
    Continue,
    /// End the session.
    Quit,
    /// Send the request and hand the answer to `Session::complete`.
    Fetch(FetchRequest),
}

impl Action {
    /// The request an action carries, if any.
    pub open spec fn request(self) -> Option<FetchRequest> {
        match self {
            Action::Fetch(r) => Some(r),
            _ => None,
        }
    }

    /// The action that sends `request`, or the one that does nothing.
    pub fn sending(request: Option<FetchRequest>) -> (action: Action)
        ensures
            !(action is Quit),
            action.request() == request,
    {
        match request {
            Some(r) => Action::Fetch(r),
            None => Action::Continue,
        }
    }
}

/// The whole state of a session.
#[derive(Debug)]
pub struct Session {
    pub nav: NavigationState,
    pub mode: InputMode,
    pub store: ViewDataStore,
    pub cursors: Cursors,
    pub recall_query: String,
    pub reflect_query: String,
    pub show_help: bool,
    pub refresh: RefreshScheduler,
}

impl Session {
    /// The history is free of repeats in a row, the reload interval is not
    /// zero, queries are edited only on the recall and reflect screens, and
    /// every cursor fits its list.
    pub open spec fn wf(self) -> bool {
        &&& self.nav@.wf()
        &&& self.refresh.wf()
        &&& (self.mode is Query ==> self.nav.current@.is_query_driven())
        &&& index_fits(self.cursors.banks.index, self.store.banks.len())
        &&& index_fits(self.cursors.memories.index, self.store.memories.len())
        &&& index_fits(self.cursors.entities.index, self.store.entities.len())
        &&& index_fits(self.cursors.documents.index, self.store.documents.len())
        &&& index_fits(self.cursors.recall.index, self.store.recall_results.len())
    }

    /// Screen, history, mode, help flag and reload clock are those of `pre`.
    pub open spec fn same_frame(self, pre: Session) -> bool {
        &&& self.nav == pre.nav
        &&& self.mode == pre.mode
        &&& self.show_help == pre.show_help
        &&& self.refresh == pre.refresh
    }

    /// Loaded data and cursors are those of `pre`.
    pub open spec fn same_lists(self, pre: Session) -> bool {
        &&& self.store.same_data(pre.store)
        &&& self.cursors == pre.cursors
    }

    /// Both query buffers are those of `pre`.
    pub open spec fn same_queries(self, pre: Session) -> bool {
        &&& self.recall_query == pre.recall_query
        &&& self.reflect_query == pre.reflect_query
    }

    /// Status, error and loading flag are those of `pre`.
    pub open spec fn same_notice(self, pre: Session) -> bool {
        &&& self.store.status == pre.store.status
        &&& self.store.error == pre.store.error
        &&& self.store.loading == pre.store.loading
    }

    /// The id of the bank the bank cursor points at.
    pub open spec fn selected_bank(self) -> Option<Seq<char>> {
        match self.cursors.banks.index {
            Some(i) => if i < self.store.banks.len() {
                Some(self.store.banks[i as int].id@)
            } else {
                None
            },
            None => None,
        }
    }

    /// The bank a recall or reflect screen is opened for: the selected bank,
    /// or, with no bank selected, the bank of the current screen.
    pub open spec fn query_bank(self) -> Option<Seq<char>> {
        match self.cursors.banks.index {
            Some(_) => self.selected_bank(),
            None => self.nav.current@.bank(),
        }
    }

    /// The cursors after a move forward in the list of the current screen.
    pub open spec fn cursors_after_next(self) -> Cursors {
        let c = self.cursors;
        match self.nav.current@.kind() {
            ViewKind::Banks => Cursors {
                banks: SelectionCursor { index: next_index(c.banks.index, self.store.banks.len()) },
                ..c
            },
            ViewKind::Memories => Cursors {
                memories: SelectionCursor {
                    index: next_index(c.memories.index, self.store.memories.len()),
                },
                ..c
            },
            ViewKind::Entities => Cursors {
                entities: SelectionCursor {
                    index: next_index(c.entities.index, self.store.entities.len()),
                },
                ..c
            },
            ViewKind::Documents => Cursors {
                documents: SelectionCursor {
                    index: next_index(c.documents.index, self.store.documents.len()),
                },
                ..c
            },
            ViewKind::Recall => Cursors {
                recall: SelectionCursor {
                    index: next_index(c.recall.index, self.store.recall_results.len()),
                },
                ..c
            },
            ViewKind::Reflect => c,
        }
    }

    /// The cursors after a move backward in the list of the current screen.
    pub open spec fn cursors_after_previous(self) -> Cursors {
        let c = self.cursors;
        match self.nav.current@.kind() {
            ViewKind::Banks => Cursors {
                banks: SelectionCursor {
                    index: previous_index(c.banks.index, self.store.banks.len()),
                },
                ..c
            },
            ViewKind::Memories => Cursors {
                memories: SelectionCursor {
                    index: previous_index(c.memories.index, self.store.memories.len()),
                },
                ..c
            },
            ViewKind::Entities => Cursors {
                entities: SelectionCursor {
                    index: previous_index(c.entities.index, self.store.entities.len()),
                },
                ..c
            },
            ViewKind::Documents => Cursors {
                documents: SelectionCursor {
                    index: previous_index(c.documents.index, self.store.documents.len()),
                },
                ..c
            },
            ViewKind::Recall => Cursors {
                recall: SelectionCursor {
                    index: previous_index(c.recall.index, self.store.recall_results.len()),
                },
                ..c
            },
            ViewKind::Reflect => c,
        }
    }

    /// A fresh session: the bank list with no history, normal mode, nothing
    /// loaded or selected, automatic reloads on and counted from `now`.
    pub fn new(now: u64) -> (s: Session)
        ensures
            s.wf(),
            s.nav@ == NavModel::root(),
            s.mode is Normal,
            s.refresh == RefreshScheduler::new_at(now),
            s.store.banks@.len() == 0,
            s.store.memories@.len() == 0,
            s.store.entities@.len() == 0,
            s.store.documents@.len() == 0,
            s.store.recall_results@.len() == 0,
            s.store.reflect_text@.len() == 0,
            s.store.status@ == "Press ? for help"@,
            s.store.error@.len() == 0,
            !s.store.loading,
            s.cursors == Cursors::none(),
            s.recall_query@.len() == 0,
            s.reflect_query@.len() == 0,
            !s.show_help,
    {
        Session {
            nav: NavigationState::new(),
            mode: InputMode::Normal,
            store: ViewDataStore {
                banks: Vec::new(),
                memories: Vec::new(),
                entities: Vec::new(),
                documents: Vec::new(),
                recall_results: Vec::new(),
                reflect_text: String::new(),
                status: String::from_str("Press ? for help"),
                error: String::new(),
                loading: false,
            },
            cursors: Cursors {
                banks: SelectionCursor::new(),
                memories: SelectionCursor::new(),
                entities: SelectionCursor::new(),
                documents: SelectionCursor::new(),
                recall: SelectionCursor::new(),
            },
            recall_query: String::new(),
            reflect_query: String::new(),
            show_help: false,
            refresh: RefreshScheduler::new(now),
        }
    }

    /// Moves the cursor of the current screen forward, wrapping at the end;
    /// the reflect screen has no list and nothing moves.
    pub fn next_item(&mut self)
        ensures
            *final(self) == (Session { cursors: old(self).cursors_after_next(), ..*old(self) }),
            old(self).wf() ==> final(self).wf(),
    {
        match self.nav.current.kind() {
            ViewKind::Banks => {
                self.cursors.banks.next(self.store.banks.len());
            },
            ViewKind::Memories => {
                self.cursors.memories.next(self.store.memories.len());
            },
            ViewKind::Entities => {
                self.cursors.entities.next(self.store.entities.len());
            },
            ViewKind::Documents => {
                self.cursors.documents.next(self.store.documents.len());
            },
            ViewKind::Recall => {
                self.cursors.recall.next(self.store.recall_results.len());
            },
            ViewKind::Reflect => {},
        }
    }

    /// Moves the cursor of the current screen backward, wrapping at the
    /// start; the reflect screen has no list and nothing moves.
    pub fn previous_item(&mut self)
        ensures
            *final(self) == (Session { cursors: old(self).cursors_after_previous(), ..*old(self) }),
            old(self).wf() ==> final(self).wf(),
    {
        match self.nav.current.kind() {
            ViewKind::Banks => {
                self.cursors.banks.previous(self.store.banks.len());
            },
            ViewKind::Memories => {
                self.cursors.memories.previous(self.store.memories.len());
            },
            ViewKind::Entities => {
                self.cursors.entities.previous(self.store.entities.len());
            },
            ViewKind::Documents => {
                self.cursors.documents.previous(self.store.documents.len());
            },
            ViewKind::Recall => {
                self.cursors.recall.previous(self.store.recall_results.len());
            },
            ViewKind::Reflect => {},
        }
    }

    /// Shows or hides the help screen.
    pub fn toggle_help(&mut self)
        ensures
            *final(self) == (Session { show_help: !old(self).show_help, ..*old(self) }),
            old(self).wf() ==> final(self).wf(),
    {
        self.show_help = !self.show_help;
    }
}

impl Session {
    /// `post` is this state after a reload of the screen that `post` shows
    /// was started at `now`: the reload clock restarts, the error is cleared,
    /// the request is the one for that screen and a load is under way exactly
    /// if there is one; data, cursors, queries, mode, help flag and status stay.
    pub open spec fn reload_started(
        self,
        post: Session,
        request: Option<FetchRequest>,
        now: u64,
    ) -> bool {
        &&& post.same_lists(self)
        &&& post.same_queries(self)
        &&& post.mode == self.mode
        &&& post.show_help == self.show_help
        &&& post.refresh == self.refresh.marked(now)
        &&& request_model(request) == reload_request(post.nav.current@)
        &&& post.store.loading == (request is Some)
        &&& post.store.error@ == Seq::<char>::empty()
        &&& post.store.status == self.store.status
    }

    /// A reload of the current screen.
    pub open spec fn refresh_effect(
        self,
        post: Session,
        request: Option<FetchRequest>,
        now: u64,
    ) -> bool {
        post.nav == self.nav && self.reload_started(post, request, now)
    }

    /// A tick of the event loop: a reload if one is due, else nothing.
    pub open spec fn tick_effect(
        self,
        post: Session,
        request: Option<FetchRequest>,
        now: u64,
    ) -> bool {
        if self.refresh.due_at(now) {
            self.refresh_effect(post, request, now)
        } else {
            post == self && request is None
        }
    }

    /// Showing `view`: nothing if it is shown already, else the switch and a
    /// reload of the new screen.
    pub open spec fn switch_effect(
        self,
        post: Session,
        view: ViewModel,
        request: Option<FetchRequest>,
        now: u64,
    ) -> bool {
        if view == self.nav.current@ {
            post == self && request is None
        } else {
            post.nav@ == self.nav@.switch_to(view) && self.reload_started(post, request, now)
        }
    }

    /// Going back: nothing without history, else the step back and a reload
    /// of the restored screen.
    pub open spec fn go_back_effect(
        self,
        post: Session,
        request: Option<FetchRequest>,
        now: u64,
    ) -> bool {
        if self.nav@.stack.len() == 0 {
            post == self && request is None
        } else {
            post.nav@ == self.nav@.go_back() && self.reload_started(post, request, now)
        }
    }

    /// Drilling down: from the bank list with a bank selected, that bank's
    /// memories are shown and loaded; otherwise nothing happens.
    pub open spec fn enter_effect(
        self,
        post: Session,
        request: Option<FetchRequest>,
        now: u64,
    ) -> bool {
        match self.selected_bank() {
            Some(bank) => if self.nav.current@ is Banks {
                post.nav@ == self.nav@.enter(bank) && self.reload_started(post, request, now)
            } else {
                post == self && request is None
            },
            None => post == self && request is None,
        }
    }

    /// The screen a view-switch key leads to: a list screen of the selected
    /// bank, or a query screen of the selected bank or, with none selected,
    /// of the current screen's bank. No key leads to the bank list.
    pub open spec fn switch_target(self, kind: ViewKind) -> Option<ViewModel> {
        match kind {
            ViewKind::Banks => None,
            ViewKind::Memories => match self.selected_bank() {
                Some(bank) => Some(ViewModel::Memories(bank)),
                None => None,
            },
            ViewKind::Entities => match self.selected_bank() {
                Some(bank) => Some(ViewModel::Entities(bank)),
                None => None,
            },
            ViewKind::Documents => match self.selected_bank() {
                Some(bank) => Some(ViewModel::Documents(bank)),
                None => None,
            },
            ViewKind::Recall => match self.query_bank() {
                Some(bank) => Some(ViewModel::Recall(bank)),
                None => None,
            },
            ViewKind::Reflect => match self.query_bank() {
                Some(bank) => Some(ViewModel::Reflect(bank)),
                None => None,
            },
        }
    }

    /// A view-switch key: the switch to its target, or nothing without one.
    pub open spec fn open_effect(
        self,
        post: Session,
        kind: ViewKind,
        request: Option<FetchRequest>,
        now: u64,
    ) -> bool {
        match self.switch_target(kind) {
            Some(view) => self.switch_effect(post, view, request, now),
            None => post == self && request is None,
        }
    }

    /// Switching automatic reloads on or off, with the status saying which.
    pub open spec fn toggle_auto_refresh_effect(self, post: Session, now: u64) -> bool {
        &&& post.nav == self.nav
        &&& post.mode == self.mode
        &&& post.show_help == self.show_help
        &&& post.refresh == self.refresh.toggled(now)
        &&& post.same_lists(self)
        &&& post.same_queries(self)
        &&& post.store.error == self.store.error
        &&& post.store.loading == self.store.loading
        &&& post.store.status@ == if self.refresh.enabled {
            "Auto-refresh disabled"@
        } else {
            "Auto-refresh enabled (5s)"@
        }
    }

    /// The state with query entry begun, which only the recall and reflect
    /// screens allow.
    pub open spec fn with_query_started(self) -> Session {
        Session {
            mode: if self.nav.current@.is_query_driven() {
                InputMode::Query
            } else {
                self.mode
            },
            ..self
        }
    }

    /// Only the query buffers may differ from `pre`.
    pub open spec fn same_but_queries(self, pre: Session) -> bool {
        &&& self.same_frame(pre)
        &&& self.same_lists(pre)
        &&& self.same_notice(pre)
    }

    /// A character typed into the query of the current screen.
    pub open spec fn type_char_effect(self, post: Session, c: char) -> bool {
        match self.nav.current@.kind() {
            ViewKind::Recall => {
                &&& post.same_but_queries(self)
                &&& post.recall_query@ == self.recall_query@.push(c)
                &&& post.reflect_query == self.reflect_query
            },
            ViewKind::Reflect => {
                &&& post.same_but_queries(self)
                &&& post.reflect_query@ == self.reflect_query@.push(c)
                &&& post.recall_query == self.recall_query
            },
            _ => post == self,
        }
    }

    /// The last character removed from the query of the current screen; an
    /// empty query stays as it is.
    pub open spec fn backspace_effect(self, post: Session) -> bool {
        match self.nav.current@.kind() {
            ViewKind::Recall => if self.recall_query@.len() == 0 {
                post == self
            } else {
                &&& post.same_but_queries(self)
                &&& post.recall_query@ == self.recall_query@.drop_last()
                &&& post.reflect_query == self.reflect_query
            },
            ViewKind::Reflect => if self.reflect_query@.len() == 0 {
                post == self
            } else {
                &&& post.same_but_queries(self)
                &&& post.reflect_query@ == self.reflect_query@.drop_last()
                &&& post.recall_query == self.recall_query
            },
            _ => post == self,
        }
    }

    /// Only status, error and loading flag may differ from `pre`.
    pub open spec fn same_but_notice(self, pre: Session) -> bool {
        &&& self.same_frame(pre)
        &&& self.same_lists(pre)
        &&& self.same_queries(pre)
    }

    /// An empty query is refused with an error and nothing is sent.
    pub open spec fn query_refused(self, post: Session, request: Option<FetchRequest>) -> bool {
        &&& request is None
        &&& post.same_but_notice(self)
        &&& post.store.error@ == "Query cannot be empty"@
        &&& post.store.status == self.store.status
        &&& post.store.loading == self.store.loading
    }

    /// A query is on its way: a load is under way and the error is cleared.
    pub open spec fn query_sent(self, post: Session) -> bool {
        &&& post.same_but_notice(self)
        &&& post.store.loading
        &&& post.store.error@ == Seq::<char>::empty()
        &&& post.store.status == self.store.status
    }

    /// Running the recall query: on the recall screen an empty query is
    /// refused and any other is sent with the fixed settings; on any other
    /// screen nothing happens.
    pub open spec fn execute_recall_effect(self, post: Session, request: Option<FetchRequest>) -> bool {
        match self.nav.current@ {
            ViewModel::Recall(bank) => if self.recall_query@.len() == 0 {
                self.query_refused(post, request)
            } else {
                &&& request_model(request) == Some(recall_request(bank, self.recall_query@))
                &&& self.query_sent(post)
            },
            _ => post == self && request is None,
        }
    }

    /// Running the reflect query, as for recall.
    pub open spec fn execute_reflect_effect(self, post: Session, request: Option<FetchRequest>) -> bool {
        match self.nav.current@ {
            ViewModel::Reflect(bank) => if self.reflect_query@.len() == 0 {
                self.query_refused(post, request)
            } else {
                &&& request_model(request) == Some(reflect_request(bank, self.reflect_query@))
                &&& self.query_sent(post)
            },
            _ => post == self && request is None,
        }
    }

    /// Enter in query mode runs the query of the current screen.
    pub open spec fn submit_effect(self, post: Session, request: Option<FetchRequest>) -> bool {
        if self.nav.current@ is Recall {
            self.execute_recall_effect(post, request)
        } else {
            self.execute_reflect_effect(post, request)
        }
    }

    /// A list arrived: everything but data, cursors and notice stays, no load
    /// is under way any more, the error stays and the status is `status`.
    pub open spec fn list_loaded(
        self,
        post: Session,
        data: ViewDataStore,
        cursors: Cursors,
        status: Seq<char>,
    ) -> bool {
        &&& post.same_frame(self)
        &&& post.same_queries(self)
        &&& post.store.same_data(data)
        &&& post.cursors == cursors
        &&& post.store.status@ == status
        &&& post.store.error == self.store.error
        &&& !post.store.loading
    }

    /// A query was answered: as for a list, and the mode is normal again.
    pub open spec fn query_answered(
        self,
        post: Session,
        data: ViewDataStore,
        cursors: Cursors,
        status: Seq<char>,
    ) -> bool {
        &&& post.nav == self.nav
        &&& post.mode is Normal
        &&& post.show_help == self.show_help
        &&& post.refresh == self.refresh
        &&& post.same_queries(self)
        &&& post.store.same_data(data)
        &&& post.cursors == cursors
        &&& post.store.status@ == status
        &&& post.store.error == self.store.error
        &&& !post.store.loading
    }

    /// Taking in what the service answered. A list replaces the one held, its
    /// cursor stays where it fits, and the status counts the items. Recall
    /// results replace those held, with the first one selected; a reflection
    /// replaces the text held; both end query entry. A failure becomes the
    /// error and leaves all data as it was.
    pub open spec fn complete_effect(self, post: Session, response: FetchResponse) -> bool {
        let c = self.cursors;
        match response {
            FetchResponse::Banks(list) => self.list_loaded(
                post,
                ViewDataStore { banks: list, ..self.store },
                Cursors {
                    banks: SelectionCursor { index: settled_index(c.banks.index, list.len()) },
                    ..c
                },
                "Loaded "@ + decimal(list.len() as nat) + " banks"@,
            ),
            FetchResponse::Memories(list) => self.list_loaded(
                post,
                ViewDataStore { memories: list, ..self.store },
                Cursors {
                    memories: SelectionCursor { index: settled_index(c.memories.index, list.len()) },
                    ..c
                },
                "Loaded "@ + decimal(list.len() as nat) + " memories"@,
            ),
            FetchResponse::Entities(list) => self.list_loaded(
                post,
                ViewDataStore { entities: list, ..self.store },
                Cursors {
                    entities: SelectionCursor { index: settled_index(c.entities.index, list.len()) },
                    ..c
                },
                "Loaded "@ + decimal(list.len() as nat) + " entities"@,
            ),
            FetchResponse::Documents(list) => self.list_loaded(
                post,
                ViewDataStore { documents: list, ..self.store },
                Cursors {
                    documents: SelectionCursor {
                        index: settled_index(c.documents.index, list.len()),
                    },
                    ..c
                },
                "Loaded "@ + decimal(list.len() as nat) + " documents"@,
            ),
            FetchResponse::Recall(results) => self.query_answered(
                post,
                ViewDataStore { recall_results: results, ..self.store },
                Cursors {
                    recall: SelectionCursor {
                        index: if results.len() == 0 {
                            None
                        } else {
                            Some(0usize)
                        },
                    },
                    ..c
                },
                "Found "@ + decimal(results.len() as nat) + " results"@,
            ),
            FetchResponse::Reflect(text) => self.query_answered(
                post,
                ViewDataStore { reflect_text: text, ..self.store },
                c,
                "Reflection complete"@,
            ),
            FetchResponse::Failed(message) => {
                &&& post.same_but_notice(self)
                &&& post.store.error@ == "Error: "@ + message@
                &&& post.store.status == self.store.status
                &&& !post.store.loading
            },
        }
    }

    /// What a command does to the session and what it leaves for the event
    /// loop to do.
    pub open spec fn command_step(self, post: Session, command: Command, now: u64, action: Action) -> bool {
        match command {
            Command::Ignore => post == self && action is Continue,
            Command::Quit => post == self && action is Quit,
            Command::ToggleHelp => action is Continue && post == (Session {
                show_help: !self.show_help,
                ..self
            }),
            Command::NextItem => action is Continue && post == (Session {
                cursors: self.cursors_after_next(),
                ..self
            }),
            Command::PreviousItem => action is Continue && post == (Session {
                cursors: self.cursors_after_previous(),
                ..self
            }),
            Command::EnterView => !(action is Quit) && self.enter_effect(post, action.request(), now),
            Command::GoBack => !(action is Quit) && self.go_back_effect(post, action.request(), now),
            Command::Open(kind) => !(action is Quit) && self.open_effect(
                post,
                kind,
                action.request(),
                now,
            ),
            Command::Refresh => !(action is Quit) && self.refresh_effect(post, action.request(), now),
            Command::ToggleAutoRefresh => action is Continue && self.toggle_auto_refresh_effect(
                post,
                now,
            ),
            Command::StartQuery => action is Continue && post == self.with_query_started(),
            Command::SubmitQuery => !(action is Quit) && self.submit_effect(post, action.request()),
            Command::CancelQuery => action is Continue && post == (Session {
                mode: InputMode::Normal,
                ..self
            }),
            Command::TypeChar(c) => action is Continue && self.type_char_effect(post, c),
            Command::EraseChar => action is Continue && self.backspace_effect(post),
        }
    }

    /// What a key does: what the command does that the key stands for in the
    /// current mode.
    pub open spec fn key_step(self, post: Session, press: KeyPress, now: u64, action: Action) -> bool {
        self.command_step(post, command_of(self.mode, press), now, action)
    }

    fn begin_reload(&mut self, now: u64) -> (request: Option<FetchRequest>)
        ensures
            old(self).reload_started(*final(self), request, now),
            final(self).nav == old(self).nav,
    {
        self.refresh.mark(now);
        self.store.error = String::new();
        let request = reload_for(&self.nav.current);
        self.store.loading = request.is_some();
        request
    }

    fn selected_bank_id(&self) -> (id: Option<String>)
        ensures
            match id {
                Some(s) => self.selected_bank() == Some(s@),
                None => self.selected_bank() is None,
            },
    {
        match self.cursors.banks.index {
            Some(i) => if i < self.store.banks.len() {
                Some(self.store.banks[i].id.clone())
            } else {
                None
            },
            None => None,
        }
    }

    fn query_bank_id(&self) -> (id: Option<String>)
        ensures
            match id {
                Some(s) => self.query_bank() == Some(s@),
                None => self.query_bank() is None,
            },
    {
        match self.cursors.banks.index {
            Some(_) => self.selected_bank_id(),
            None => match self.nav.current.bank_id() {
                Some(s) => Some(String::from_str(s)),
                None => None,
            },
        }
    }

    /// Reloads the current screen: restarts the reload clock at `now`, clears
    /// the error and returns the request to send, if the screen reloads.
    pub fn refresh(&mut self, now: u64) -> (request: Option<FetchRequest>)
        ensures
            old(self).refresh_effect(*final(self), request, now),
            old(self).wf() ==> final(self).wf() && !final(self).refresh.due_at(now),
    {
        self.begin_reload(now)
    }

    /// The automatic reload: a reload of the current screen if one is due at `now`.
    pub fn tick(&mut self, now: u64) -> (request: Option<FetchRequest>)
        ensures
            old(self).tick_effect(*final(self), request, now),
            !old(self).refresh.enabled ==> request is None,
            old(self).wf() ==> final(self).wf() && !final(self).refresh.due_at(now),
    {
        if self.refresh.is_due(now) {
            self.begin_reload(now)
        } else {
            None
        }
    }

    /// Shows `view` and returns the request that loads it; showing the
    /// current screen again does nothing.
    pub fn switch_to_view(&mut self, view: View, now: u64) -> (request: Option<FetchRequest>)
        ensures
            old(self).switch_effect(*final(self), view@, request, now),
            view@ == old(self).nav.current@ ==> *final(self) == *old(self) && request is None,
            old(self).wf() && old(self).mode is Normal ==> final(self).wf(),
    {
        if self.nav.switch_to(view) {
            self.begin_reload(now)
        } else {
            None
        }
    }

    /// Returns to the screen shown before and returns the request that
    /// reloads it; with no history nothing happens.
    pub fn go_back(&mut self, now: u64) -> (request: Option<FetchRequest>)
        ensures
            old(self).go_back_effect(*final(self), request, now),
            old(self).nav@.stack.len() == 0 ==> *final(self) == *old(self) && request is None,
            old(self).wf() && old(self).mode is Normal ==> final(self).wf(),
    {
        if self.nav.go_back() {
            self.begin_reload(now)
        } else {
            None
        }
    }

    /// Drills down from the bank list into the selected bank and returns the
    /// request that loads its memories.
    pub fn enter_view(&mut self, now: u64) -> (request: Option<FetchRequest>)
        ensures
            old(self).enter_effect(*final(self), request, now),
            old(self).wf() && old(self).mode is Normal ==> final(self).wf(),
    {
        match self.nav.current.kind() {
            ViewKind::Banks => match self.selected_bank_id() {
                Some(bank_id) => {
                    self.nav.enter(bank_id);
                    self.begin_reload(now)
                },
                None => None,
            },
            _ => None,
        }
    }

    /// Opens a screen of the given kind for the bank a view-switch key means.
    pub fn open_view(&mut self, kind: ViewKind, now: u64) -> (request: Option<FetchRequest>)
        ensures
            old(self).open_effect(*final(self), kind, request, now),
            old(self).wf() && old(self).mode is Normal ==> final(self).wf(),
    {
        let target = match kind {
            ViewKind::Banks => None,
            ViewKind::Memories => match self.selected_bank_id() {
                Some(id) => Some(View::Memories(id)),
                None => None,
            },
            ViewKind::Entities => match self.selected_bank_id() {
                Some(id) => Some(View::Entities(id)),
                None => None,
            },
            ViewKind::Documents => match self.selected_bank_id() {
                Some(id) => Some(View::Documents(id)),
                None => None,
            },
            ViewKind::Recall => match self.query_bank_id() {
                Some(id) => Some(View::Recall(id)),
                None => None,
            },
            ViewKind::Reflect => match self.query_bank_id() {
                Some(id) => Some(View::Reflect(id)),
                None => None,
            },
        };
        match target {
            Some(view) => self.switch_to_view(view, now),
            None => None,
        }
    }

    /// Switches automatic reloads on or off; switching them on restarts the
    /// reload clock at `now`.
    pub fn toggle_auto_refresh(&mut self, now: u64)
        ensures
            old(self).toggle_auto_refresh_effect(*final(self), now),
            old(self).wf() ==> final(self).wf(),
    {
        if self.refresh.toggle(now) {
            self.store.status = String::from_str("Auto-refresh enabled (5s)");
        } else {
            self.store.status = String::from_str("Auto-refresh disabled");
        }
    }

    /// Begins query entry on a recall or reflect screen; elsewhere nothing happens.
    pub fn start_query(&mut self)
        ensures
            *final(self) == old(self).with_query_started(),
            old(self).wf() ==> final(self).wf(),
    {
        if self.nav.current.is_query_driven() {
            self.mode = InputMode::Query;
        }
    }

    /// Ends query entry without running the query; the text typed so far stays.
    pub fn cancel_query(&mut self)
        ensures
            *final(self) == (Session { mode: InputMode::Normal, ..*old(self) }),
            old(self).wf() ==> final(self).wf(),
    {
        self.mode = InputMode::Normal;
    }

    /// Appends a character to the query of the current screen.
    pub fn type_char(&mut self, c: char)
        ensures
            old(self).type_char_effect(*final(self), c),
            old(self).wf() ==> final(self).wf(),
    {
        match self.nav.current.kind() {
            ViewKind::Recall => {
                self.recall_query.push(c);
            },
            ViewKind::Reflect => {
                self.reflect_query.push(c);
            },
            _ => {},
        }
    }

    /// Removes the last character of the query of the current screen.
    pub fn backspace(&mut self)
        ensures
            old(self).backspace_effect(*final(self)),
            old(self).wf() ==> final(self).wf(),
    {
        match self.nav.current.kind() {
            ViewKind::Recall => {
                if !self.recall_query.as_str().is_empty() {
                    self.recall_query.pop();
                }
            },
            ViewKind::Reflect => {
                if !self.reflect_query.as_str().is_empty() {
                    self.reflect_query.pop();
                }
            },
            _ => {},
        }
    }

    /// Runs the recall query of the recall screen. An empty query sets an
    /// error and sends nothing; any other returns the request to send.
    pub fn execute_recall(&mut self) -> (request: Option<FetchRequest>)
        ensures
            old(self).execute_recall_effect(*final(self), request),
            old(self).recall_query@.len() == 0 ==> request is None,
            old(self).wf() ==> final(self).wf(),
    {
        let bank = match &self.nav.current {
            View::Recall(id) => Some(id.clone()),
            _ => None,
        };
        match bank {
            Some(bank_id) => {
                if self.recall_query.as_str().is_empty() {
                    self.store.error = String::from_str("Query cannot be empty");
                    None
                } else {
                    self.store.loading = true;
                    self.store.error = String::new();
                    Some(
                        FetchRequest::Recall {
                            bank_id,
                            query: self.recall_query.clone(),
                            budget: Budget::Mid,
                            max_tokens: RECALL_MAX_TOKENS,
                            trace: false,
                        },
                    )
                }
            },
            None => None,
        }
    }

    /// Runs the reflect query of the reflect screen. An empty query sets an
    /// error and sends nothing; any other returns the request to send.
    pub fn execute_reflect(&mut self) -> (request: Option<FetchRequest>)
        ensures
            old(self).execute_reflect_effect(*final(self), request),
            old(self).reflect_query@.len() == 0 ==> request is None,
            old(self).wf() ==> final(self).wf(),
    {
        let bank = match &self.nav.current {
            View::Reflect(id) => Some(id.clone()),
            _ => None,
        };
        match bank {
            Some(bank_id) => {
                if self.reflect_query.as_str().is_empty() {
                    self.store.error = String::from_str("Query cannot be empty");
                    None
                } else {
                    self.store.loading = true;
                    self.store.error = String::new();
                    Some(
                        FetchRequest::Reflect {
                            bank_id,
                            query: self.reflect_query.clone(),
                            budget: Budget::Mid,
                        },
                    )
                }
            },
            None => None,
        }
    }

    /// Takes in the answer to a request.
    pub fn complete(&mut self, response: FetchResponse)
        ensures
            old(self).complete_effect(*final(self), response),
            response is Failed ==> final(self).same_lists(*old(self)) && final(self).same_frame(
                *old(self),
            ),
            !final(self).store.loading,
            old(self).wf() ==> final(self).wf(),
    {
        match response {
            FetchResponse::Banks(list) => {
                let n = list.len();
                self.store.banks = list;
                self.cursors.banks.settle(n);
                self.store.status = count_message("Loaded ", n, " banks");
            },
            FetchResponse::Memories(list) => {
                let n = list.len();
                self.store.memories = list;
                self.cursors.memories.settle(n);
                self.store.status = count_message("Loaded ", n, " memories");
            },
            FetchResponse::Entities(list) => {
                let n = list.len();
                self.store.entities = list;
                self.cursors.entities.settle(n);
                self.store.status = count_message("Loaded ", n, " entities");
            },
            FetchResponse::Documents(list) => {
                let n = list.len();
                self.store.documents = list;
                self.cursors.documents.settle(n);
                self.store.status = count_message("Loaded ", n, " documents");
            },
            FetchResponse::Recall(results) => {
                let n = results.len();
                self.store.recall_results = results;
                self.cursors.recall.reset(n);
                self.store.status = count_message("Found ", n, " results");
                self.mode = InputMode::Normal;
            },
            FetchResponse::Reflect(text) => {
                self.store.reflect_text = text;
                self.store.status = String::from_str("Reflection complete");
                self.mode = InputMode::Normal;
            },
            FetchResponse::Failed(message) => {
                self.store.error = joined("Error: ", message.as_str());
            },
        }
        self.store.loading = false;
    }

    /// Carries out a command and says what the event loop has to do next.
    /// Commands that change the screen keep the session well-formed when
    /// given in normal mode, which is where keys ask for them.
    pub fn apply(&mut self, command: Command, now: u64) -> (action: Action)
        ensures
            old(self).command_step(*final(self), command, now, action),
            old(self).wf() && (old(self).mode is Normal || !command.navigates()) ==> final(self).wf(),
    {
        match command {
            Command::Ignore => Action::Continue,
            Command::Quit => Action::Quit,
            Command::ToggleHelp => {
                self.toggle_help();
                Action::Continue
            },
            Command::NextItem => {
                self.next_item();
                Action::Continue
            },
            Command::PreviousItem => {
                self.previous_item();
                Action::Continue
            },
            Command::EnterView => Action::sending(self.enter_view(now)),
            Command::GoBack => Action::sending(self.go_back(now)),
            Command::Open(kind) => Action::sending(self.open_view(kind, now)),
            Command::Refresh => Action::sending(self.refresh(now)),
            Command::ToggleAutoRefresh => {
                self.toggle_auto_refresh(now);
                Action::Continue
            },
            Command::StartQuery => {
                self.start_query();
                Action::Continue
            },
            Command::SubmitQuery => Action::sending(self.submit_query()),
            Command::CancelQuery => {
                self.cancel_query();
                Action::Continue
            },
            Command::TypeChar(c) => {
                self.type_char(c);
                Action::Continue
            },
            Command::EraseChar => {
                self.backspace();
                Action::Continue
            },
        }
    }

    /// Handles one key and says what the event loop has to do next.
    pub fn handle_key(&mut self, press: KeyPress, now: u64) -> (action: Action)
        ensures
            old(self).key_step(*final(self), press, now, action),
            old(self).wf() ==> final(self).wf(),
    {
        let command = self.mode.command(press);
        self.apply(command, now)
    }

    /// Runs the query of the current screen.
    pub fn submit_query(&mut self) -> (request: Option<FetchRequest>)
        ensures
            old(self).submit_effect(*final(self), request),
            old(self).wf() ==> final(self).wf(),
    {
        match self.nav.current.kind() {
            ViewKind::Recall => self.execute_recall(),
            _ => self.execute_reflect(),
        }
    }
}

/// Query entry begins only with `/` on a recall or reflect screen, so from
/// the bank list no key leads into it; and once begun, the only key that
/// ends it is Escape (running the query ends it when the answer is taken in).
pub proof fn lemma_query_mode_needs_query_screen(
    pre: Session,
    post: Session,
    press: KeyPress,
    now: u64,
    action: Action,
)
    requires
        pre.key_step(post, press, now, action),
    ensures
        pre.mode is Normal && post.mode is Query ==> press.key == Key::Char('/')
            && pre.nav.current@.is_query_driven() && post.nav == pre.nav,
        pre.mode is Normal && pre.nav.current@ is Banks ==> post.mode is Normal,
        pre.mode is Query && post.mode is Normal ==> press.key is Esc,
{
}

/// No key changes what was loaded: lists and reflection text change only
/// when an answer of the service is taken in.
pub proof fn lemma_keys_leave_data(pre: Session, post: Session, press: KeyPress, now: u64, action: Action)
    requires
        pre.key_step(post, press, now, action),
    ensures
        post.store.same_data(pre.store),
{
}

/// While a query is edited, keys change neither screen nor history, cursors,
/// help flag or reload clock.
pub proof fn lemma_query_mode_freezes_navigation(
    pre: Session,
    post: Session,
    press: KeyPress,
    now: u64,
    action: Action,
)
    requires
        pre.key_step(post, press, now, action),
        pre.mode is Query,
    ensures
        post.nav == pre.nav,
        post.cursors == pre.cursors,
        post.show_help == pre.show_help,
        post.refresh == pre.refresh,
{
}

/// From a screen of a bank, the only key that leads to the bank list is the
/// one that goes back, and only when the bank list is the screen left last.
pub proof fn lemma_only_back_returns_to_banks(
    pre: Session,
    post: Session,
    press: KeyPress,
    now: u64,
    action: Action,
)
    requires
        pre.key_step(post, press, now, action),
        !(pre.nav.current@ is Banks),
        post.nav.current@ is Banks,
    ensures
        command_of(pre.mode, press) is GoBack,
        pre.nav@.stack.len() > 0,
        pre.nav@.stack.last() is Banks,
{
}

/// Running an empty query from the keyboard sends nothing: Enter in query
/// mode with an empty buffer sets the error and leaves mode, screen and data
/// as they were.
pub proof fn lemma_empty_query_sends_nothing(
    pre: Session,
    post: Session,
    press: KeyPress,
    now: u64,
    action: Action,
)
    requires
        pre.key_step(post, press, now, action),
        pre.mode is Query,
        press.key is Enter,
        pre.nav.current@ is Recall ==> pre.recall_query@.len() == 0,
        pre.nav.current@ is Reflect ==> pre.reflect_query@.len() == 0,
    ensures
        action is Continue,
        post.mode is Query,
        post.nav == pre.nav,
        post.same_lists(pre),
        pre.nav.current@.is_query_driven() ==> post.store.error@ == "Query cannot be empty"@,
{
}

/// Switching to another screen and then going back shows the screen and the
/// history from before the switch, with data, cursors and queries untouched.
pub proof fn lemma_back_after_switch_restores(
    pre: Session,
    mid: Session,
    post: Session,
    view: ViewModel,
    first: Option<FetchRequest>,
    second: Option<FetchRequest>,
    switched_at: u64,
    back_at: u64,
)
    requires
        view != pre.nav.current@,
        pre.switch_effect(mid, view, first, switched_at),
        mid.go_back_effect(post, second, back_at),
    ensures
        post.nav@ == pre.nav@,
        post.same_lists(pre),
        post.same_queries(pre),
        post.mode == pre.mode,
        request_model(second) == reload_request(pre.nav.current@),
{
    lemma_back_undoes_switch(pre.nav@, view);
}

impl Cursors {
    /// Nothing selected anywhere.
    pub open spec fn none() -> Cursors {
        Cursors {
            banks: SelectionCursor { index: None },
            memories: SelectionCursor { index: None },
            entities: SelectionCursor { index: None },
            documents: SelectionCursor { index: None },
            recall: SelectionCursor { index: None },
        }
    }
}

} // verus!
