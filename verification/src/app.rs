//! The state of a session: the viewport over the store and the flags and
//! form that the mode state machine works on.

use crate::bounds::max_index_spec;
use crate::keybinds::Mode;
use crate::series::{series_views, Series, SeriesView};
use crate::user::create_input::{CreateInput, CreateInputView};
use vstd::prelude::*;

verus! {

/// Number of fields of the creation form.
pub const FORM_FIELDS: usize = 5;

/// Page size of a new viewport.
pub const DEFAULT_TAKE: usize = 16;

/// Which list the commands act on.
#[derive(Clone, Copy, Debug, PartialEq, Eq, Structural)]
pub enum Screen {
    /// The page of records.
    Listing,
    /// The fields of the creation form.
    Creating,
}

/// The window into the store and the page loaded through it.
pub struct Data {
    /// Index of the highlighted record within the loaded page.
    pub hovered_series_idx: usize,
    /// The loaded page.
    pub available_series: Vec<Series>,
    /// True when the loaded page is stale and must be fetched again before it
    /// is drawn.
    pub ignore_cached_series: bool,
    /// The page size to go back to.
    pub take_backup: usize,
    /// Page size.
    pub take: usize,
    /// Offset of the page in the store.
    pub skip: usize,
    /// Number of records in the store, as last counted.
    pub total_series: usize,
}

/// The mathematical value of a [`Data`].
pub struct DataView {
    pub hovered: nat,
    pub loaded: Seq<SeriesView>,
    pub cache_valid: bool,
    pub take_backup: nat,
    pub take: nat,
    pub skip: nat,
    pub total: nat,
}

impl View for Data {
    type V = DataView;

    open spec fn view(&self) -> DataView {
        DataView {
            hovered: self.hovered_series_idx as nat,
            loaded: series_views(self.available_series@),
            cache_valid: !self.ignore_cached_series,
            take_backup: self.take_backup as nat,
            take: self.take as nat,
            skip: self.skip as nat,
            total: self.total_series as nat,
        }
    }
}

impl DataView {
    /// The page sizes are positive and the highlighted index is inside the
    /// loaded page, or 0 when the page is empty.
    pub open spec fn wf(self) -> bool {
        &&& self.take > 0
        &&& self.take_backup > 0
        &&& self.hovered <= max_index_spec(self.loaded.len())
    }

    /// The viewport of a new session over a store of `total` records.
    pub open spec fn initial(total: nat) -> DataView {
        DataView {
            hovered: 0,
            loaded: Seq::empty(),
            cache_valid: false,
            take_backup: DEFAULT_TAKE as nat,
            take: DEFAULT_TAKE as nat,
            skip: 0,
            total,
        }
    }

    /// The page size is `take` and the one before it is banked.
    pub open spec fn with_take(self, take: nat) -> DataView {
        DataView { take_backup: self.take, take, ..self }
    }

    /// The page size is the banked one again.
    pub open spec fn with_restored_take(self) -> DataView {
        DataView { take: self.take_backup, ..self }
    }

    /// The loaded page is marked stale.
    pub open spec fn invalidated(self) -> DataView {
        DataView { cache_valid: false, ..self }
    }

    /// The page has to be fetched before it is drawn: it is stale or empty.
    pub open spec fn needs_fetch(self) -> bool {
        !self.cache_valid || self.loaded.len() == 0
    }

    /// `page` has replaced the loaded page. The highlighted index stays where
    /// it was as far as the new page reaches.
    pub open spec fn refreshed(self, page: Seq<SeriesView>) -> DataView {
        DataView {
            loaded: page,
            cache_valid: true,
            hovered: if self.hovered <= max_index_spec(page.len()) {
                self.hovered
            } else {
                max_index_spec(page.len())
            },
            ..self
        }
    }
}

/// Marking the page stale twice is the same as marking it once, and a page
/// marked stale stays so: the next `ensure_fresh` fetches.
pub proof fn lemma_invalidate_idempotent(v: DataView)
    ensures
        v.invalidated().invalidated() == v.invalidated(),
        !v.invalidated().cache_valid,
        v.invalidated().needs_fetch(),
{
}

impl Data {
    /// See [`DataView::wf`].
    pub open spec fn wf(&self) -> bool {
        self@.wf()
    }

    /// The viewport of a new session: 16 records from the start of the store,
    /// nothing loaded yet.
    pub fn default(total_series: usize) -> (r: Self)
        ensures
            r@ == DataView::initial(total_series as nat),
            r.wf(),
    {
        let r = Data {
            hovered_series_idx: 0,
            available_series: Vec::new(),
            ignore_cached_series: true,
            take_backup: DEFAULT_TAKE,
            take: DEFAULT_TAKE,
            skip: 0,
            total_series,
        };
        assert(r@.loaded =~= Seq::empty());
        r
    }

    /// Changes the page size and banks the one in use, for
    /// [`restore_take`](Data::restore_take).
    pub fn set_take(&mut self, take: usize)
        requires
            take > 0,
        ensures
            final(self)@ == old(self)@.with_take(take as nat),
            old(self).wf() ==> final(self).wf(),
    {
        self.take_backup = self.take;
        self.take = take;
    }

    /// Goes back to the banked page size. Without an earlier
    /// [`set_take`](Data::set_take) the page size stays as it is.
    pub fn restore_take(&mut self)
        ensures
            final(self)@ == old(self)@.with_restored_take(),
            old(self).wf() ==> final(self).wf(),
    {
        self.take = self.take_backup;
    }

    /// Marks the loaded page stale, so that the next
    /// [`ensure_fresh`](Data::ensure_fresh) fetches it again.
    pub fn invalidate(&mut self)
        ensures
            final(self)@ == old(self)@.invalidated(),
            old(self).wf() ==> final(self).wf(),
    {
        self.ignore_cached_series = true;
    }

    /// Records a new count of the records in the store.
    pub fn set_total_series(&mut self, total_series: usize)
        ensures
            final(self)@ == (DataView { total: total_series as nat, ..old(self)@ }),
            old(self).wf() ==> final(self).wf(),
    {
        self.total_series = total_series;
    }

    /// Tells whether the loaded page can be drawn as it is.
    pub fn cache_valid(&self) -> (r: bool)
        ensures
            r == self@.cache_valid,
    {
        !self.ignore_cached_series
    }

    /// Tells whether [`ensure_fresh`](Data::ensure_fresh) would fetch.
    pub fn needs_fetch(&self) -> (r: bool)
        ensures
            r == self@.needs_fetch(),
    {
        self.ignore_cached_series || self.available_series.len() == 0
    }

    /// Replaces the loaded page by `page`, which is fresh. The highlight
    /// stays where it was as far as the new page reaches.
    pub fn install_page(&mut self, page: Vec<Series>)
        ensures
            final(self)@ == old(self)@.refreshed(series_views(page@)),
            final(self).available_series == page,
            old(self).wf() ==> final(self).wf(),
    {
        let last: usize = crate::bounds::max_index(page.len());
        if self.hovered_series_idx > last {
            self.hovered_series_idx = last;
        }
        self.available_series = page;
        self.ignore_cached_series = false;
    }

    /// Makes the loaded page fit to draw. When it is stale or empty, `fetch`
    /// is called once with the page size and the offset, and what it returns
    /// becomes the loaded page; otherwise `fetch` is not called and nothing
    /// changes.
    pub fn ensure_fresh<F: FnOnce(usize, usize) -> Vec<Series>>(&mut self, fetch: F)
        requires
            call_requires(fetch, (old(self).take, old(self).skip)),
        ensures
            !old(self)@.needs_fetch() ==> *final(self) == *old(self),
            old(self)@.needs_fetch() ==> call_ensures(
                fetch,
                (old(self).take, old(self).skip),
                final(self).available_series,
            ),
            old(self)@.needs_fetch() ==> final(self)@ == old(self)@.refreshed(
                series_views(final(self).available_series@),
            ),
            final(self)@.cache_valid,
            old(self).wf() ==> final(self).wf(),
    {
        if self.needs_fetch() {
            let page: Vec<Series> = fetch(self.take, self.skip);
            self.install_page(page);
        }
    }
}

/// What the caller of a key handler has to do next.
pub enum Action {
    /// Nothing.
    Nothing,
    /// Hand the record to the store, then report how that went with
    /// [`App::insert_finished`].
    Insert(Series),
}

/// The mathematical value of an [`Action`].
pub enum ActionView {
    Nothing,
    Insert(SeriesView),
}

impl View for Action {
    type V = ActionView;

    open spec fn view(&self) -> ActionView {
        match self {
            Action::Nothing => ActionView::Nothing,
            Action::Insert(series) => ActionView::Insert(series@),
        }
    }
}

/// The complete state of a session.
pub struct App {
    /// The screen has to be drawn again.
    pub should_render: bool,
    /// The session is over.
    pub should_exit: bool,
    /// The key bindings are shown in place of the list.
    pub should_show_help: bool,
    /// The hint about the help key is shown under the list.
    pub should_show_help_msg: bool,
    /// Which list the commands act on.
    pub screen: Screen,
    /// The viewport over the store.
    pub data: Data,
    /// The fields of the creation form; empty outside a creation.
    pub create_data: Vec<CreateInput>,
    /// Index of the highlighted field of the creation form.
    pub create_hovered_idx: usize,
    /// How the next line is read.
    pub mode: Mode,
    /// A message to show once, with the next drawing of a list.
    pub toast: Option<String>,
}

/// The mathematical value of an [`App`].
pub struct AppView {
    pub should_render: bool,
    pub should_exit: bool,
    pub should_show_help: bool,
    pub should_show_help_msg: bool,
    pub screen: Screen,
    pub data: DataView,
    pub create_data: Seq<CreateInputView>,
    pub create_hovered_idx: nat,
    pub mode: Mode,
    pub toast: Option<Seq<char>>,
}

/// The views of the fields of `fields`, in order.
pub open spec fn field_views(fields: Seq<CreateInput>) -> Seq<CreateInputView> {
    fields.map_values(|f: CreateInput| f@)
}

/// The view of a message that may be absent.
pub open spec fn toast_view(toast: Option<String>) -> Option<Seq<char>> {
    match toast {
        Some(message) => Some(message@),
        None => None,
    }
}

/// The view of what the store gave when it was asked for a page.
pub open spec fn fetched_view(outcome: Result<Vec<Series>, String>) -> Result<
    Seq<SeriesView>,
    Seq<char>,
> {
    match outcome {
        Ok(page) => Ok(series_views(page@)),
        Err(message) => Err(message@),
    }
}

impl View for App {
    type V = AppView;

    open spec fn view(&self) -> AppView {
        AppView {
            should_render: self.should_render,
            should_exit: self.should_exit,
            should_show_help: self.should_show_help,
            should_show_help_msg: self.should_show_help_msg,
            screen: self.screen,
            data: self.data@,
            create_data: field_views(self.create_data@),
            create_hovered_idx: self.create_hovered_idx as nat,
            mode: self.mode,
            toast: toast_view(self.toast),
        }
    }
}

/// What a drawing of the screen shows.
#[derive(Clone, Copy, Debug, PartialEq, Eq, Structural)]
pub enum Frame {
    /// The key bindings and nothing else.
    Help,
    /// The page of records, then the message and the hint.
    Listing,
    /// The creation form, then the message and the hint.
    Form,
}

impl AppView {
    /// The viewport is well formed; during a creation the form has its five
    /// fields and one of them is highlighted; outside a creation there is no
    /// form and lines are commands.
    pub open spec fn wf(self) -> bool {
        &&& self.data.wf()
        &&& (self.screen is Creating ==> self.create_data.len() == FORM_FIELDS
            && self.create_hovered_idx < FORM_FIELDS)
        &&& (self.screen is Listing ==> self.create_data.len() == 0 && self.create_hovered_idx == 0
            && self.mode is Navigation)
    }

    /// The state of a new session over a store of `total` records.
    pub open spec fn initial(total: nat) -> AppView {
        AppView {
            should_render: true,
            should_exit: false,
            should_show_help: false,
            should_show_help_msg: true,
            screen: Screen::Listing,
            data: DataView::initial(total),
            create_data: Seq::empty(),
            create_hovered_idx: 0,
            mode: Mode::Navigation,
            toast: None,
        }
    }

    /// Length of the list that the commands act on.
    pub open spec fn active_len(self) -> nat {
        match self.screen {
            Screen::Listing => self.data.loaded.len(),
            Screen::Creating => self.create_data.len(),
        }
    }

    /// Highlighted index of the list that the commands act on.
    pub open spec fn active_hovered(self) -> nat {
        match self.screen {
            Screen::Listing => self.data.hovered,
            Screen::Creating => self.create_hovered_idx,
        }
    }

    /// The state with `idx` highlighted in the list that the commands act on.
    pub open spec fn with_hovered(self, idx: nat) -> AppView {
        match self.screen {
            Screen::Listing => AppView { data: DataView { hovered: idx, ..self.data }, ..self },
            Screen::Creating => AppView { create_hovered_idx: idx, ..self },
        }
    }

    /// The state that asks for a new drawing of the screen.
    pub open spec fn dirty(self) -> AppView {
        AppView { should_render: true, ..self }
    }

    /// What the next drawing shows.
    pub open spec fn frame(self) -> Frame {
        if self.should_show_help {
            Frame::Help
        } else {
            match self.screen {
                Screen::Listing => Frame::Listing,
                Screen::Creating => Frame::Form,
            }
        }
    }

    /// The state after the screen was drawn: nothing is left to draw, and the
    /// message is gone if the drawing showed it.
    pub open spec fn rendered(self) -> AppView {
        AppView {
            should_render: false,
            toast: if self.should_show_help {
                self.toast
            } else {
                None
            },
            ..self
        }
    }

    /// The state after the store was asked for the page: the page it gave
    /// is loaded, or, where it failed, its message waits to be shown and
    /// nothing else has changed.
    pub open spec fn page_reported(self, outcome: Result<Seq<SeriesView>, Seq<char>>) -> AppView {
        match outcome {
            Ok(page) => AppView { data: self.data.refreshed(page), ..self },
            Err(message) => AppView { toast: Some(message), ..self },
        }
    }

    /// Whether a drawing of the form shows field `i`: while a field is
    /// edited, only that one.
    pub open spec fn shows_field(self, i: nat) -> bool {
        i < self.create_data.len() && (self.mode is Edit ==> i == self.create_hovered_idx)
    }
}

impl App {
    /// See [`AppView::wf`].
    pub open spec fn wf(&self) -> bool {
        self@.wf()
    }

    /// The state of a new session over a store of `total_series` records:
    /// the list of records, nothing loaded, a first drawing due.
    pub fn new(total_series: usize) -> (r: Self)
        ensures
            r@ == AppView::initial(total_series as nat),
            r.wf(),
    {
        let r = App {
            should_render: true,
            should_exit: false,
            should_show_help: false,
            should_show_help_msg: true,
            screen: Screen::Listing,
            data: Data::default(total_series),
            create_data: Vec::new(),
            create_hovered_idx: 0,
            mode: Mode::Navigation,
            toast: None,
        };
        assert(r@.create_data =~= Seq::empty());
        r
    }

    /// Checks at run time that the state is well formed.
    pub fn is_wf(&self) -> (r: bool)
        ensures
            r == self.wf(),
    {
        let page_len: usize = self.data.available_series.len();
        let data_ok: bool = self.data.take > 0 && self.data.take_backup > 0
            && self.data.hovered_series_idx <= crate::bounds::max_index(page_len);
        let form_ok: bool = match self.screen {
            Screen::Creating => self.create_data.len() == FORM_FIELDS && self.create_hovered_idx
                < FORM_FIELDS,
            Screen::Listing => self.create_data.len() == 0 && self.create_hovered_idx == 0 && (
            match self.mode {
                Mode::Navigation => true,
                Mode::Edit => false,
            }),
        };
        data_ok && form_ok
    }

    /// Tells whether the screen has to be drawn again.
    pub fn needs_render(&self) -> (r: bool)
        ensures
            r == self@.should_render,
    {
        self.should_render
    }

    /// Tells what the next drawing shows.
    pub fn frame(&self) -> (r: Frame)
        ensures
            r == self@.frame(),
    {
        if self.should_show_help {
            Frame::Help
        } else {
            match self.screen {
                Screen::Listing => Frame::Listing,
                Screen::Creating => Frame::Form,
            }
        }
    }

    /// Records that the screen was drawn. A message that the drawing showed
    /// is dropped, so that it is shown once.
    pub fn mark_rendered(&mut self)
        ensures
            final(self)@ == old(self)@.rendered(),
            old(self).wf() ==> final(self).wf(),
    {
        self.should_render = false;
        if !self.should_show_help {
            self.toast = None;
        }
    }

    /// Makes the page of records fit to draw, from a store that can fail.
    /// When the page is stale or empty, `fetch` is called once with the page
    /// size and the offset. The page it gives becomes the loaded page. Where
    /// it fails, its message is kept to be shown once, the page stays as it
    /// was and stays stale, and the highlight does not move.
    pub fn ensure_fresh<F: FnOnce(usize, usize) -> Result<Vec<Series>, String>>(
        &mut self,
        fetch: F,
    )
        requires
            call_requires(fetch, (old(self).data.take, old(self).data.skip)),
        ensures
            !old(self)@.data.needs_fetch() ==> *final(self) == *old(self),
            old(self)@.data.needs_fetch() ==> exists|outcome: Result<Vec<Series>, String>|
                call_ensures(fetch, (old(self).data.take, old(self).data.skip), outcome)
                    && final(self)@ == old(self)@.page_reported(#[trigger] fetched_view(outcome)),
            old(self).wf() ==> final(self).wf(),
    {
        if self.data.needs_fetch() {
            let outcome: Result<Vec<Series>, String> = fetch(self.data.take, self.data.skip);
            let ghost seen = outcome;
            match outcome {
                Ok(page) => {
                    self.data.install_page(page);
                },
                Err(message) => {
                    self.toast = Some(message);
                },
            }
            assert(self@ == old(self)@.page_reported(fetched_view(seen)));
        }
    }

    /// Index highlighted in the list that the commands act on.
    pub fn hovered_index(&self) -> (r: usize)
        ensures
            r == self@.active_hovered(),
    {
        match self.screen {
            Screen::Listing => self.data.hovered_series_idx,
            Screen::Creating => self.create_hovered_idx,
        }
    }

    /// Length of the list that the commands act on.
    pub fn active_len(&self) -> (r: usize)
        ensures
            r == self@.active_len(),
    {
        match self.screen {
            Screen::Listing => self.data.available_series.len(),
            Screen::Creating => self.create_data.len(),
        }
    }

    /// The form of the creation in progress, if there is one.
    pub fn pending_form(&self) -> (r: Option<&Vec<CreateInput>>)
        ensures
            r is Some == (self@.screen is Creating),
            r matches Some(form) ==> *form == self.create_data,
    {
        match self.screen {
            Screen::Listing => None,
            Screen::Creating => Some(&self.create_data),
        }
    }

    /// Tells whether a drawing of the form shows field `i`.
    pub fn shows_field(&self, i: usize) -> (r: bool)
        ensures
            r == self@.shows_field(i as nat),
    {
        i < self.create_data.len() && match self.mode {
            Mode::Navigation => true,
            Mode::Edit => i == self.create_hovered_idx,
        }
    }
}

} // verus!
