//! The central screen/field state machine. It owns the current screen,
//! the field being edited, the staged input buffers, the query state, the
//! selection state and the record store, and it answers every input
//! event with one synchronous transition. The presentation layer only
//! reads this state and feeds events back in; persistence replays the
//! effects the transitions hand out.

use vstd::prelude::*;
use crate::date::{Date, spec_resolve, resolve};
use crate::price::{parse_price, spec_is_price, spec_price_cents};
use crate::query::{Filter, FilterModel, SortKey, spec_filter_of, filter_of, run_query, key_sorted,
    filtered};
use crate::record::{DbResults, RecordModel, models};
use crate::select::{advance, retreat, spec_advance, spec_retreat, valid_selection};
use crate::store::{Store, StoreModel, opt_chars, new_record, with_expended};

verus! {

/// Top-level UI mode; exactly one is active at a time.
#[derive(Clone, Copy, PartialEq, Eq, Structural, Debug)]
pub enum CurrentScreen {
    /// The table view, the initial screen.
    Main,
    /// The entry form for new purchases.
    SingleInput,
    /// Reserved for a removal flow that is not part of the core.
    RemoveConfirmation,
    /// The form that edits a selected record's expended date.
    EditExpended,
    /// The live search prompt.
    Query,
}

/// Which staged input buffer is receiving keystrokes.
#[derive(Clone, Copy, PartialEq, Eq, Structural, Debug)]
pub enum ItemInfo {
    /// The record identifier; never edited.
    Id,
    Ingredient,
    Price,
    ExpendedDate,
    PurchaseDate,
}

/// One discrete input event, as the state machine sees it.
#[derive(Clone, Copy, PartialEq, Eq, Structural, Debug)]
pub enum InputEvent {
    Char(char),
    Enter,
    Esc,
    Tab,
    Backspace,
    Up,
    Down,
}

/// Why a submit was rejected; the user keeps editing.
#[derive(Clone, Copy, PartialEq, Eq, Structural, Debug)]
pub enum SubmitError {
    /// The ingredient buffer is empty.
    EmptyIngredient,
    /// The price buffer is empty.
    EmptyPrice,
    /// The price buffer is not a well-formed decimal, or does not fit.
    InvalidPrice,
    /// The store has no identifier left to assign.
    StoreFull,
}

/// What one transition asks of the world outside the state machine.
pub enum Effect {
    /// No outside work.
    Nothing,
    /// The interactive loop should end.
    Quit,
    /// This record was added to the store; persist it.
    Inserted(DbResults),
    /// This record's expended date was set; persist the change.
    Updated { id: i64, expended_date: Option<Vec<char>> },
    /// The submit was refused; show the reason, keep the buffers.
    Rejected(SubmitError),
}

/// The mathematical value of an effect.
#[verifier::ext_equal]
pub ghost enum EffectModel {
    Nothing,
    Quit,
    Inserted(RecordModel),
    Updated { id: int, expended_date: Option<Seq<char>> },
    Rejected(SubmitError),
}

impl View for Effect {
    type V = EffectModel;

    open spec fn view(&self) -> EffectModel {
        match self {
            Effect::Nothing => EffectModel::Nothing,
            Effect::Quit => EffectModel::Quit,
            Effect::Inserted(rec) => EffectModel::Inserted(rec@),
            Effect::Updated { id, expended_date } => EffectModel::Updated {
                id: *id as int,
                expended_date: match expended_date {
                    Some(d) => Some(d@),
                    None => None,
                },
            },
            Effect::Rejected(e) => EffectModel::Rejected(*e),
        }
    }
}

/// The whole interactive state.
pub struct App {
    /// Whether the interactive loop is running.
    pub running: bool,
    /// The active sort clause.
    pub order_by: SortKey,
    /// The active filter, always derived from `query_input`.
    pub search_param: Filter,
    /// The record collection.
    pub store: Store,
    /// How many rows the last query produced.
    pub item_count: usize,
    /// The rows the last query produced, in display order.
    pub row_data: Vec<DbResults>,
    /// The field receiving keystrokes, in input-collecting screens.
    pub currently_editing: Option<ItemInfo>,
    /// The active screen.
    pub current_screen: CurrentScreen,
    pub ingredient_input: Vec<char>,
    pub price_input: Vec<char>,
    pub expended_date_input: Vec<char>,
    pub query_input: Vec<char>,
    pub purchase_date_input: Vec<char>,
    /// The highlighted row, if any.
    pub selected_index: Option<usize>,
    /// The scrollbar mirror of the highlighted row.
    pub scroll_position: usize,
}

/// The mathematical value of the whole interactive state.
#[verifier::ext_equal]
pub ghost struct AppModel {
    pub running: bool,
    pub order_by: SortKey,
    pub search_param: FilterModel,
    pub store: StoreModel,
    pub item_count: usize,
    pub row_data: Seq<RecordModel>,
    pub currently_editing: Option<ItemInfo>,
    pub current_screen: CurrentScreen,
    pub ingredient_input: Seq<char>,
    pub price_input: Seq<char>,
    pub expended_date_input: Seq<char>,
    pub query_input: Seq<char>,
    pub purchase_date_input: Seq<char>,
    pub selected_index: Option<usize>,
    pub scroll_position: usize,
}

impl View for App {
    type V = AppModel;

    open spec fn view(&self) -> AppModel {
        AppModel {
            running: self.running,
            order_by: self.order_by,
            search_param: self.search_param@,
            store: self.store@,
            item_count: self.item_count,
            row_data: models(self.row_data@),
            currently_editing: self.currently_editing,
            current_screen: self.current_screen,
            ingredient_input: self.ingredient_input@,
            price_input: self.price_input@,
            expended_date_input: self.expended_date_input@,
            query_input: self.query_input@,
            purchase_date_input: self.purchase_date_input@,
            selected_index: self.selected_index,
            scroll_position: self.scroll_position,
        }
    }
}

/// The selection clamped into the valid range after the row count
/// changed: cleared over an empty table, capped at the last row.
pub open spec fn spec_clamp(sel: Option<usize>, count: int) -> Option<usize> {
    if count == 0 {
        None
    } else {
        match sel {
            None => None,
            Some(i) => if i < count {
                Some(i)
            } else {
                Some((count - 1) as usize)
            },
        }
    }
}

/// What is wrong with the staged inputs, if anything: an empty required
/// buffer, a malformed or oversized price, or a store with no
/// identifier left.
pub open spec fn spec_submit_check(m: AppModel) -> Option<SubmitError> {
    if m.ingredient_input.len() == 0 {
        Some(SubmitError::EmptyIngredient)
    } else if m.price_input.len() == 0 {
        Some(SubmitError::EmptyPrice)
    } else if !(spec_is_price(m.price_input) && spec_price_cents(m.price_input) <= i64::MAX) {
        Some(SubmitError::InvalidPrice)
    } else if m.store.next_id >= i64::MAX {
        Some(SubmitError::StoreFull)
    } else {
        None
    }
}

/// An optional date token resolved: the empty token means unset.
pub open spec fn spec_resolve_opt(token: Seq<char>, today: Date) -> Option<Seq<char>> {
    if token.len() == 0 {
        None
    } else {
        Some(spec_resolve(token, today))
    }
}

/// The record a passing submit stores: the next identifier, the staged
/// ingredient, the price in cents, and both dates resolved.
pub open spec fn spec_submitted_record(m: AppModel, today: Date) -> RecordModel {
    new_record(
        m.store.next_id,
        m.ingredient_input,
        spec_price_cents(m.price_input),
        spec_resolve_opt(m.expended_date_input, today),
        spec_resolve(m.purchase_date_input, today),
    )
}

/// The state after a passing submit's insert: the record appended, the
/// next identifier advanced, everything else untouched.
pub open spec fn spec_after_insert(m: AppModel, today: Date) -> AppModel {
    AppModel {
        store: StoreModel {
            records: m.store.records.push(spec_submitted_record(m, today)),
            next_id: m.store.next_id + 1,
        },
        ..m
    }
}

/// The record rows with the expended date of the record carrying `id`
/// replaced, every other row untouched.
pub open spec fn update_by_id(records: Seq<RecordModel>, id: int, e: Option<Seq<char>>) -> Seq<
    RecordModel,
> {
    Seq::new(
        records.len(),
        |i: int|
            if records[i].id == id {
                with_expended(records[i], e)
            } else {
                records[i]
            },
    )
}

/// A text buffer with its last character removed; the empty buffer
/// stays empty.
pub open spec fn popped(s: Seq<char>) -> Seq<char> {
    if s.len() == 0 {
        s
    } else {
        s.drop_last()
    }
}

/// One transition of the state machine on the Main screen.
pub open spec fn spec_step_main(m: AppModel, ev: InputEvent, today: Date) -> (AppModel,
    EffectModel) {
    match ev {
        InputEvent::Char(c) => {
            if c == 'q' {
                (AppModel { running: false, ..m }, EffectModel::Quit)
            } else if c == 'i' {
                // Open the entry form on the purchase date, buffers cleared.
                (
                    AppModel {
                        current_screen: CurrentScreen::SingleInput,
                        currently_editing: Some(ItemInfo::PurchaseDate),
                        ingredient_input: Seq::empty(),
                        price_input: Seq::empty(),
                        expended_date_input: Seq::empty(),
                        purchase_date_input: Seq::empty(),
                        ..m
                    },
                    EffectModel::Nothing,
                )
            } else if c == 'e' {
                // Open the expended-date form; needs a selected row.
                if m.selected_index is Some {
                    (
                        AppModel {
                            current_screen: CurrentScreen::EditExpended,
                            currently_editing: Some(ItemInfo::ExpendedDate),
                            expended_date_input: Seq::empty(),
                            ..m
                        },
                        EffectModel::Nothing,
                    )
                } else {
                    (m, EffectModel::Nothing)
                }
            } else if c == 'E' {
                // Mark the selected record expended today, in place.
                match m.selected_index {
                    Some(i) => if (i as int) < m.row_data.len() {
                        let id = m.row_data[i as int].id;
                        let date = Some(crate::date::spec_date_chars(today));
                        (
                            AppModel {
                                store: StoreModel {
                                    records: update_by_id(m.store.records, id, date),
                                    next_id: m.store.next_id,
                                },
                                ..m
                            },
                            EffectModel::Updated { id, expended_date: date },
                        )
                    } else {
                        (m, EffectModel::Nothing)
                    },
                    None => (m, EffectModel::Nothing),
                }
            } else if c == 'p' {
                (AppModel { order_by: SortKey::PriceDesc, ..m }, EffectModel::Nothing)
            } else if c == 'P' {
                (AppModel { order_by: SortKey::PriceAsc, ..m }, EffectModel::Nothing)
            } else if c == 'd' {
                (AppModel { order_by: SortKey::PurchaseDesc, ..m }, EffectModel::Nothing)
            } else if c == 'D' {
                (AppModel { order_by: SortKey::PurchaseAsc, ..m }, EffectModel::Nothing)
            } else if c == 's' {
                (AppModel { order_by: SortKey::Smart, ..m }, EffectModel::Nothing)
            } else if c == 'Q' {
                // Enter query mode with a cleared search.
                (
                    AppModel {
                        current_screen: CurrentScreen::Query,
                        query_input: Seq::empty(),
                        search_param: FilterModel::MatchAll,
                        ..m
                    },
                    EffectModel::Nothing,
                )
            } else {
                (m, EffectModel::Nothing)
            }
        },
        InputEvent::Down => (
            AppModel {
                selected_index: spec_advance(m.selected_index, m.item_count),
                scroll_position: App::spec_scroll_of(spec_advance(m.selected_index, m.item_count)),
                ..m
            },
            EffectModel::Nothing,
        ),
        InputEvent::Up => (
            AppModel {
                selected_index: spec_retreat(m.selected_index, m.item_count),
                scroll_position: App::spec_scroll_of(spec_retreat(m.selected_index, m.item_count)),
                ..m
            },
            EffectModel::Nothing,
        ),
        InputEvent::Backspace => (
            AppModel {
                search_param: FilterModel::MatchAll,
                query_input: Seq::empty(),
                ..m
            },
            EffectModel::Nothing,
        ),
        _ => (m, EffectModel::Nothing),
    }
}

/// One transition of the state machine on the entry form.
pub open spec fn spec_step_single(m: AppModel, ev: InputEvent, today: Date) -> (AppModel,
    EffectModel) {
    match ev {
        InputEvent::Tab => {
            // The field ring: Ingredient, Price, ExpendedDate, around.
            let next = match m.currently_editing {
                Some(ItemInfo::Ingredient) => Some(ItemInfo::Price),
                Some(ItemInfo::Price) => Some(ItemInfo::ExpendedDate),
                Some(ItemInfo::ExpendedDate) => Some(ItemInfo::Ingredient),
                other => other,
            };
            (AppModel { currently_editing: next, ..m }, EffectModel::Nothing)
        },
        InputEvent::Esc => (
            AppModel { current_screen: CurrentScreen::Main, currently_editing: None, ..m },
            EffectModel::Nothing,
        ),
        InputEvent::Backspace => {
            let next = match m.currently_editing {
                Some(ItemInfo::Ingredient) => AppModel {
                    ingredient_input: popped(m.ingredient_input),
                    ..m
                },
                Some(ItemInfo::Price) => AppModel { price_input: popped(m.price_input), ..m },
                Some(ItemInfo::ExpendedDate) => AppModel {
                    expended_date_input: popped(m.expended_date_input),
                    ..m
                },
                Some(ItemInfo::PurchaseDate) => AppModel {
                    purchase_date_input: popped(m.purchase_date_input),
                    ..m
                },
                _ => m,
            };
            (next, EffectModel::Nothing)
        },
        InputEvent::Char(c) => {
            let next = match m.currently_editing {
                Some(ItemInfo::Ingredient) => AppModel {
                    ingredient_input: m.ingredient_input.push(c),
                    ..m
                },
                Some(ItemInfo::Price) => AppModel { price_input: m.price_input.push(c), ..m },
                Some(ItemInfo::ExpendedDate) => AppModel {
                    expended_date_input: m.expended_date_input.push(c),
                    ..m
                },
                Some(ItemInfo::PurchaseDate) => AppModel {
                    purchase_date_input: m.purchase_date_input.push(c),
                    ..m
                },
                _ => m,
            };
            (next, EffectModel::Nothing)
        },
        InputEvent::Enter => {
            match m.currently_editing {
                None => (m, EffectModel::Nothing),
                Some(ItemInfo::PurchaseDate) => {
                    // The purchase date is captured once per entry session.
                    if m.purchase_date_input.len() > 0 {
                        (
                            AppModel { currently_editing: Some(ItemInfo::Ingredient), ..m },
                            EffectModel::Nothing,
                        )
                    } else {
                        (m, EffectModel::Nothing)
                    }
                },
                Some(_) => {
                    match spec_submit_check(m) {
                        Some(e) => (m, EffectModel::Rejected(e)),
                        None => (
                            // Insert, clear the per-item buffers, and stay on
                            // the form at Ingredient; the purchase date
                            // persists for the next item.
                            AppModel {
                                ingredient_input: Seq::empty(),
                                price_input: Seq::empty(),
                                expended_date_input: Seq::empty(),
                                currently_editing: Some(ItemInfo::Ingredient),
                                ..spec_after_insert(m, today)
                            },
                            EffectModel::Inserted(spec_submitted_record(m, today)),
                        ),
                    }
                },
            }
        },
        _ => (m, EffectModel::Nothing),
    }
}

/// One transition of the state machine on the expended-date form.
pub open spec fn spec_step_edit(m: AppModel, ev: InputEvent, today: Date) -> (AppModel,
    EffectModel) {
    match ev {
        InputEvent::Backspace => (
            AppModel { expended_date_input: popped(m.expended_date_input), ..m },
            EffectModel::Nothing,
        ),
        InputEvent::Char(c) => (
            AppModel { expended_date_input: m.expended_date_input.push(c), ..m },
            EffectModel::Nothing,
        ),
        InputEvent::Esc => (
            AppModel {
                expended_date_input: Seq::empty(),
                current_screen: CurrentScreen::Main,
                currently_editing: None,
                ..m
            },
            EffectModel::Nothing,
        ),
        InputEvent::Enter => {
            // Needs a selected row; with none this is a guarded no-op.
            match m.selected_index {
                Some(i) => if (i as int) < m.row_data.len() {
                    let id = m.row_data[i as int].id;
                    let date = spec_resolve_opt(m.expended_date_input, today);
                    (
                        AppModel {
                            store: StoreModel {
                                records: update_by_id(m.store.records, id, date),
                                next_id: m.store.next_id,
                            },
                            expended_date_input: Seq::empty(),
                            current_screen: CurrentScreen::Main,
                            currently_editing: None,
                            ..m
                        },
                        EffectModel::Updated { id, expended_date: date },
                    )
                } else {
                    (m, EffectModel::Nothing)
                },
                None => (m, EffectModel::Nothing),
            }
        },
        _ => (m, EffectModel::Nothing),
    }
}

/// One transition of the state machine at the search prompt: every
/// keystroke recomputes the filter from the buffer, so it is never
/// stale.
pub open spec fn spec_step_query(m: AppModel, ev: InputEvent) -> (AppModel, EffectModel) {
    match ev {
        InputEvent::Esc => (
            AppModel {
                current_screen: CurrentScreen::Main,
                search_param: FilterModel::MatchAll,
                query_input: Seq::empty(),
                ..m
            },
            EffectModel::Nothing,
        ),
        InputEvent::Char(c) => (
            AppModel {
                query_input: m.query_input.push(c),
                search_param: spec_filter_of(m.query_input.push(c)),
                ..m
            },
            EffectModel::Nothing,
        ),
        InputEvent::Backspace => (
            AppModel {
                query_input: popped(m.query_input),
                search_param: spec_filter_of(popped(m.query_input)),
                ..m
            },
            EffectModel::Nothing,
        ),
        InputEvent::Enter => (
            AppModel { current_screen: CurrentScreen::Main, ..m },
            EffectModel::Nothing,
        ),
        _ => (m, EffectModel::Nothing),
    }
}

/// One transition of the state machine: what the event does to the
/// state, and the effect it asks of the world outside.
pub open spec fn spec_step(m: AppModel, ev: InputEvent, today: Date) -> (AppModel, EffectModel) {
    match m.current_screen {
        CurrentScreen::Main => spec_step_main(m, ev, today),
        CurrentScreen::SingleInput => spec_step_single(m, ev, today),
        CurrentScreen::EditExpended => spec_step_edit(m, ev, today),
        CurrentScreen::Query => spec_step_query(m, ev),
        CurrentScreen::RemoveConfirmation => (m, EffectModel::Nothing),
    }
}

/// Law: a submit whose staged inputs pass validation stores a record
/// whose price is the staged decimal string's value in cents —
/// multiplied by 100 and truncated — and a query with the universal
/// filter returns that record.
pub proof fn lemma_submit_stores_parsed_price(m: AppModel, f: ItemInfo, today: Date)
    requires
        m.current_screen == CurrentScreen::SingleInput,
        m.currently_editing == Some(f),
        f != ItemInfo::PurchaseDate,
        m.ingredient_input.len() > 0,
        spec_is_price(m.price_input),
        spec_price_cents(m.price_input) <= i64::MAX,
        m.store.next_id < i64::MAX,
    ensures
        ({
            let post = spec_step(m, InputEvent::Enter, today).0;
            let rec = spec_submitted_record(m, today);
            &&& spec_step(m, InputEvent::Enter, today).1 == EffectModel::Inserted(rec)
            &&& rec.price == spec_price_cents(m.price_input)
            &&& rec.ingredient == m.ingredient_input
            &&& post.store.records.contains(rec)
            &&& filtered(FilterModel::MatchAll, post.store.records).contains(rec)
        }),
{
    let post = spec_step(m, InputEvent::Enter, today).0;
    let rec = spec_submitted_record(m, today);
    // A well-formed price string is non-empty, so validation passes.
    let k = choose|k: int| crate::price::price_shape(m.price_input, k);
    assert(m.price_input.len() > 0);
    assert(spec_submit_check(m) is None);
    assert(post.store.records == m.store.records.push(rec));
    assert(post.store.records[post.store.records.len() - 1] == rec);
    crate::query::lemma_match_all_keeps_everything(post.store.records);
}

/// Law: resetting the search restores the full unfiltered result set:
/// after cancelling out of the query prompt the filter is universal,
/// and a universal query keeps every record of the store.
pub proof fn lemma_reset_restores_all(m: AppModel, today: Date)
    requires
        m.current_screen == CurrentScreen::Query,
    ensures
        ({
            let post = spec_step(m, InputEvent::Esc, today).0;
            &&& post.search_param == FilterModel::MatchAll
            &&& post.search_param == spec_filter_of(Seq::<char>::empty())
            &&& filtered(post.search_param, post.store.records) == post.store.records
        }),
{
    let post = spec_step(m, InputEvent::Esc, today).0;
    crate::query::lemma_match_all_keeps_everything(post.store.records);
}

/// Law: whenever the search text is empty — at start, after a reset,
/// or after deleting every typed character — the active filter is the
/// universal one and keeps every record: the reset is idempotent.
pub proof fn lemma_empty_search_is_universal(m: AppModel, s: Seq<RecordModel>)
    requires
        m.search_param == spec_filter_of(m.query_input),
        m.query_input.len() == 0,
    ensures
        m.search_param == FilterModel::MatchAll,
        filtered(m.search_param, s) == s,
{
    crate::query::lemma_match_all_keeps_everything(s);
}

/// A row-by-row copy of a row vector, with the same values.
fn dup_rows(v: &Vec<DbResults>) -> (r: Vec<DbResults>)
    ensures
        models(r@) == models(v@),
{
    let mut out: Vec<DbResults> = Vec::new();
    let mut i: usize = 0;
    while i < v.len()
        invariant
            i <= v.len(),
            models(out@) =~= models(v@).subrange(0, i as int),
        decreases v.len() - i,
    {
        let ghost pre_out = out@;
        proof {
            assert(models(pre_out).len() == pre_out.len());
            assert(pre_out.len() == i as int);
        }
        out.push(v[i].duplicate());
        proof {
            assert(out@.len() == i + 1);
            assert forall|j: int| 0 <= j < out@.len() implies models(out@)[j] == models(
                v@,
            ).subrange(0, i + 1)[j] by {
                assert(models(out@)[j] == out@[j]@);
                if j < i {
                    assert(out@[j] == pre_out[j]);
                    assert(models(pre_out)[j] == models(v@).subrange(0, i as int)[j]);
                } else {
                    assert(out@[j]@ == v@[i as int]@);
                }
            }
            assert(models(out@) =~= models(v@).subrange(0, i + 1));
        }
        i += 1;
    }
    proof {
        assert(models(v@).subrange(0, v@.len() as int) =~= models(v@));
    }
    out
}

impl App {
    /// The state invariant: the store is well formed, the row count
    /// matches the rows, the selection points at an existing row, and
    /// the filter is exactly what the search buffer derives to — never
    /// stale.
    pub open spec fn wf(self) -> bool {
        &&& self.store.wf()
        &&& self@.item_count == self@.row_data.len()
        &&& valid_selection(self@.selected_index, self@.item_count)
        &&& self@.search_param == spec_filter_of(self@.query_input)
    }

    /// The initial state: Main screen, nothing selected, no filter, the
    /// default smart ordering, an empty store, all buffers empty.
    pub fn new() -> (app: App)
        ensures
            app.wf(),
            app@.running == false,
            app@.order_by == SortKey::Smart,
            app@.search_param == FilterModel::MatchAll,
            app@.store.records.len() == 0,
            app@.store.next_id == 1,
            app@.item_count == 0,
            app@.row_data.len() == 0,
            app@.currently_editing is None,
            app@.current_screen == CurrentScreen::Main,
            app@.ingredient_input.len() == 0,
            app@.price_input.len() == 0,
            app@.expended_date_input.len() == 0,
            app@.query_input.len() == 0,
            app@.purchase_date_input.len() == 0,
            app@.selected_index is None,
            app@.scroll_position == 0,
    {
        App {
            running: false,
            order_by: SortKey::Smart,
            search_param: Filter::MatchAll,
            store: Store::new(),
            item_count: 0,
            row_data: Vec::new(),
            currently_editing: None,
            current_screen: CurrentScreen::Main,
            ingredient_input: Vec::new(),
            price_input: Vec::new(),
            expended_date_input: Vec::new(),
            query_input: Vec::new(),
            purchase_date_input: Vec::new(),
            selected_index: None,
            scroll_position: 0,
        }
    }

    /// Where the scrollbar stands for a selection.
    pub open spec fn spec_scroll_of(sel: Option<usize>) -> usize {
        match sel {
            Some(i) => i,
            None => 0,
        }
    }

    /// Move the selection one row down, wrapping, and mirror the
    /// scrollbar; over an empty table nothing becomes selected.
    pub fn next(&mut self)
        requires
            old(self).wf(),
        ensures
            final(self).wf(),
            final(self)@ == (AppModel {
                selected_index: spec_advance(old(self)@.selected_index, old(self)@.item_count),
                scroll_position: Self::spec_scroll_of(
                    spec_advance(old(self)@.selected_index, old(self)@.item_count),
                ),
                ..old(self)@
            }),
    {
        let next_sel = advance(self.selected_index, self.item_count);
        self.selected_index = next_sel;
        self.scroll_position = match next_sel {
            Some(i) => i,
            None => 0,
        };
    }

    /// Re-run the active query against the store: the rows that pass the
    /// filter, ordered by the sort clause. The row count follows, and
    /// the selection is clamped into the new valid range — never past
    /// it, and cleared over an empty result. Returns a copy of the rows.
    pub fn get_ingredient_entries(&mut self) -> (rows: Vec<DbResults>)
        requires
            old(self).wf(),
        ensures
            final(self).wf(),
            key_sorted(old(self)@.order_by, final(self)@.row_data),
            final(self)@.row_data.to_multiset() == filtered(
                old(self)@.search_param,
                old(self)@.store.records,
            ).to_multiset(),
            final(self)@ == (AppModel {
                item_count: final(self)@.item_count,
                row_data: final(self)@.row_data,
                selected_index: spec_clamp(
                    old(self)@.selected_index,
                    final(self)@.row_data.len() as int,
                ),
                ..old(self)@
            }),
            final(self)@.item_count == final(self)@.row_data.len(),
            models(rows@) == final(self)@.row_data,
    {
        let rows = run_query(&self.search_param, self.order_by, &self.store.records);
        let count = rows.len();
        self.item_count = count;
        self.selected_index = match self.selected_index {
            None => None,
            Some(i) => if count == 0 {
                None
            } else if i < count {
                Some(i)
            } else {
                Some(count - 1)
            },
        };
        self.row_data = dup_rows(&rows);
        rows
    }

    /// Validate the staged inputs and, when they pass, insert a new
    /// record: the price parsed as cents, both dates resolved through
    /// the shorthand resolver, an empty expended buffer meaning unset.
    /// On failure nothing changes and the reason is returned; the
    /// buffers are preserved for re-prompting either way.
    pub fn submit_ingredient(&mut self, today: &Date) -> (r: Result<DbResults, SubmitError>)
        requires
            old(self).wf(),
            today.wf(),
            today.has_prev(),
        ensures
            final(self).wf(),
            r is Ok <==> spec_submit_check(old(self)@) is None,
            r matches Err(e) ==> final(self)@ == old(self)@ && spec_submit_check(old(self)@)
                == Some(e),
            r matches Ok(rec) ==> {
                &&& rec@ == spec_submitted_record(old(self)@, *today)
                &&& final(self)@ == spec_after_insert(old(self)@, *today)
            },
    {
        if self.ingredient_input.len() == 0 {
            return Err(SubmitError::EmptyIngredient);
        }
        if self.price_input.len() == 0 {
            return Err(SubmitError::EmptyPrice);
        }
        let cents = match parse_price(&self.price_input) {
            Some(c) => c,
            None => {
                return Err(SubmitError::InvalidPrice);
            },
        };
        let expended = if self.expended_date_input.len() == 0 {
            None
        } else {
            Some(resolve(&self.expended_date_input, *today))
        };
        let purchase = resolve(&self.purchase_date_input, *today);
        match self.store.insert(self.ingredient_input.clone(), cents, purchase, expended) {
            Some(rec) => {
                proof {
                    assert(self@ =~= spec_after_insert(old(self)@, *today));
                }
                Ok(rec)
            },
            None => Err(SubmitError::StoreFull),
        }
    }

    /// Set the expended date of the record with the given identifier,
    /// leaving everything else as it was. Over a store without that
    /// record this changes nothing and reports it.
    pub fn update_expended(&mut self, item_id: i64, new_date: Option<Vec<char>>) -> (found: bool)
        requires
            old(self).wf(),
        ensures
            final(self).wf(),
            final(self)@ == (AppModel {
                store: (StoreModel {
                    records: update_by_id(
                        old(self)@.store.records,
                        item_id as int,
                        opt_chars(new_date),
                    ),
                    next_id: old(self)@.store.next_id,
                }),
                ..old(self)@
            }),
            found <==> exists|i: int|
                0 <= i < old(self)@.store.records.len() && (
                #[trigger] old(self)@.store.records[i]).id == item_id as int,
    {
        let ghost e = opt_chars(new_date);
        let found = self.store.update_expended(item_id, new_date);
        proof {
            assert(self@.store.records =~= update_by_id(
                old(self)@.store.records,
                item_id as int,
                e,
            ));
            assert(self@ =~= (AppModel {
                store: (StoreModel {
                    records: update_by_id(old(self)@.store.records, item_id as int, e),
                    next_id: old(self)@.store.next_id,
                }),
                ..old(self)@
            }));
        }
        found
    }

    /// Run one transition of the state machine: the state changes and
    /// the effect returned are exactly what `spec_step` says for this
    /// event over today's date.
    pub fn handle_event(&mut self, ev: InputEvent, today: &Date) -> (eff: Effect)
        requires
            old(self).wf(),
            today.wf(),
            today.has_prev(),
        ensures
            final(self).wf(),
            final(self)@ == spec_step(old(self)@, ev, *today).0,
            eff@ == spec_step(old(self)@, ev, *today).1,
    {
        match self.current_screen {
            CurrentScreen::Main => self.handle_main(ev, today),
            CurrentScreen::SingleInput => self.handle_single(ev, today),
            CurrentScreen::EditExpended => self.handle_edit(ev, today),
            CurrentScreen::Query => self.handle_query(ev),
            CurrentScreen::RemoveConfirmation => Effect::Nothing,
        }
    }

    /// The Main-screen transitions: quitting, opening forms, marking the
    /// selection expended, moving it, changing the sort, resetting the
    /// filter.
    fn handle_main(&mut self, ev: InputEvent, today: &Date) -> (eff: Effect)
        requires
            old(self).wf(),
            old(self)@.current_screen == CurrentScreen::Main,
            today.wf(),
            today.has_prev(),
        ensures
            final(self).wf(),
            final(self)@ == spec_step_main(old(self)@, ev, *today).0,
            eff@ == spec_step_main(old(self)@, ev, *today).1,
    {
        match ev {
            InputEvent::Char(c) => {
                if c == 'q' {
                    self.running = false;
                    Effect::Quit
                } else if c == 'i' {
                    self.current_screen = CurrentScreen::SingleInput;
                    self.currently_editing = Some(ItemInfo::PurchaseDate);
                    self.ingredient_input.clear();
                    self.price_input.clear();
                    self.expended_date_input.clear();
                    self.purchase_date_input.clear();
                    Effect::Nothing
                } else if c == 'e' {
                    if self.selected_index.is_some() {
                        self.current_screen = CurrentScreen::EditExpended;
                        self.currently_editing = Some(ItemInfo::ExpendedDate);
                        self.expended_date_input.clear();
                    }
                    Effect::Nothing
                } else if c == 'E' {
                    match self.selected_index {
                        Some(i) => {
                            if i < self.row_data.len() {
                                let id = self.row_data[i].id;
                                let d = crate::date::date_chars(*today);
                                let d_eff = d.clone();
                                let _ = self.update_expended(id, Some(d));
                                Effect::Updated { id, expended_date: Some(d_eff) }
                            } else {
                                Effect::Nothing
                            }
                        },
                        None => Effect::Nothing,
                    }
                } else if c == 'p' {
                    self.order_by = SortKey::PriceDesc;
                    Effect::Nothing
                } else if c == 'P' {
                    self.order_by = SortKey::PriceAsc;
                    Effect::Nothing
                } else if c == 'd' {
                    self.order_by = SortKey::PurchaseDesc;
                    Effect::Nothing
                } else if c == 'D' {
                    self.order_by = SortKey::PurchaseAsc;
                    Effect::Nothing
                } else if c == 's' {
                    self.order_by = SortKey::Smart;
                    Effect::Nothing
                } else if c == 'Q' {
                    self.current_screen = CurrentScreen::Query;
                    self.query_input.clear();
                    self.search_param = Filter::MatchAll;
                    Effect::Nothing
                } else {
                    Effect::Nothing
                }
            },
            InputEvent::Down => {
                self.next();
                Effect::Nothing
            },
            InputEvent::Up => {
                self.prev();
                Effect::Nothing
            },
            InputEvent::Backspace => {
                self.search_param = Filter::MatchAll;
                self.query_input.clear();
                Effect::Nothing
            },
            _ => Effect::Nothing,
        }
    }

    /// The entry-form transitions: buffer editing, the Tab field ring,
    /// capturing the purchase date, and submitting items.
    fn handle_single(&mut self, ev: InputEvent, today: &Date) -> (eff: Effect)
        requires
            old(self).wf(),
            old(self)@.current_screen == CurrentScreen::SingleInput,
            today.wf(),
            today.has_prev(),
        ensures
            final(self).wf(),
            final(self)@ == spec_step_single(old(self)@, ev, *today).0,
            eff@ == spec_step_single(old(self)@, ev, *today).1,
    {
        match ev {
            InputEvent::Tab => {
                match self.currently_editing {
                    Some(ItemInfo::Ingredient) => {
                        self.currently_editing = Some(ItemInfo::Price);
                    },
                    Some(ItemInfo::Price) => {
                        self.currently_editing = Some(ItemInfo::ExpendedDate);
                    },
                    Some(ItemInfo::ExpendedDate) => {
                        self.currently_editing = Some(ItemInfo::Ingredient);
                    },
                    _ => {},
                }
                Effect::Nothing
            },
            InputEvent::Esc => {
                self.current_screen = CurrentScreen::Main;
                self.currently_editing = None;
                Effect::Nothing
            },
            InputEvent::Backspace => {
                match self.currently_editing {
                    Some(ItemInfo::Ingredient) => {
                        let _ = self.ingredient_input.pop();
                    },
                    Some(ItemInfo::Price) => {
                        let _ = self.price_input.pop();
                    },
                    Some(ItemInfo::ExpendedDate) => {
                        let _ = self.expended_date_input.pop();
                    },
                    Some(ItemInfo::PurchaseDate) => {
                        let _ = self.purchase_date_input.pop();
                    },
                    _ => {},
                }
                Effect::Nothing
            },
            InputEvent::Char(c) => {
                match self.currently_editing {
                    Some(ItemInfo::Ingredient) => self.ingredient_input.push(c),
                    Some(ItemInfo::Price) => self.price_input.push(c),
                    Some(ItemInfo::ExpendedDate) => self.expended_date_input.push(c),
                    Some(ItemInfo::PurchaseDate) => self.purchase_date_input.push(c),
                    _ => {},
                }
                Effect::Nothing
            },
            InputEvent::Enter => {
                match self.currently_editing {
                    None => Effect::Nothing,
                    Some(ItemInfo::PurchaseDate) => {
                        if self.purchase_date_input.len() > 0 {
                            self.currently_editing = Some(ItemInfo::Ingredient);
                        }
                        Effect::Nothing
                    },
                    Some(_) => {
                        match self.submit_ingredient(today) {
                            Ok(rec) => {
                                self.ingredient_input.clear();
                                self.price_input.clear();
                                self.expended_date_input.clear();
                                self.currently_editing = Some(ItemInfo::Ingredient);
                                Effect::Inserted(rec)
                            },
                            Err(e) => Effect::Rejected(e),
                        }
                    },
                }
            },
            _ => Effect::Nothing,
        }
    }

    /// The expended-date-form transitions: buffer editing, cancel, and
    /// the guarded confirm that resolves the buffer and updates the
    /// selected record.
    fn handle_edit(&mut self, ev: InputEvent, today: &Date) -> (eff: Effect)
        requires
            old(self).wf(),
            old(self)@.current_screen == CurrentScreen::EditExpended,
            today.wf(),
            today.has_prev(),
        ensures
            final(self).wf(),
            final(self)@ == spec_step_edit(old(self)@, ev, *today).0,
            eff@ == spec_step_edit(old(self)@, ev, *today).1,
    {
        match ev {
            InputEvent::Backspace => {
                let _ = self.expended_date_input.pop();
                Effect::Nothing
            },
            InputEvent::Char(c) => {
                self.expended_date_input.push(c);
                Effect::Nothing
            },
            InputEvent::Esc => {
                self.expended_date_input.clear();
                self.current_screen = CurrentScreen::Main;
                self.currently_editing = None;
                Effect::Nothing
            },
            InputEvent::Enter => {
                match self.selected_index {
                    Some(i) => {
                        if i < self.row_data.len() {
                            let id = self.row_data[i].id;
                            let resolved: Option<Vec<char>> = if self.expended_date_input.len()
                                == 0 {
                                None
                            } else {
                                Some(resolve(&self.expended_date_input, *today))
                            };
                            let resolved_eff = match &resolved {
                                Some(d) => Some(d.clone()),
                                None => None,
                            };
                            let _ = self.update_expended(id, resolved);
                            self.expended_date_input.clear();
                            self.current_screen = CurrentScreen::Main;
                            self.currently_editing = None;
                            Effect::Updated { id, expended_date: resolved_eff }
                        } else {
                            Effect::Nothing
                        }
                    },
                    None => Effect::Nothing,
                }
            },
            _ => Effect::Nothing,
        }
    }

    /// The search-prompt transitions: live filtering as the buffer is
    /// edited, cancel restoring the unfiltered view, confirm keeping
    /// the filter.
    fn handle_query(&mut self, ev: InputEvent) -> (eff: Effect)
        requires
            old(self).wf(),
            old(self)@.current_screen == CurrentScreen::Query,
        ensures
            final(self).wf(),
            final(self)@ == spec_step_query(old(self)@, ev).0,
            eff@ == spec_step_query(old(self)@, ev).1,
    {
        match ev {
            InputEvent::Esc => {
                self.current_screen = CurrentScreen::Main;
                self.search_param = Filter::MatchAll;
                self.query_input.clear();
                Effect::Nothing
            },
            InputEvent::Char(c) => {
                self.query_input.push(c);
                self.search_param = filter_of(&self.query_input);
                Effect::Nothing
            },
            InputEvent::Backspace => {
                let _ = self.query_input.pop();
                self.search_param = filter_of(&self.query_input);
                Effect::Nothing
            },
            InputEvent::Enter => {
                self.current_screen = CurrentScreen::Main;
                Effect::Nothing
            },
            _ => Effect::Nothing,
        }
    }

    /// Run one transition against the system clock's idea of today.
    /// Whatever date the clock reports, the transition taken is one of
    /// `spec_step` over some well-formed date.
    pub fn handle_event_now(&mut self, ev: InputEvent) -> (eff: Effect)
        requires
            old(self).wf(),
        ensures
            final(self).wf(),
            exists|d: Date|
                {
                    &&& d.wf()
                    &&& d.has_prev()
                    &&& final(self)@ == spec_step(old(self)@, ev, d).0
                    &&& eff@ == #[trigger] spec_step(old(self)@, ev, d).1
                },
    {
        let today = crate::date::today();
        self.handle_event(ev, &today)
    }

    /// Move the selection one row up, wrapping, and mirror the
    /// scrollbar; over an empty table nothing becomes selected.
    pub fn prev(&mut self)
        requires
            old(self).wf(),
        ensures
            final(self).wf(),
            final(self)@ == (AppModel {
                selected_index: spec_retreat(old(self)@.selected_index, old(self)@.item_count),
                scroll_position: Self::spec_scroll_of(
                    spec_retreat(old(self)@.selected_index, old(self)@.item_count),
                ),
                ..old(self)@
            }),
    {
        let next_sel = retreat(self.selected_index, self.item_count);
        self.selected_index = next_sel;
        self.scroll_position = match next_sel {
            Some(i) => i,
            None => 0,
        };
    }
}

} // verus!
