use meal_tracker::date::Date;
use meal_tracker::machine::{App, CurrentScreen, Effect, InputEvent, ItemInfo, SubmitError};
use meal_tracker::query::SortKey;

fn chars(s: &str) -> Vec<char> {
    s.chars().collect()
}

fn text(v: &[char]) -> String {
    v.iter().collect()
}

fn day(y: i32, m: u8, d: u8) -> Date {
    Date { year: y, month: m, day: d }
}

fn type_text(app: &mut App, today: &Date, s: &str) {
    for c in s.chars() {
        app.handle_event(InputEvent::Char(c), today);
    }
}

/// Open the entry form and submit one record under the given purchase
/// date shorthand.
fn submit_entry(app: &mut App, today: &Date, purchase: &str, ingredient: &str, price: &str) {
    app.handle_event(InputEvent::Char('i'), today);
    type_text(app, today, purchase);
    app.handle_event(InputEvent::Enter, today);
    type_text(app, today, ingredient);
    app.handle_event(InputEvent::Tab, today);
    type_text(app, today, price);
    app.handle_event(InputEvent::Enter, today);
}

#[test]
fn moving_selection_over_no_rows_stays_unselected() {
    let today = day(2024, 9, 10);
    let mut app = App::new();
    app.handle_event(InputEvent::Down, &today);
    assert_eq!(app.selected_index, None);
    app.handle_event(InputEvent::Up, &today);
    assert_eq!(app.selected_index, None);
    assert_eq!(app.item_count, 0);
}

#[test]
fn submitted_entry_appears_in_the_universal_query() {
    let today = day(2024, 9, 10);
    let mut app = App::new();
    submit_entry(&mut app, &today, "2024-09-01", "rice", "4.99");
    assert!(matches!(app.current_screen, CurrentScreen::SingleInput));
    assert_eq!(app.currently_editing, Some(ItemInfo::Ingredient));
    let rows = app.get_ingredient_entries();
    assert_eq!(rows.len(), 1);
    assert_eq!(text(&rows[0].ingredient), "rice");
    assert_eq!(rows[0].price, 499);
    assert_eq!(text(&rows[0].purchase_date), "2024-09-01");
    assert_eq!(rows[0].expended_date, None);
}

#[test]
fn submit_keeps_purchase_date_and_clears_item_buffers() {
    let today = day(2024, 9, 10);
    let mut app = App::new();
    submit_entry(&mut app, &today, "t", "rice", "4.99");
    assert_eq!(text(&app.purchase_date_input), "t");
    assert_eq!(app.ingredient_input.len(), 0);
    assert_eq!(app.price_input.len(), 0);
    // The purchase date was resolved through the shorthand.
    let rows = app.get_ingredient_entries();
    assert_eq!(text(&rows[0].purchase_date), "2024-09-10");
}

#[test]
fn empty_ingredient_is_rejected() {
    let today = day(2024, 9, 10);
    let mut app = App::new();
    app.handle_event(InputEvent::Char('i'), &today);
    type_text(&mut app, &today, "2024-09-01");
    app.handle_event(InputEvent::Enter, &today);
    app.handle_event(InputEvent::Tab, &today);
    type_text(&mut app, &today, "4.99");
    let eff = app.handle_event(InputEvent::Enter, &today);
    assert!(matches!(eff, Effect::Rejected(SubmitError::EmptyIngredient)));
    assert_eq!(app.store.records.len(), 0);
    assert_eq!(text(&app.price_input), "4.99");
}

#[test]
fn empty_price_is_rejected() {
    let today = day(2024, 9, 10);
    let mut app = App::new();
    app.handle_event(InputEvent::Char('i'), &today);
    type_text(&mut app, &today, "2024-09-01");
    app.handle_event(InputEvent::Enter, &today);
    type_text(&mut app, &today, "rice");
    let eff = app.handle_event(InputEvent::Enter, &today);
    assert!(matches!(eff, Effect::Rejected(SubmitError::EmptyPrice)));
    assert_eq!(app.store.records.len(), 0);
}

#[test]
fn malformed_price_is_rejected_and_buffers_survive() {
    let today = day(2024, 9, 10);
    let mut app = App::new();
    submit_entry(&mut app, &today, "2024-09-01", "rice", "4..99");
    assert_eq!(app.store.records.len(), 0);
    assert_eq!(text(&app.ingredient_input), "rice");
    assert_eq!(text(&app.price_input), "4..99");
    assert!(matches!(app.current_screen, CurrentScreen::SingleInput));
}

#[test]
fn edit_expended_confirm_with_t_sets_today_and_returns_to_main() {
    let today = day(2024, 9, 10);
    let mut app = App::new();
    submit_entry(&mut app, &today, "2024-09-01", "rice", "4.99");
    app.handle_event(InputEvent::Esc, &today);
    app.get_ingredient_entries();
    app.handle_event(InputEvent::Down, &today);
    assert_eq!(app.selected_index, Some(0));
    app.handle_event(InputEvent::Char('e'), &today);
    assert!(matches!(app.current_screen, CurrentScreen::EditExpended));
    let eff = app.handle_event(InputEvent::Char('t'), &today);
    assert!(matches!(eff, Effect::Nothing));
    app.handle_event(InputEvent::Enter, &today);
    assert!(matches!(app.current_screen, CurrentScreen::Main));
    assert_eq!(app.currently_editing, None);
    assert_eq!(app.expended_date_input.len(), 0);
    assert_eq!(app.store.records[0].expended_date, Some(chars("2024-09-10")));
}

#[test]
fn edit_expended_confirm_without_selection_is_a_no_op() {
    let today = day(2024, 9, 10);
    let mut app = App::new();
    app.handle_event(InputEvent::Char('e'), &today);
    // Opening the form needs a selection, so nothing happened.
    assert!(matches!(app.current_screen, CurrentScreen::Main));
}

#[test]
fn mark_expended_today_updates_in_place() {
    let today = day(2024, 9, 10);
    let mut app = App::new();
    submit_entry(&mut app, &today, "2024-09-01", "rice", "4.99");
    app.handle_event(InputEvent::Esc, &today);
    app.get_ingredient_entries();
    app.handle_event(InputEvent::Down, &today);
    let eff = app.handle_event(InputEvent::Char('E'), &today);
    assert!(matches!(eff, Effect::Updated { id: 1, .. }));
    assert!(matches!(app.current_screen, CurrentScreen::Main));
    assert_eq!(app.store.records[0].expended_date, Some(chars("2024-09-10")));
}

#[test]
fn query_typing_filters_live_and_backspace_resets() {
    let today = day(2024, 9, 10);
    let mut app = App::new();
    submit_entry(&mut app, &today, "2024-09-01", "rice", "4.99");
    app.handle_event(InputEvent::Esc, &today);
    submit_entry(&mut app, &today, "2024-09-02", "beans", "2.50");
    app.handle_event(InputEvent::Esc, &today);
    app.handle_event(InputEvent::Char('Q'), &today);
    type_text(&mut app, &today, "bea");
    app.handle_event(InputEvent::Enter, &today);
    let rows = app.get_ingredient_entries();
    assert_eq!(rows.len(), 1);
    assert_eq!(text(&rows[0].ingredient), "beans");
    // Backspace on Main resets the filter: the full set comes back.
    app.handle_event(InputEvent::Backspace, &today);
    let rows = app.get_ingredient_entries();
    assert_eq!(rows.len(), 2);
}

#[test]
fn query_esc_cancels_the_search() {
    let today = day(2024, 9, 10);
    let mut app = App::new();
    submit_entry(&mut app, &today, "2024-09-01", "rice", "4.99");
    app.handle_event(InputEvent::Esc, &today);
    app.handle_event(InputEvent::Char('Q'), &today);
    type_text(&mut app, &today, "zzz");
    let rows = app.get_ingredient_entries();
    assert_eq!(rows.len(), 0);
    assert_eq!(app.selected_index, None);
    app.handle_event(InputEvent::Esc, &today);
    assert!(matches!(app.current_screen, CurrentScreen::Main));
    assert_eq!(app.query_input.len(), 0);
    let rows = app.get_ingredient_entries();
    assert_eq!(rows.len(), 1);
}

#[test]
fn shrinking_results_clamps_the_selection() {
    let today = day(2024, 9, 10);
    let mut app = App::new();
    submit_entry(&mut app, &today, "2024-09-01", "rice", "4.99");
    app.handle_event(InputEvent::Esc, &today);
    submit_entry(&mut app, &today, "2024-09-02", "beans", "2.50");
    app.handle_event(InputEvent::Esc, &today);
    app.get_ingredient_entries();
    app.handle_event(InputEvent::Down, &today);
    app.handle_event(InputEvent::Down, &today);
    assert_eq!(app.selected_index, Some(1));
    app.handle_event(InputEvent::Char('Q'), &today);
    type_text(&mut app, &today, "rice");
    let rows = app.get_ingredient_entries();
    assert_eq!(rows.len(), 1);
    assert_eq!(app.selected_index, Some(0));
}

#[test]
fn sort_keys_follow_the_keys_pressed() {
    let today = day(2024, 9, 10);
    let mut app = App::new();
    assert_eq!(app.order_by, SortKey::Smart);
    app.handle_event(InputEvent::Char('p'), &today);
    assert_eq!(app.order_by, SortKey::PriceDesc);
    app.handle_event(InputEvent::Char('P'), &today);
    assert_eq!(app.order_by, SortKey::PriceAsc);
    app.handle_event(InputEvent::Char('d'), &today);
    assert_eq!(app.order_by, SortKey::PurchaseDesc);
    app.handle_event(InputEvent::Char('D'), &today);
    assert_eq!(app.order_by, SortKey::PurchaseAsc);
    app.handle_event(InputEvent::Char('s'), &today);
    assert_eq!(app.order_by, SortKey::Smart);
}

#[test]
fn quit_hands_back_the_quit_effect() {
    let today = day(2024, 9, 10);
    let mut app = App::new();
    let eff = app.handle_event(InputEvent::Char('q'), &today);
    assert!(matches!(eff, Effect::Quit));
}

#[test]
fn tab_cycles_the_field_ring() {
    let today = day(2024, 9, 10);
    let mut app = App::new();
    app.handle_event(InputEvent::Char('i'), &today);
    assert_eq!(app.currently_editing, Some(ItemInfo::PurchaseDate));
    // Tab does not leave the purchase date; Enter on a non-empty buffer does.
    app.handle_event(InputEvent::Tab, &today);
    assert_eq!(app.currently_editing, Some(ItemInfo::PurchaseDate));
    type_text(&mut app, &today, "t");
    app.handle_event(InputEvent::Enter, &today);
    assert_eq!(app.currently_editing, Some(ItemInfo::Ingredient));
    app.handle_event(InputEvent::Tab, &today);
    assert_eq!(app.currently_editing, Some(ItemInfo::Price));
    app.handle_event(InputEvent::Tab, &today);
    assert_eq!(app.currently_editing, Some(ItemInfo::ExpendedDate));
    app.handle_event(InputEvent::Tab, &today);
    assert_eq!(app.currently_editing, Some(ItemInfo::Ingredient));
}

#[test]
fn handle_event_now_runs_against_the_clock() {
    let mut app = App::new();
    let eff = app.handle_event_now(InputEvent::Char('p'));
    assert!(matches!(eff, Effect::Nothing));
    assert_eq!(app.order_by, SortKey::PriceDesc);
}
