use interface::nav::AppState;
use interface::views::Views;

#[test]
fn starts_on_main_with_empty_history() {
    let app = AppState::new();
    assert_eq!(app.current_view, Views::MainView);
    assert_eq!(app.history.previous.len(), 0);
    assert_eq!(app.history.next.len(), 0);
}

#[test]
fn set_view_records_the_previous_screen() {
    let mut app = AppState::new();
    app.set_view(Views::Partners);
    assert_eq!(app.current_view, Views::Partners);
    assert_eq!(app.history.previous, vec![Views::MainView]);
    assert_eq!(app.history.next.len(), 0);
    app.set_view(Views::Sales);
    assert_eq!(app.current_view, Views::Sales);
    assert_eq!(app.history.previous, vec![Views::MainView, Views::Partners]);
}

#[test]
fn set_view_clears_forward_history() {
    let mut app = AppState::new();
    app.set_view(Views::Partners);
    app.go_back();
    assert_eq!(app.history.next, vec![Views::Partners]);
    app.set_view(Views::Products);
    assert_eq!(app.history.next.len(), 0);
    assert_eq!(app.current_view, Views::Products);
}

#[test]
fn back_then_forward_restores_the_view() {
    let mut app = AppState::new();
    app.set_view(Views::Partners);
    app.go_back();
    assert_eq!(app.current_view, Views::MainView);
    app.go_forward();
    assert_eq!(app.current_view, Views::Partners);
    assert_eq!(app.history.previous, vec![Views::MainView]);
    assert_eq!(app.history.next.len(), 0);
}

#[test]
fn go_back_on_empty_previous_is_a_noop() {
    let mut app = AppState::new();
    app.go_back();
    assert_eq!(app.current_view, Views::MainView);
    assert_eq!(app.history.previous.len(), 0);
    assert_eq!(app.history.next.len(), 0);
}

#[test]
fn go_forward_on_empty_next_is_a_noop() {
    let mut app = AppState::new();
    app.set_view(Views::Sales);
    app.go_forward();
    assert_eq!(app.current_view, Views::Sales);
    assert_eq!(app.history.previous, vec![Views::MainView]);
    assert_eq!(app.history.next.len(), 0);
}

#[test]
fn deep_history_walks_both_ways() {
    let mut app = AppState::new();
    app.set_view(Views::Partners);
    app.set_view(Views::Sales);
    app.set_view(Views::Products);
    app.go_back();
    app.go_back();
    assert_eq!(app.current_view, Views::Partners);
    assert_eq!(app.history.previous, vec![Views::MainView]);
    assert_eq!(app.history.next, vec![Views::Products, Views::Sales]);
    app.go_forward();
    assert_eq!(app.current_view, Views::Sales);
    app.go_forward();
    assert_eq!(app.current_view, Views::Products);
    assert_eq!(app.history.next.len(), 0);
}
