use client_core::components::details::{Details, Scroll};
use client_core::components::download_popup::{AttachmentList, AttachmentListItem, Popup};
use client_core::components::home::{Home, ModeList, ModeListItem};
use client_core::components::list::{AssignmentList, AssignmentListItem, List};
use client_core::components::selection::{nav, ListState, Nav};
use client_core::{Action, Assignment, AssignmentType, Attachment, KeyCode, KeyEvent, Mode, Modes};

fn key(code: KeyCode) -> KeyEvent {
    KeyEvent::plain(code)
}

fn press(c: char) -> KeyEvent {
    KeyEvent::plain(KeyCode::Char(c))
}

fn record(serial: &str, name: &str) -> Assignment {
    Assignment {
        id: format!("a{serial}"),
        name: name.to_string(),
        date: "01/01/2025".to_string(),
        type_: "General".to_string(),
        s_no: serial.to_string(),
    }
}

fn file(name: &str) -> Attachment {
    Attachment { name: name.to_string(), remote_path: format!("https://files/{name}") }
}

#[test]
fn keys_name_cursor_moves() {
    assert_eq!(nav(KeyCode::Char('h')), Some(Nav::Clear));
    assert_eq!(nav(KeyCode::Left), Some(Nav::Clear));
    assert_eq!(nav(KeyCode::Char('j')), Some(Nav::Next));
    assert_eq!(nav(KeyCode::Down), Some(Nav::Next));
    assert_eq!(nav(KeyCode::Char('k')), Some(Nav::Previous));
    assert_eq!(nav(KeyCode::Up), Some(Nav::Previous));
    assert_eq!(nav(KeyCode::Char('g')), Some(Nav::First));
    assert_eq!(nav(KeyCode::Home), Some(Nav::First));
    assert_eq!(nav(KeyCode::Char('G')), Some(Nav::Last));
    assert_eq!(nav(KeyCode::End), Some(Nav::Last));
    assert_eq!(nav(KeyCode::Char('q')), None);
    assert_eq!(nav(KeyCode::Enter), None);
}

#[test]
fn cursor_moves_without_knowing_the_list() {
    let mut state = ListState::new();
    assert_eq!(state.selected(), None);
    state.go(Nav::Next);
    assert_eq!(state.selected(), Some(0));
    state.go(Nav::Next);
    state.go(Nav::Next);
    state.go(Nav::Next);
    assert_eq!(state.selected(), Some(3));
    state.go(Nav::Previous);
    assert_eq!(state.selected(), Some(2));
    state.go(Nav::First);
    state.go(Nav::Previous);
    assert_eq!(state.selected(), Some(0));
    state.go(Nav::Last);
    assert_eq!(state.selected(), Some(usize::MAX));
    state.go(Nav::Next);
    assert_eq!(state.selected(), Some(usize::MAX));
    state.go(Nav::Previous);
    assert_eq!(state.selected(), Some(usize::MAX - 1));
    state.go(Nav::Clear);
    assert_eq!(state.selected(), None);
    state.go(Nav::Previous);
    assert_eq!(state.selected(), Some(usize::MAX));
}

#[test]
fn drawing_brings_the_cursor_onto_the_list() {
    let mut state = ListState::new();
    state.settle(3);
    assert_eq!(state.selected(), None);
    state.go(Nav::Last);
    state.settle(3);
    assert_eq!(state.selected(), Some(2));
    state.go(Nav::Next);
    assert_eq!(state.selected(), Some(3));
    state.settle(3);
    assert_eq!(state.selected(), Some(2));
    state.settle(5);
    assert_eq!(state.selected(), Some(2));
    state.settle(0);
    assert_eq!(state.selected(), None);
}

#[test]
fn home_offers_circulars_and_homework() {
    let home = Home::new();
    assert!(home.enabled());
    assert_eq!(home.get_mode(), Mode::Home);
    let (labels, cursor) = home.list().labels();
    assert_eq!(labels, vec!["Circular", "Homework"]);
    assert_eq!(cursor, None);
    assert_eq!(ModeListItem::new(AssignmentType::Homework).label(), "Homework");
    assert_eq!(ModeListItem::new(AssignmentType::Circular).kind(), AssignmentType::Circular);
}

#[test]
fn home_enter_asks_for_the_chosen_list() {
    let mut home = Home::new();
    assert_eq!(home.handle_key_event(key(KeyCode::Enter)), Some(Action::AssignmentType(AssignmentType::Circular)));
    assert_eq!(home.handle_key_event(press('j')), None);
    assert_eq!(home.handle_key_event(key(KeyCode::Enter)), Some(Action::AssignmentType(AssignmentType::Circular)));
    assert_eq!(home.handle_key_event(key(KeyCode::Down)), None);
    assert_eq!(home.handle_key_event(key(KeyCode::Enter)), Some(Action::AssignmentType(AssignmentType::Homework)));
    assert_eq!(home.handle_key_event(press('h')), None);
    assert_eq!(home.list().labels().1, None);
    assert_eq!(home.handle_key_event(press('q')), Some(Action::Quit));
    assert_eq!(home.handle_key_event(press('x')), None);
}

#[test]
fn home_ignores_keys_while_another_screen_is_shown() {
    let mut home = Home::new();
    assert_eq!(home.update(&Action::Mode(Mode::ListScreen)), None);
    assert!(!home.enabled());
    assert_eq!(home.handle_key_event(key(KeyCode::Enter)), None);
    assert_eq!(home.handle_key_event(press('q')), None);
    assert_eq!(home.handle_key_event(press('j')), None);
    assert_eq!(home.list().labels().1, None);
    home.update(&Action::Tick);
    assert!(!home.enabled());
    home.update(&Action::Mode(Mode::Home));
    assert!(home.enabled());
}

#[test]
fn mode_list_moves_its_cursor() {
    let mut list = ModeList::from_iter(vec![AssignmentType::Homework, AssignmentType::Circular]);
    assert_eq!(list.chosen(), Some(AssignmentType::Homework));
    list.select_last();
    assert_eq!(list.labels().1, Some(usize::MAX));
    assert_eq!(list.chosen(), None);
    list.settle();
    assert_eq!(list.chosen(), Some(AssignmentType::Circular));
    list.select_previous();
    assert_eq!(list.labels().1, Some(0));
    list.select_next();
    list.select_next();
    assert_eq!(list.labels().1, Some(2));
    list.settle();
    assert_eq!(list.labels().1, Some(1));
    list.select_first();
    assert_eq!(list.labels().1, Some(0));
    list.select_none();
    assert_eq!(list.labels().1, None);
    assert_eq!(ModeList::from_iter(vec![]).chosen(), None);
}

#[test]
fn home_settles_its_cursor_when_drawn() {
    let mut home = Home::new();
    home.handle_key_event(press('G'));
    assert_eq!(home.handle_key_event(key(KeyCode::Enter)), None);
    home.update(&Action::Render);
    assert_eq!(home.list().labels().1, Some(1));
    assert_eq!(home.handle_key_event(key(KeyCode::Enter)), Some(Action::AssignmentType(AssignmentType::Homework)));
    home.update(&Action::Mode(Mode::ListScreen));
    home.update(&Action::Mode(Mode::Home));
    home.handle_key_event(press('G'));
    home.update(&Action::Mode(Mode::ListScreen));
    home.update(&Action::Render);
    assert_eq!(home.list().labels().1, Some(usize::MAX));
}

#[test]
fn details_take_text_and_scroll_within_it() {
    let mut details = Details::new();
    assert!(!details.enabled());
    assert_eq!(details.current_text(), None);
    details.update(&Action::Mode(Mode::CurrentAssignmentScreen));
    assert!(details.enabled());
    details.update(&Action::AssignmentDetails(Some("1\n2\n3\n4\n5\n6\n7\n8\n9\n10".to_string())));
    assert_eq!(details.current_text(), Some("1\n2\n3\n4\n5\n6\n7\n8\n9\n10"));
    assert_eq!(details.content_height(), 10);
    details.set_page(4);
    assert_eq!(details.handle_key_event(press('j')), None);
    assert_eq!(details.offset(), 1);
    details.handle_key_event(key(KeyCode::PageDown));
    assert_eq!(details.offset(), 5);
    details.handle_key_event(press('f'));
    assert_eq!(details.offset(), 6);
    details.handle_key_event(key(KeyCode::Down));
    assert_eq!(details.offset(), 6);
    details.handle_key_event(press('k'));
    assert_eq!(details.offset(), 5);
    details.handle_key_event(press('b'));
    assert_eq!(details.offset(), 1);
    details.handle_key_event(key(KeyCode::PageUp));
    assert_eq!(details.offset(), 0);
    details.handle_key_event(key(KeyCode::Up));
    assert_eq!(details.offset(), 0);
}

#[test]
fn details_clamp_scroll_when_text_or_page_changes() {
    let mut details = Details::new();
    details.update(&Action::Mode(Mode::CurrentAssignmentScreen));
    details.update(&Action::AssignmentDetails(Some("a\nb\nc\nd\ne\nf".to_string())));
    details.set_page(2);
    details.scroll(Scroll::PageDown);
    details.scroll(Scroll::PageDown);
    assert_eq!(details.offset(), 4);
    details.set_page(5);
    assert_eq!(details.offset(), 1);
    details.update(&Action::AssignmentDetails(Some("only\ntwo".to_string())));
    assert_eq!(details.offset(), 0);
    assert_eq!(details.content_height(), 2);
    details.scroll(Scroll::Down);
    assert_eq!(details.offset(), 0);
    details.update(&Action::AssignmentDetails(None));
    assert_eq!(details.current_text(), None);
    assert_eq!(details.content_height(), 0);
}

#[test]
fn details_answer_quit_and_back() {
    let mut details = Details::new();
    assert_eq!(details.handle_key_event(press('q')), None);
    details.update(&Action::Mode(Mode::CurrentAssignmentScreen));
    assert_eq!(details.get_mode(), Mode::CurrentAssignmentScreen);
    assert_eq!(details.handle_key_event(press('q')), Some(Action::Quit));
    assert_eq!(details.handle_key_event(key(KeyCode::Esc)), Some(Action::Mode(Mode::ListScreen)));
    assert_eq!(details.handle_key_event(key(KeyCode::Enter)), None);
    assert_eq!(details.handle_key_event(press('d')), Some(Action::ToggleDownloadPopup));
    details.update(&Action::Mode(Mode::Home));
    assert_eq!(details.handle_key_event(press('d')), None);
    assert_eq!(details.handle_key_event(key(KeyCode::Esc)), None);
}

#[test]
fn attachment_lines_show_their_mark() {
    let item = AttachmentListItem::new(file("a.pdf"));
    assert!(!item.selected());
    assert_eq!(item.attachment(), &file("a.pdf"));
    assert_eq!(item.format(), "[ ]  a.pdf");
    let mut list = AttachmentList::from_iter(&vec![file("a.pdf"), file("b.pdf")]);
    list.select_first();
    list.toggle();
    assert_eq!(list.lines(), (vec!["[x]  a.pdf".to_string(), "[ ]  b.pdf".to_string()], Some(0)));
}

#[test]
fn toggle_flips_exactly_one_mark() {
    let mut list = AttachmentList::from_iter(&vec![file("a"), file("b"), file("c")]);
    list.toggle();
    assert!(list.picked().is_empty());
    list.select_next();
    list.select_next();
    list.toggle();
    assert_eq!(list.picked(), vec![file("b")]);
    list.select_last();
    list.toggle();
    assert_eq!(list.picked(), vec![file("b")]);
    list.settle();
    list.toggle();
    list.select_previous();
    list.toggle();
    assert_eq!(list.picked(), vec![file("c")]);
    assert_eq!(list.len(), 3);
    assert!(list.item(2).unwrap().selected());
    assert!(list.item(3).is_none());
    list.select_first();
    list.toggle();
    assert_eq!(list.picked(), vec![file("a"), file("c")]);
    list.select_none();
    list.toggle();
    assert_eq!(list.picked(), vec![file("a"), file("c")]);
}

#[test]
fn popup_takes_keys_only_while_open_on_its_screen() {
    let mut popup = Popup::new();
    assert!(!popup.enabled());
    assert!(!popup.visible());
    popup.update(&Action::Attachments(vec![file("a"), file("b")]));
    assert_eq!(popup.handle_key_event(press('q')), None);
    popup.update(&Action::Mode(Mode::CurrentAssignmentScreen));
    assert_eq!(popup.handle_key_event(press('q')), None);
    assert_eq!(popup.update(&Action::ToggleDownloadPopup), None);
    assert!(popup.visible());
    assert_eq!(popup.get_mode(), Mode::CurrentAssignmentScreen);
    assert_eq!(popup.handle_key_event(press('q')), Some(Action::Quit));
    assert_eq!(popup.handle_key_event(key(KeyCode::Esc)), Some(Action::ToggleDownloadPopup));
    popup.update(&Action::Mode(Mode::ListScreen));
    assert_eq!(popup.handle_key_event(key(KeyCode::Esc)), None);
}

#[test]
fn popup_downloads_what_is_picked() {
    let mut popup = Popup::new();
    popup.update(&Action::Mode(Mode::CurrentAssignmentScreen));
    popup.update(&Action::ToggleDownloadPopup);
    popup.update(&Action::Attachments(vec![file("a"), file("b"), file("c")]));
    assert_eq!(popup.handle_key_event(key(KeyCode::Enter)), Some(Action::StartDownload(vec![])));
    assert_eq!(popup.handle_key_event(press(' ')), None);
    assert_eq!(popup.handle_key_event(press('j')), None);
    assert_eq!(popup.handle_key_event(press(' ')), None);
    popup.handle_key_event(press('G'));
    popup.update(&Action::Render);
    popup.handle_key_event(press(' '));
    assert_eq!(popup.list().lines().1, Some(2));
    assert_eq!(
        popup.handle_key_event(key(KeyCode::Enter)),
        Some(Action::StartDownload(vec![file("a"), file("c")]))
    );
    popup.update(&Action::Attachments(vec![file("a"), file("b"), file("c")]));
    assert_eq!(popup.list().lines().1, None);
    assert_eq!(popup.handle_key_event(key(KeyCode::Enter)), Some(Action::StartDownload(vec![])));
}

#[test]
fn finished_download_closes_an_open_popup() {
    let mut popup = Popup::new();
    assert_eq!(popup.update(&Action::FinishDownload), None);
    popup.update(&Action::ToggleDownloadPopup);
    assert_eq!(popup.update(&Action::FinishDownload), Some(Action::ToggleDownloadPopup));
    popup.update(&Action::ToggleDownloadPopup);
    assert!(!popup.visible());
}

fn shown_list() -> List {
    let mut list = List::new();
    list.update(&Action::Mode(Mode::ListScreen));
    list.update(&Action::AssignmentType(AssignmentType::Circular));
    list.set_window_size(2);
    list.load(vec![record("1", "Math"), record("2", "Art"), record("3", "Music")]);
    list
}

#[test]
fn list_starts_empty_and_hidden() {
    let mut list = List::new();
    assert!(!list.enabled());
    assert_eq!(list.get_mode(), Mode::ListScreen);
    assert!(list.engine().assignments().is_empty());
    assert_eq!(list.filter_text(), "");
    assert_eq!(list.handle_key_event(press('q')), None);
    assert_eq!(list.handle_key_event(press('/')), None);
    assert_eq!(list.engine().mode(), Modes::ViewingList);
}

#[test]
fn list_loads_records_for_the_chosen_kind() {
    let list = shown_list();
    assert!(list.enabled());
    assert_eq!(list.engine().assignment_type(), AssignmentType::Circular);
    assert_eq!(list.engine().window_size(), 2);
    assert_eq!(list.engine().visible().len(), 3);
    assert_eq!(list.engine().assignments()[0].s_no, "1");
    assert_eq!(list.engine().get_selected_assignment(), None);
}

#[test]
fn list_keys_move_the_selection_round() {
    let mut list = shown_list();
    assert_eq!(list.handle_key_event(key(KeyCode::Enter)), None);
    assert_eq!(list.handle_key_event(press('j')), None);
    assert_eq!(list.handle_key_event(key(KeyCode::Down)), None);
    assert_eq!(list.engine().get_selected_assignment().unwrap().s_no, "2");
    list.handle_key_event(press('G'));
    assert_eq!(list.engine().get_selected_assignment().unwrap().s_no, "3");
    assert_eq!(list.engine().window_start(), 1);
    list.handle_key_event(press('j'));
    assert_eq!(list.engine().get_selected_assignment().unwrap().s_no, "1");
    list.handle_key_event(press('k'));
    assert_eq!(list.engine().get_selected_assignment().unwrap().s_no, "3");
    list.handle_key_event(press('g'));
    assert_eq!(list.engine().get_selected_assignment().unwrap().s_no, "1");
    assert_eq!(list.handle_key_event(key(KeyCode::Enter)), Some(Action::Assignment(Assignment {
        id: "a1".to_string(),
        name: "Math".to_string(),
        date: "01/01/2025".to_string(),
        type_: "General".to_string(),
        s_no: "1".to_string(),
    })));
    list.handle_key_event(press('h'));
    assert_eq!(list.engine().get_selected_assignment(), None);
    assert_eq!(list.handle_key_event(key(KeyCode::Esc)), Some(Action::Mode(Mode::Home)));
    assert_eq!(list.handle_key_event(press('q')), Some(Action::Quit));
}

#[test]
fn list_filter_line_edits_and_filters() {
    let mut list = shown_list();
    assert_eq!(list.handle_key_event(press('/')), None);
    assert_eq!(list.engine().mode(), Modes::Filtering);
    assert_eq!(list.handle_key_event(press('m')), None);
    assert_eq!(list.filter_text(), "m");
    assert_eq!(list.engine().filter(), "m");
    assert_eq!(list.engine().visible().len(), 2);
    assert_eq!(list.engine().get_selected_assignment().unwrap().name, "Math");
    list.handle_key_event(press('u'));
    assert_eq!(list.filter_text(), "mu");
    assert_eq!(list.engine().visible().len(), 1);
    assert_eq!(list.engine().get_selected_assignment().unwrap().name, "Music");
    assert_eq!(list.handle_key_event(press('q')), None);
    assert_eq!(list.filter_text(), "muq");
    assert!(list.engine().visible().is_empty());
    list.handle_key_event(key(KeyCode::Backspace));
    list.handle_key_event(key(KeyCode::Left));
    list.handle_key_event(key(KeyCode::Delete));
    assert_eq!(list.filter_text(), "m");
    list.handle_key_event(key(KeyCode::Home));
    list.handle_key_event(press('A'));
    assert_eq!(list.filter_text(), "Am");
    list.handle_key_event(KeyEvent::with_ctrl(KeyCode::Char('u')));
    assert_eq!(list.filter_text(), "");
    assert_eq!(list.engine().visible().len(), 3);
    assert_eq!(list.handle_key_event(key(KeyCode::Enter)), None);
    assert_eq!(list.handle_key_event(key(KeyCode::Esc)), None);
    assert_eq!(list.engine().mode(), Modes::ViewingList);
    list.toggle_state();
    assert_eq!(list.handle_key_event(key(KeyCode::Tab)), None);
    assert_eq!(list.engine().mode(), Modes::ViewingList);
}

#[test]
fn list_load_clears_the_filter_line() {
    let mut list = shown_list();
    list.handle_key_event(press('/'));
    list.handle_key_event(press('a'));
    list.handle_key_event(press('r'));
    assert_eq!(list.engine().visible().len(), 1);
    list.load(vec![record("1", "History")]);
    assert_eq!(list.filter_text(), "");
    assert_eq!(list.engine().filter(), "");
    assert_eq!(list.engine().visible().len(), 1);
    assert_eq!(list.engine().mode(), Modes::ViewingList);
    assert_eq!(list.engine().window_size(), 2);
}

#[test]
fn list_rows_are_aligned_in_columns() {
    let mut list = List::new();
    list.load(vec![record("1", "Math"), record("12", "Art")]);
    assert_eq!(
        AssignmentListItem::new(record("1", "Math")).format(),
        "1\ta1\t01/01/2025\tGeneral\tMath"
    );
    assert_eq!(
        list.rows(),
        vec![
            "1   a1   01/01/2025  General  Math".to_string(),
            "12  a12  01/01/2025  General  Art".to_string(),
        ]
    );
    list.load(vec![]);
    assert!(list.rows().is_empty());
}

#[test]
fn typed_character_goes_in_at_the_cursor() {
    let mut list = shown_list();
    list.handle_key_event(press('/'));
    list.handle_key_event(press('a'));
    list.handle_key_event(press('c'));
    list.handle_key_event(key(KeyCode::Left));
    list.handle_key_event(KeyEvent::new(KeyCode::Char('B'), client_core::key::SHIFT));
    assert_eq!(list.filter_text(), "aBc");
    list.handle_key_event(key(KeyCode::End));
    list.handle_key_event(press('d'));
    assert_eq!(list.filter_text(), "aBcd");
    assert_eq!(list.engine().filter(), "aBcd");
}

#[test]
fn held_keys_reach_the_filter_line() {
    let mut list = shown_list();
    list.handle_key_event(press('/'));
    for c in "art math".chars() {
        list.handle_key_event(press(c));
    }
    assert_eq!(list.filter_text(), "art math");
    list.handle_key_event(KeyEvent::new(KeyCode::Backspace, client_core::key::ALT));
    assert_eq!(list.filter_text(), "art ");
    list.handle_key_event(KeyEvent::new(KeyCode::Char('b'), client_core::key::META));
    list.handle_key_event(press('p'));
    assert_eq!(list.filter_text(), "part ");
    list.handle_key_event(KeyEvent::new(KeyCode::Char('x'), client_core::key::CONTROL | client_core::key::ALT));
    assert_eq!(list.filter_text(), "pxart ");
}

#[test]
fn assignment_list_wraps_from_last_to_first() {
    let items = vec![
        AssignmentListItem::new(record("1", "Math")),
        AssignmentListItem::new(record("2", "Art")),
        AssignmentListItem::new(record("3", "Music")),
    ];
    let mut list = AssignmentList::from_iter(items, AssignmentType::Homework, 2);
    assert_eq!(list.selected(), None);
    list.select_last();
    assert_eq!(list.selected(), Some(2));
    list.select_next();
    assert_eq!(list.selected(), Some(0));
    list.select_previous();
    assert_eq!(list.selected(), Some(2));
    for start in 0..3usize {
        list.select_first();
        for _ in 0..start {
            list.select_next();
        }
        for _ in 0..3 {
            list.select_next();
        }
        assert_eq!(list.selected(), Some(start));
    }
    list.select_none();
    assert_eq!(list.selected(), None);
}
