use client_core::{
    Action, Assignment, AssignmentType, Attachment, FetchError, KeyCode, KeyEvent, Mode, RecordDetails,
    RepositoryError, Session,
};

fn key(code: KeyCode) -> KeyEvent {
    KeyEvent::plain(code)
}

fn press(c: char) -> KeyEvent {
    KeyEvent::plain(KeyCode::Char(c))
}

fn record(serial: &str, name: &str) -> Assignment {
    Assignment {
        id: format!("a{serial}"),
        name: name.to_string(),
        date: "01/01/2025".to_string(),
        type_: "General".to_string(),
        s_no: serial.to_string(),
    }
}

fn drain(session: &mut Session) -> Vec<Action> {
    let mut seen = Vec::new();
    while let Some(action) = session.step() {
        seen.push(action);
    }
    seen
}

fn at_list() -> Session {
    let mut session = Session::new();
    session.handle_key_event(key(KeyCode::Enter));
    assert_eq!(drain(&mut session), vec![Action::AssignmentType(AssignmentType::Circular)]);
    session.records_fetched(Ok(vec![record("1", "Math"), record("2", "Art")]));
    assert_eq!(drain(&mut session), vec![Action::Mode(Mode::ListScreen)]);
    session
}

#[test]
fn session_starts_at_home() {
    let mut session = Session::new();
    assert_eq!(session.mode(), Mode::Home);
    assert!(!session.should_quit());
    assert_eq!(session.pending(), 0);
    assert_eq!(session.step(), None);
    assert!(session.home().enabled());
    assert!(!session.list().enabled());
    assert!(!session.details().enabled());
    assert!(!session.popup().enabled());
}

#[test]
fn mode_action_enables_list_and_disables_home() {
    let mut session = Session::new();
    session.dispatch(Action::Mode(Mode::ListScreen));
    assert_eq!(session.pending(), 1);
    assert_eq!(session.step(), Some(Action::Mode(Mode::ListScreen)));
    assert_eq!(session.mode(), Mode::ListScreen);
    assert!(session.list().enabled());
    assert!(!session.home().enabled());
    assert!(!session.details().enabled());
    let mut home = client_core::components::home::Home::new();
    home.update(&Action::Mode(Mode::ListScreen));
    assert_eq!(home.handle_key_event(key(KeyCode::Enter)), None);
    session.handle_key_event(key(KeyCode::Enter));
    assert_eq!(session.pending(), 0);
}

#[test]
fn choosing_a_list_loads_it_and_changes_screen() {
    let mut session = Session::new();
    session.handle_key_event(press('j'));
    session.handle_key_event(press('j'));
    session.handle_key_event(key(KeyCode::Enter));
    assert_eq!(drain(&mut session), vec![Action::AssignmentType(AssignmentType::Homework)]);
    assert_eq!(session.mode(), Mode::Home);
    assert_eq!(session.list().engine().assignment_type(), AssignmentType::Homework);
    session.records_fetched(Ok(vec![record("1", "Math")]));
    assert_eq!(session.mode(), Mode::Home);
    assert_eq!(drain(&mut session), vec![Action::Mode(Mode::ListScreen)]);
    assert_eq!(session.mode(), Mode::ListScreen);
    assert_eq!(session.list().engine().visible().len(), 1);
}

#[test]
fn failed_list_fetch_keeps_home() {
    let mut session = Session::new();
    session.handle_key_event(key(KeyCode::Enter));
    drain(&mut session);
    session.records_fetched(Err(RepositoryError::Fetch(FetchError::Network("offline".to_string()))));
    assert_eq!(drain(&mut session), vec![Action::Error("The request failed: offline".to_string())]);
    assert_eq!(session.mode(), Mode::Home);
    assert!(session.home().enabled());
    assert!(session.list().engine().assignments().is_empty());
}

#[test]
fn opening_a_record_shows_its_details() {
    let mut session = at_list();
    session.handle_key_event(press('j'));
    session.handle_key_event(key(KeyCode::Enter));
    let seen = drain(&mut session);
    assert_eq!(seen.len(), 1);
    assert!(matches!(&seen[0], Action::Assignment(a) if a.s_no == "1"));
    assert_eq!(session.mode(), Mode::ListScreen);
    let files = vec![Attachment { name: "a.pdf".to_string(), remote_path: "https://f/a.pdf".to_string() }];
    session.details_fetched(Ok(RecordDetails { text: "Read\nthis".to_string(), attachments: files.clone() }));
    assert_eq!(
        drain(&mut session),
        vec![
            Action::AssignmentDetails(Some("Read\nthis".to_string())),
            Action::Attachments(files),
            Action::Mode(Mode::CurrentAssignmentScreen),
        ]
    );
    assert_eq!(session.mode(), Mode::CurrentAssignmentScreen);
    assert_eq!(session.details().current_text(), Some("Read\nthis"));
    assert!(session.details().enabled());
    assert!(session.popup().enabled());
    assert!(!session.list().enabled());
    assert_eq!(session.popup().list().lines().0, vec!["[ ]  a.pdf".to_string()]);
}

#[test]
fn failed_details_fetch_keeps_list_and_text() {
    let mut session = at_list();
    session.handle_key_event(press('j'));
    session.handle_key_event(key(KeyCode::Enter));
    drain(&mut session);
    session.details_fetched(Err(RepositoryError::Fetch(FetchError::Malformed)));
    assert_eq!(
        drain(&mut session),
        vec![Action::Error("The server's response could not be read".to_string())]
    );
    assert_eq!(session.mode(), Mode::ListScreen);
    assert_eq!(session.details().current_text(), None);
    assert!(session.list().enabled());

    session.details_fetched(Ok(RecordDetails { text: "first".to_string(), attachments: vec![] }));
    drain(&mut session);
    session.handle_key_event(key(KeyCode::Esc));
    drain(&mut session);
    assert_eq!(session.mode(), Mode::ListScreen);
    session.details_fetched(Err(RepositoryError::Fetch(FetchError::Empty)));
    assert_eq!(drain(&mut session), vec![Action::Error("The server sent no records".to_string())]);
    assert_eq!(session.mode(), Mode::ListScreen);
    assert_eq!(session.details().current_text(), Some("first"));
}

#[test]
fn cancel_leads_back_screen_by_screen() {
    let mut session = at_list();
    session.details_fetched(Ok(RecordDetails { text: "x".to_string(), attachments: vec![] }));
    drain(&mut session);
    assert_eq!(session.mode(), Mode::CurrentAssignmentScreen);
    session.handle_key_event(key(KeyCode::Esc));
    assert_eq!(drain(&mut session), vec![Action::Mode(Mode::ListScreen)]);
    assert_eq!(session.mode(), Mode::ListScreen);
    session.handle_key_event(key(KeyCode::Esc));
    assert_eq!(drain(&mut session), vec![Action::Mode(Mode::Home)]);
    assert_eq!(session.mode(), Mode::Home);
    assert!(session.home().enabled());
}

#[test]
fn quit_is_remembered_from_any_screen() {
    let mut session = Session::new();
    session.handle_key_event(press('q'));
    assert!(!session.should_quit());
    assert_eq!(drain(&mut session), vec![Action::Quit]);
    assert!(session.should_quit());
    let mut session = at_list();
    session.handle_key_event(press('q'));
    drain(&mut session);
    assert!(session.should_quit());
}

#[test]
fn one_key_reaches_one_live_screen() {
    let mut session = at_list();
    session.details_fetched(Ok(RecordDetails { text: "x".to_string(), attachments: vec![] }));
    drain(&mut session);
    session.handle_key_event(press('q'));
    assert_eq!(session.pending(), 1);
    session.dispatch(Action::ToggleDownloadPopup);
    drain(&mut session);
    let mut session2 = at_list();
    session2.handle_key_event(press('q'));
    assert_eq!(session2.pending(), 1);
}

#[test]
fn actions_are_handed_round_oldest_first() {
    let mut session = Session::new();
    session.dispatch(Action::Tick);
    session.dispatch(Action::Render);
    session.dispatch(Action::Resize(80, 24));
    session.dispatch(Action::ToggleDownloadPopup);
    session.dispatch(Action::FinishDownload);
    assert_eq!(
        drain(&mut session),
        vec![
            Action::Tick,
            Action::Render,
            Action::Resize(80, 24),
            Action::ToggleDownloadPopup,
            Action::FinishDownload,
            Action::ToggleDownloadPopup,
        ]
    );
    assert!(!session.popup().visible());
}

#[test]
fn popup_stays_in_step_while_hidden() {
    let mut session = Session::new();
    session.dispatch(Action::ToggleDownloadPopup);
    drain(&mut session);
    assert!(session.popup().visible());
    assert!(!session.popup().enabled());
    session.handle_key_event(key(KeyCode::Esc));
    assert_eq!(session.pending(), 0);
}

#[test]
fn windows_are_set_from_outside() {
    let mut session = at_list();
    session.set_list_window(1);
    session.handle_key_event(press('j'));
    session.handle_key_event(press('j'));
    assert_eq!(session.list().engine().window_start(), 1);
    session.set_details_page(3);
    session.details_fetched(Ok(RecordDetails { text: "1\n2\n3\n4".to_string(), attachments: vec![] }));
    drain(&mut session);
    session.handle_key_event(key(KeyCode::PageDown));
    assert_eq!(session.details().offset(), 1);
}

#[test]
fn action_clone_is_equal() {
    let actions = vec![
        Action::Error("e".to_string()),
        Action::AssignmentDetails(None),
        Action::Assignment(record("1", "x")),
        Action::StartDownload(vec![Attachment { name: "a".to_string(), remote_path: "b".to_string() }]),
        Action::Help,
        Action::Suspend,
        Action::Resume,
        Action::ClearScreen,
    ];
    for a in &actions {
        assert_eq!(&a.clone(), a);
    }
    assert_eq!(Mode::default(), Mode::Home);
}

#[test]
fn details_key_opens_the_overlay() {
    let mut session = at_list();
    session.details_fetched(Ok(RecordDetails { text: "x".to_string(), attachments: vec![] }));
    drain(&mut session);
    assert!(!session.popup().visible());
    session.handle_key_event(press('d'));
    assert_eq!(drain(&mut session), vec![Action::ToggleDownloadPopup]);
    assert!(session.popup().visible());
    session.handle_key_event(press('d'));
    drain(&mut session);
    assert!(!session.popup().visible());
}
