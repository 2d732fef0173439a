use jrip::{Action, AppState, MainState, Message, PathError, SidebarState};

fn entry(name: &str, is_dir: bool) -> (String, bool) {
    (name.to_string(), is_dir)
}

fn fresh_state() -> AppState {
    let main = MainState::new("/home/user".to_string(), vec![entry("videos", true)]);
    let side = SidebarState::new(Some("/home".to_string()), vec![entry("user", true)]);
    AppState::new(main, side)
}

#[test]
fn new_state_has_no_popup_and_keeps_the_panes() {
    let state = fresh_state();
    assert_eq!(state.main_state.current_dir(), "/home/user");
    assert_eq!(state.main_state.current_files(), &vec![entry("videos", true)]);
    assert_eq!(state.sidebar_state.sidebar_dir(), &Some("/home".to_string()));
    assert_eq!(state.sidebar_state.sidebar_files(), &vec![entry("user", true)]);
    assert_eq!(state.popup, None);
}

#[test]
fn cd_sets_the_current_dir_whether_or_not_the_path_is_valid() {
    let mut state = fresh_state();
    let r = state.update(Message::CD("/tmp/somewhere".to_string()));
    assert_eq!(state.main_state.current_dir(), "/tmp/somewhere");
    assert_eq!(r, Ok(Action::RefreshMain("/tmp/somewhere".to_string())));

    let r = state.update(Message::CD("/no/such/place".to_string()));
    assert_eq!(state.main_state.current_dir(), "/no/such/place");
    assert_eq!(r, Ok(Action::RefreshMain("/no/such/place".to_string())));
}

#[test]
fn cd_leaves_sidebar_and_popup_alone() {
    let mut state = fresh_state();
    let _ = state.update(Message::CD("/tmp".to_string()));
    assert_eq!(state.sidebar_state.sidebar_dir(), &Some("/home".to_string()));
    assert_eq!(state.popup, None);
}

#[test]
fn jrip_derives_the_sibling_mp3_and_asks_for_extraction() {
    let mut state = fresh_state();
    let r = state.update(Message::JRIP("/a/b/movie.mkv".to_string()));
    assert_eq!(
        r,
        Ok(Action::RunExtraction {
            input: "/a/b/movie.mkv".to_string(),
            output: "/a/b/movie.mp3".to_string(),
        })
    );
    assert_eq!(state.popup, None);
    assert_eq!(state.main_state.current_dir(), "/home/user");
}

#[test]
fn jrip_refuses_a_path_without_a_file_name() {
    let mut state = fresh_state();
    let r = state.update(Message::JRIP("".to_string()));
    assert_eq!(r, Err(PathError::InvalidPath));
    let r = state.update(Message::JRIP("/a/b/".to_string()));
    assert_eq!(r, Err(PathError::InvalidPath));
    assert_eq!(state.popup, None);
}

#[test]
fn a_failed_extraction_sets_the_failure_message_and_dismiss_clears_it() {
    let mut state = fresh_state();
    let _ = state.update(Message::JRIP("/a/b/movie.mkv".to_string()));
    state.apply_extraction_outcome(Some(false));
    assert_eq!(state.popup, Some("Audio ripping failed".to_string()));
    let r = state.update(Message::ClosePopup);
    assert_eq!(r, Ok(Action::Idle));
    assert_eq!(state.popup, None);
}

#[test]
fn a_successful_extraction_sets_the_success_message() {
    let mut state = fresh_state();
    state.apply_extraction_outcome(Some(true));
    assert_eq!(state.popup, Some("Audio ripped successfully".to_string()));
}

#[test]
fn an_extraction_that_could_not_start_changes_nothing() {
    let mut state = fresh_state();
    state.apply_extraction_outcome(None);
    assert_eq!(state.popup, None);
    state.apply_extraction_outcome(Some(false));
    state.apply_extraction_outcome(None);
    assert_eq!(state.popup, Some("Audio ripping failed".to_string()));
}

#[test]
fn close_sidebar_resets_the_secondary_state_whatever_was_open() {
    let mut state = fresh_state();
    let r = state.update(Message::ShowSidebar("/somewhere/else".to_string()));
    assert_eq!(r, Ok(Action::RefreshSidebar("/somewhere/else".to_string())));
    state
        .sidebar_state
        .set_sidebar_files(vec![entry("deep", true), entry("deeper", true)]);
    let r = state.update(Message::CloseSidebar);
    assert_eq!(r, Ok(Action::Idle));
    assert_eq!(state.sidebar_state.sidebar_dir(), &None);
    assert_eq!(state.sidebar_state.sidebar_files(), &Vec::<(String, bool)>::new());
}

#[test]
fn exit_asks_the_shell_to_quit_and_changes_nothing() {
    let mut state = fresh_state();
    let r = state.update(Message::Exit);
    assert_eq!(r, Ok(Action::Exit));
    assert_eq!(state.main_state.current_dir(), "/home/user");
    assert_eq!(state.popup, None);
}

#[test]
fn pane_setters_replace_exactly_their_field() {
    let mut main = MainState::new("/a".to_string(), vec![]);
    main.set_current_dir("/b".to_string());
    assert_eq!(main.current_dir(), "/b");
    main.set_current_files(vec![entry("x.mkv", false)]);
    assert_eq!(main.current_dir(), "/b");
    assert_eq!(main.current_files(), &vec![entry("x.mkv", false)]);

    let mut side = SidebarState::new(None, vec![]);
    side.set_sidebar_dir(Some("/c".to_string()));
    assert_eq!(side.sidebar_dir(), &Some("/c".to_string()));
    side.set_sidebar_files(vec![entry("y", true)]);
    assert_eq!(side.sidebar_files(), &vec![entry("y", true)]);
}
