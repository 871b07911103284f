use devjournal::appstate::{FileRequest as ProjectFileRequest, PromptRequest};
use devjournal::data::{filename, file_name_or_missing, Feedback, FeedbackKind, FeedbackStack};
use devjournal::error::AppError;
use devjournal::prompt::PromptSetup;

#[test]
fn feedback_kinds() {
    let f = Feedback::new("hello");
    assert_eq!(f.message, "hello");
    assert_eq!(f.kind, FeedbackKind::Nominal);
    let e = Feedback::error("bad".to_string());
    assert_eq!(e.kind, FeedbackKind::Error);
    let s = Feedback::from_string("from".to_string());
    assert_eq!(s.message, "from");
}

#[test]
fn feedback_visibility_windows() {
    let f = Feedback::new("n");
    assert!(f.is_visible(0));
    assert!(f.is_visible(1_250_000_000));
    assert!(!f.is_visible(1_250_000_001));
    let e = Feedback::error("e".to_string());
    assert!(e.is_visible(5_000_000_000));
    assert!(!e.is_visible(5_000_000_001));
}

#[test]
fn feedback_stack_shows_newest() {
    let mut stack = FeedbackStack::new();
    assert_eq!(stack.feedback().map(|f| f.message.clone()), Some("Welcome to Dev Journal".to_string()));
    stack.add_feedback(Feedback::new("second"));
    assert_eq!(stack.feedback().map(|f| f.message.clone()), Some("second".to_string()));
}

#[test]
fn filename_takes_last_component() {
    assert_eq!(filename("/home/user/journal"), "journal");
    assert_eq!(filename("notes.bin"), "notes.bin");
    assert_eq!(filename("/usr/bin/"), "bin");
    assert_eq!(filename("/"), "/missing_filename/");
    assert_eq!(filename("dir/.."), "/missing_filename/");
    assert_eq!(filename("a/./"), "a");
    assert_eq!(filename("./a"), "a");
    assert_eq!(filename("a//b"), "b");
    assert_eq!(filename("a/."), "a");
    assert_eq!(filename("."), "/missing_filename/");
    assert_eq!(filename(""), "/missing_filename/");
    assert_eq!(filename("a/.."), "/missing_filename/");
    assert_eq!(filename("/.."), "/missing_filename/");
    assert_eq!(filename(".hidden"), ".hidden");
    assert_eq!(file_name_or_missing(None), "/missing_filename/");
    assert_eq!(file_name_or_missing(Some("x".to_string())), "x");
}

#[test]
fn errors_carry_messages() {
    assert_eq!(AppError::new("m").message, "m");
    assert_eq!(AppError::from_string("s".to_string()).message, "s");
    let e = AppError::from_cause("Failed to save file", AppError::new("disk full"));
    assert_eq!(e.message, "Failed to save file [disk full]");
}

#[test]
fn prompt_setup_changes() {
    let mut p = PromptSetup::new();
    assert_eq!(p.prompt_text, "Input:");
    p.set_prompt_text("Q:");
    p.set_text("t");
    p.set_password(true);
    assert_eq!((p.prompt_text.as_str(), p.text.as_str(), p.password), ("Q:", "t", true));
    p.clear();
    assert_eq!((p.prompt_text.as_str(), p.text.as_str(), p.password), ("", "", false));
}

#[test]
fn single_project_view_requests() {
    let r = PromptRequest::GetLoadPassword("f".to_string());
    assert!(matches!(r, PromptRequest::GetLoadPassword(ref n) if n == "f"));
    assert_eq!(ProjectFileRequest::Save, ProjectFileRequest::Save);
}

#[test]
fn feedback_at_follows_showing_time() {
    let mut stack = FeedbackStack::new();
    assert!(stack.feedback_at(1_250_000_000).is_some());
    assert!(stack.feedback_at(1_250_000_001).is_none());
    stack.add_feedback(Feedback::error("bad".to_string()));
    assert_eq!(stack.feedback_at(5_000_000_000).map(|f| f.message.clone()), Some("bad".to_string()));
    assert!(stack.feedback_at(5_000_000_001).is_none());
}

#[test]
fn newest_instant_is_that_of_the_newest_message() {
    let mut stack = FeedbackStack::new();
    let f = Feedback::new("saved");
    let made = f.instant;
    stack.add_feedback(f);
    assert_eq!(*stack.newest_instant(), made);
    assert_eq!(stack.feedback().map(|f| f.message.clone()), Some("saved".to_string()));
}
