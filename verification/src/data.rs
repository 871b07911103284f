use vstd::prelude::*;

verus! {

/// The share of the width, in percent, that the focused subproject starts with.
pub const DEFAULT_WIDTH_PERCENT: u16 = 40;

/// What a prompt shown over a project asks for.
#[derive(Clone, Copy, PartialEq, Eq, Structural, Debug)]
pub enum JournalPrompt {
    SetPassword,
    RenameJournal,
    AddProject,
    RenameProject,
    AddSubProject,
    RenameSubProject,
    AddTask,
    RenameTask,
}

/// What the file list was opened for.
#[derive(Clone, Copy, PartialEq, Eq, Structural, Debug)]
pub enum FileRequest {
    Save,
    Load,
    LoadMerge,
}

/// What a prompt shown over the whole journal asks for.
#[derive(Clone, Debug)]
pub enum AppPrompt {
    NewJournal,
    LoadFile(String),
    MergeFile(String),
}

/// Whether a message reports normal progress or a failure.
#[derive(Clone, Copy, PartialEq, Eq, Structural, Debug)]
pub enum FeedbackKind {
    Nominal,
    Error,
}

/// How long, in milliseconds, a message of the given kind stays on screen.
pub open spec fn show_duration_ms(kind: FeedbackKind) -> u64 {
    match kind {
        FeedbackKind::Nominal => 1250,
        FeedbackKind::Error => 5000,
    }
}

/// Whether a message of the given kind is still shown `elapsed_nanos` nanoseconds after it
/// was made.
pub open spec fn visible_after(kind: FeedbackKind, elapsed_nanos: u128) -> bool {
    elapsed_nanos <= show_duration_ms(kind) as int * 1_000_000
}

#[verifier::external_type_specification]
#[verifier::external_body]
pub struct ExInstant(std::time::Instant);

/// Reads the clock: `std::time::Instant::now`. Nothing is claimed of the instant returned.
#[verifier::external_body]
fn clock_now() -> std::time::Instant {
    std::time::Instant::now()
}

/// Reads the clock: the nanoseconds that `std::time::Instant::elapsed` reports since
/// `since`. Nothing is claimed of the number returned.
#[verifier::external_body]
fn nanos_since(since: &std::time::Instant) -> u128 {
    since.elapsed().as_nanos()
}

/// A message for the user, with the moment it was made.
pub struct Feedback {
    pub message: String,
    pub kind: FeedbackKind,
    pub instant: std::time::Instant,
}

impl Feedback {
    /// A message reporting normal progress, made now.
    pub fn new(message: &str) -> (f: Feedback)
        ensures
            f.message@ == message@,
            f.kind == FeedbackKind::Nominal,
    {
        Feedback { message: message.to_owned(), kind: FeedbackKind::Nominal, instant: clock_now() }
    }

    /// A message reporting normal progress, made now, that takes over the given text.
    pub fn from_string(message: String) -> (f: Feedback)
        ensures
            f.message@ == message@,
            f.kind == FeedbackKind::Nominal,
    {
        Feedback { message, kind: FeedbackKind::Nominal, instant: clock_now() }
    }

    /// A message reporting a failure, made now.
    pub fn error(message: String) -> (f: Feedback)
        ensures
            f.message@ == message@,
            f.kind == FeedbackKind::Error,
    {
        Feedback { message, kind: FeedbackKind::Error, instant: clock_now() }
    }

    /// Whether the message is still to be shown `elapsed_nanos` nanoseconds after it was made.
    pub fn is_visible(&self, elapsed_nanos: u128) -> (r: bool)
        ensures
            r == visible_after(self.kind, elapsed_nanos),
    {
        let show_duration: u128 = match self.kind {
            FeedbackKind::Nominal => 1250,
            FeedbackKind::Error => 5000,
        };
        elapsed_nanos <= show_duration * 1_000_000
    }
}

/// The messages for the user, the newest first.
pub struct FeedbackStack {
    stack: Vec<Feedback>,
}

impl FeedbackStack {
    /// A stack holding the one welcome message.
    pub fn new() -> (r: FeedbackStack)
        ensures
            r.messages().len() == 1,
            r.messages()[0].message@ == "Welcome to Dev Journal"@,
            r.messages()[0].kind == FeedbackKind::Nominal,
    {
        let mut stack: Vec<Feedback> = Vec::new();
        stack.push(Feedback::new("Welcome to Dev Journal"));
        FeedbackStack { stack }
    }

    /// The messages, the newest first.
    pub closed spec fn messages(&self) -> Seq<Feedback> {
        self.stack@
    }

    /// Puts `feedback` on top of the stack.
    pub fn add_feedback(&mut self, feedback: Feedback)
        ensures
            final(self).messages() == seq![feedback] + old(self).messages(),
    {
        self.stack.insert(0, feedback);
        assert(self.stack@ =~= seq![feedback] + old(self).stack@);
    }

    /// The newest message, where it is still to be shown `elapsed_nanos` nanoseconds after
    /// it was made.
    pub fn feedback_at(&self, elapsed_nanos: u128) -> (r: Option<&Feedback>)
        ensures
            r is Some <==> self.messages().len() > 0 && visible_after(
                self.messages()[0].kind,
                elapsed_nanos,
            ),
            r matches Some(f) ==> *f == self.messages()[0],
    {
        if self.stack.len() > 0 {
            let feedback = &self.stack[0];
            if feedback.is_visible(elapsed_nanos) {
                return Some(feedback);
            }
        }
        None
    }

    /// The moment the newest message was made.
    pub fn newest_instant(&self) -> (r: &std::time::Instant)
        requires
            self.messages().len() > 0,
        ensures
            *r == self.messages()[0].instant,
    {
        &self.stack[0].instant
    }

    /// The newest message, where it is still to be shown: `feedback_at` the nanoseconds that
    /// the clock reports since `newest_instant`. How much time that is, is the clock's to
    /// say, so no more is stated than that an empty stack gives nothing and that what is
    /// given is the newest message.
    pub fn feedback(&self) -> (r: Option<&Feedback>)
        ensures
            self.messages().len() == 0 ==> r is None,
            r matches Some(f) ==> *f == self.messages()[0],
    {
        if self.stack.len() > 0 {
            let elapsed = nanos_since(self.newest_instant());
            self.feedback_at(elapsed)
        } else {
            None
        }
    }
}

/// The text after the last `/` of `path`; all of it where it holds no `/`.
pub open spec fn trailing_segment(path: Seq<char>) -> Seq<char>
    decreases path.len(),
{
    if path.len() == 0 || path.last() == '/' {
        Seq::empty()
    } else {
        trailing_segment(path.drop_last()).push(path.last())
    }
}

/// The last component of the Unix path `path` when it names a file or directory, as
/// `std::path::Path::file_name` documents it: trailing and repeated `/` are ignored, a `.`
/// after the start is skipped, and there is none for an empty path, the root, a path that
/// is `.`, or one that ends in `..`.
pub open spec fn path_file_name(path: Seq<char>) -> Option<Seq<char>>
    decreases path.len(),
{
    if path.len() == 0 {
        None
    } else if path.last() == '/' {
        path_file_name(path.drop_last())
    } else if trailing_segment(path) == seq!['.'] {
        path_file_name(path.drop_last())
    } else if trailing_segment(path) == seq!['.', '.'] {
        None
    } else {
        Some(trailing_segment(path))
    }
}

/// Calls `std::path::Path::file_name` on `path` and takes the name to text, which keeps it as
/// it was, since it came from text: claimed to give `path_file_name` of the path.
#[verifier::external_body]
fn file_name_of(path: &str) -> (r: Option<String>)
    ensures
        match r {
            Some(s) => path_file_name(path@) == Some(s@),
            None => path_file_name(path@) is None,
        },
{
    match std::path::Path::new(path).file_name() {
        Some(name) => Some(name.to_string_lossy().to_string()),
        None => None,
    }
}

/// The file name found in a path, or the placeholder `/missing_filename/` where there is none.
pub fn file_name_or_missing(name: Option<String>) -> (r: String)
    ensures
        match name {
            Some(s) => r@ == s@,
            None => r@ == "/missing_filename/"@,
        },
{
    match name {
        Some(s) => s,
        None => "/missing_filename/".to_owned(),
    }
}

/// The last component of `filepath`, or `/missing_filename/` where it has none.
pub fn filename(filepath: &str) -> (r: String)
    ensures
        match path_file_name(filepath@) {
            Some(s) => r@ == s,
            None => r@ == "/missing_filename/"@,
        },
{
    file_name_or_missing(file_name_of(filepath))
}

} // verus!
