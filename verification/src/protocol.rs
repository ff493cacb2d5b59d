//! What a session and its driver say to each other. The session asks for one
//! thing at a time, an `Action`; the driver does it and answers with an
//! `Event`; the session may hand back a `Notice` to show to the user.

use vstd::prelude::*;
use crate::error::KeychainError;
use crate::persistence::KeyRole;
use crate::registry::{Scheme, Variant};

verus! {

/// The questions a session puts to the user.
#[derive(Clone, Copy, Debug, PartialEq, Eq, Structural)]
pub enum Menu {
    /// The operations of the keychain, entries 1 to 6.
    TopLevel,
    /// The schemes a key can be made for, entries 1 to 7, and 0 to go back.
    KeyType,
    /// The variants of a scheme.
    Variants(Scheme),
    /// The folder to save a keypair in.
    OutputFolder,
    /// The path of the key file to encapsulate with.
    KeyFile,
    /// The path of the file to encapsulate for.
    TargetFile,
}

/// What the driver found at a path.
#[derive(Clone, Copy, Debug, PartialEq, Eq, Structural)]
pub enum PathKind {
    /// Nothing is there.
    Absent,
    /// A folder is there.
    Folder,
    /// Something is there that is no folder.
    Other,
}

/// What the driver is asked to do.
#[derive(Clone, Debug, PartialEq, Eq)]
pub enum Action {
    /// Show a menu and read one line.
    Prompt(Menu),
    /// Have the primitive make a keypair of a variant.
    GenerateKeypair(Variant),
    /// Tell what stands at a path.
    Inspect(String),
    /// Make a folder, and its parents where they are absent.
    CreateFolder(String),
    /// Tell of each of two paths whether something stands there.
    Probe { public_path: String, secret_path: String },
    /// Write the bytes, raw, to a file.
    WriteFile { path: String, bytes: Vec<u8> },
    /// Remove a file.
    RemoveFile(String),
    /// Read a file whole.
    ReadFile(String),
    /// Have the primitive encapsulate to a key.
    Encapsulate { variant: Variant, role: KeyRole, key: Vec<u8>, input: Vec<u8> },
    /// End the process with status zero.
    Exit,
}

/// The mathematical content of an `Action`.
pub enum ActionView {
    Prompt(Menu),
    GenerateKeypair(Variant),
    Inspect(Seq<char>),
    CreateFolder(Seq<char>),
    Probe { public_path: Seq<char>, secret_path: Seq<char> },
    WriteFile { path: Seq<char>, bytes: Seq<u8> },
    RemoveFile(Seq<char>),
    ReadFile(Seq<char>),
    Encapsulate { variant: Variant, role: KeyRole, key: Seq<u8>, input: Seq<u8> },
    Exit,
}

impl View for Action {
    type V = ActionView;

    open spec fn view(&self) -> ActionView {
        match *self {
            Action::Prompt(menu) => ActionView::Prompt(menu),
            Action::GenerateKeypair(variant) => ActionView::GenerateKeypair(variant),
            Action::Inspect(path) => ActionView::Inspect(path@),
            Action::CreateFolder(folder) => ActionView::CreateFolder(folder@),
            Action::Probe { public_path, secret_path } => ActionView::Probe {
                public_path: public_path@,
                secret_path: secret_path@,
            },
            Action::WriteFile { path, bytes } => ActionView::WriteFile { path: path@, bytes: bytes@ },
            Action::RemoveFile(path) => ActionView::RemoveFile(path@),
            Action::ReadFile(path) => ActionView::ReadFile(path@),
            Action::Encapsulate { variant, role, key, input } => ActionView::Encapsulate {
                variant,
                role,
                key: key@,
                input: input@,
            },
            Action::Exit => ActionView::Exit,
        }
    }
}

/// What files hold after a driver has done what `action` asks for, where
/// the action is one that can be done: a write puts exactly the bytes at the
/// path, a removal takes the path away, and nothing else touches a file.
pub open spec fn files_after(
    files: Map<Seq<char>, Seq<u8>>,
    action: ActionView,
) -> Map<Seq<char>, Seq<u8>> {
    match action {
        ActionView::WriteFile { path, bytes } => files.insert(path, bytes),
        ActionView::RemoveFile(path) => files.remove(path),
        _ => files,
    }
}

/// What files hold after a driver has done, one after the other, what each
/// of the requests asks for.
pub open spec fn files_after_all(
    files: Map<Seq<char>, Seq<u8>>,
    requests: Seq<Option<ActionView>>,
) -> Map<Seq<char>, Seq<u8>>
    decreases requests.len(),
{
    if requests.len() == 0 {
        files
    } else {
        let before = files_after_all(files, requests.drop_last());
        match requests.last() {
            Some(action) => files_after(before, action),
            None => before,
        }
    }
}

/// Requests that touch no file leave the files as they are, and one more
/// request changes them as that request says.
pub proof fn lemma_files_after_one_more(
    files: Map<Seq<char>, Seq<u8>>,
    requests: Seq<Option<ActionView>>,
    request: Option<ActionView>,
)
    ensures
        files_after_all(files, requests.push(request)) == match request {
            Some(action) => files_after(files_after_all(files, requests), action),
            None => files_after_all(files, requests),
        },
        files_after_all(files, Seq::<Option<ActionView>>::empty()) == files,
{
    assert(requests.push(request).drop_last() =~= requests);
}

/// What came of the last action.
#[derive(Clone, Debug, PartialEq, Eq)]
pub enum Event {
    /// The user entered a line.
    Line(String),
    /// The user interrupted the prompt.
    Interrupted,
    /// The input ended.
    EndOfInput,
    /// The line could not be read for another reason.
    ReadFailed,
    /// The primitive made a keypair.
    KeyPair { public: Vec<u8>, secret: Vec<u8> },
    /// The primitive encapsulated.
    Encapsulated { ciphertext: Vec<u8>, shared_secret: Vec<u8> },
    /// The primitive failed.
    PrimitiveFailed,
    /// The folder was made, or the file was written or removed.
    Done,
    /// This stands at the inspected path.
    Found(PathKind),
    /// Of each probed path, whether something stands there.
    Probed { public_taken: bool, secret_taken: bool },
    /// The file was read; these are its bytes.
    Loaded(Vec<u8>),
    /// The file or folder could not be looked at, read, written, made or
    /// removed.
    ResourceFailed,
}

/// The mathematical content of an `Event`.
pub enum EventView {
    Line(Seq<char>),
    Interrupted,
    EndOfInput,
    ReadFailed,
    KeyPair { public: Seq<u8>, secret: Seq<u8> },
    Encapsulated { ciphertext: Seq<u8>, shared_secret: Seq<u8> },
    PrimitiveFailed,
    Done,
    Found(PathKind),
    Probed { public_taken: bool, secret_taken: bool },
    Loaded(Seq<u8>),
    ResourceFailed,
}

impl View for Event {
    type V = EventView;

    open spec fn view(&self) -> EventView {
        match *self {
            Event::Line(line) => EventView::Line(line@),
            Event::Interrupted => EventView::Interrupted,
            Event::EndOfInput => EventView::EndOfInput,
            Event::ReadFailed => EventView::ReadFailed,
            Event::KeyPair { public, secret } => EventView::KeyPair {
                public: public@,
                secret: secret@,
            },
            Event::Encapsulated { ciphertext, shared_secret } => EventView::Encapsulated {
                ciphertext: ciphertext@,
                shared_secret: shared_secret@,
            },
            Event::PrimitiveFailed => EventView::PrimitiveFailed,
            Event::Done => EventView::Done,
            Event::Found(kind) => EventView::Found(kind),
            Event::Probed { public_taken, secret_taken } => EventView::Probed {
                public_taken,
                secret_taken,
            },
            Event::Loaded(bytes) => EventView::Loaded(bytes@),
            Event::ResourceFailed => EventView::ResourceFailed,
        }
    }
}

/// Why a prompt that ended without a line ends the workflow that asked, if
/// the event is such an end.
pub open spec fn prompt_failure(e: EventView) -> Option<KeychainError> {
    match e {
        EventView::Interrupted | EventView::EndOfInput => Some(KeychainError::InterruptSignal),
        EventView::ReadFailed => Some(KeychainError::ResourceError),
        _ => None,
    }
}

impl Event {
    /// Why this event ends the workflow whose prompt it answers, if it is
    /// an interrupt, the end of the input or a failure to read.
    pub fn prompt_failure(&self) -> (r: Option<KeychainError>)
        ensures
            r == prompt_failure(self@),
    {
        match self {
            Event::Interrupted | Event::EndOfInput => Some(KeychainError::InterruptSignal),
            Event::ReadFailed => Some(KeychainError::ResourceError),
            _ => None,
        }
    }
}

/// What a workflow has to say about a step that did not end it.
#[derive(Clone, Copy, Debug, PartialEq, Eq, Structural)]
pub enum Remark {
    Nothing,
    /// The line named no entry; the same menu is asked again.
    InvalidChoice,
    /// The line named no variant; the scheme's default was taken.
    DefaultUsed(Variant),
}

/// What the session has to tell the user after a step.
#[derive(Clone, Debug, PartialEq, Eq)]
pub enum Notice {
    Nothing,
    /// Something went wrong: an invalid choice, after which the menu is shown
    /// again, or a failure that ended the workflow.
    Error(KeychainError),
    /// The line named no variant; the scheme's default was taken.
    DefaultUsed(Variant),
    /// Both halves of a keypair were written.
    KeysSaved { public_path: String, secret_path: String },
    /// A ciphertext was written.
    Encrypted { path: String },
    /// The user chose to leave: the scheme menu, for the menu of operations,
    /// or the session.
    Leaving,
}

/// The mathematical content of a `Notice`.
pub enum NoticeView {
    Nothing,
    Error(KeychainError),
    DefaultUsed(Variant),
    KeysSaved { public_path: Seq<char>, secret_path: Seq<char> },
    Encrypted { path: Seq<char> },
    Leaving,
}

impl View for Notice {
    type V = NoticeView;

    open spec fn view(&self) -> NoticeView {
        match *self {
            Notice::Nothing => NoticeView::Nothing,
            Notice::Error(e) => NoticeView::Error(e),
            Notice::DefaultUsed(v) => NoticeView::DefaultUsed(v),
            Notice::KeysSaved { public_path, secret_path } => NoticeView::KeysSaved {
                public_path: public_path@,
                secret_path: secret_path@,
            },
            Notice::Encrypted { path } => NoticeView::Encrypted { path: path@ },
            Notice::Leaving => NoticeView::Leaving,
        }
    }
}

/// The notice that stands for a workflow's remark.
pub open spec fn notice_of(remark: Remark) -> NoticeView {
    match remark {
        Remark::Nothing => NoticeView::Nothing,
        Remark::InvalidChoice => NoticeView::Error(KeychainError::UserInputError),
        Remark::DefaultUsed(v) => NoticeView::DefaultUsed(v),
    }
}

impl Remark {
    /// The notice that stands for this remark.
    pub fn notice(self) -> (n: Notice)
        ensures
            n@ == notice_of(self),
    {
        match self {
            Remark::Nothing => Notice::Nothing,
            Remark::InvalidChoice => Notice::Error(KeychainError::UserInputError),
            Remark::DefaultUsed(v) => Notice::DefaultUsed(v),
        }
    }
}

} // verus!
