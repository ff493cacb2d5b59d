//! The interactive session: a history of the lines entered and the menu or
//! workflow the user is in. The session is a state machine; its driver shows
//! the prompts, calls the primitive and touches the disk.

use vstd::prelude::*;
use crate::encrypt::{
    encrypt_file, encrypt_next, encrypt_request, EncryptState, EncryptStateView,
};
use crate::error::KeychainError;
use crate::keygen::{
    generate_key, keygen_next, keygen_remark, keygen_request, KeygenState, KeygenStateView,
};
use crate::persistence::{could_be_today, DateStamp, KeyRole};
use crate::protocol::{
    notice_of, prompt_failure, Action, ActionView, Event, EventView, Menu, Notice, NoticeView,
    Remark,
};
use crate::registry::scheme_at;
use crate::text::{choice_of, lines_of, parse_choice};

verus! {

/// The menu or workflow a session is in.
#[derive(Clone, Debug, PartialEq, Eq)]
pub enum Context {
    /// At the menu of operations.
    TopLevel,
    /// In the key generation workflow.
    Keygen(KeygenState),
    /// In the encapsulation workflow.
    Encrypt(EncryptState),
    /// The session has ended.
    Closed,
}

/// The mathematical content of a `Context`.
pub enum ContextView {
    TopLevel,
    Keygen(KeygenStateView),
    Encrypt(EncryptStateView),
    Closed,
}

impl View for Context {
    type V = ContextView;

    open spec fn view(&self) -> ContextView {
        match *self {
            Context::TopLevel => ContextView::TopLevel,
            Context::Keygen(k) => ContextView::Keygen(k@),
            Context::Encrypt(x) => ContextView::Encrypt(x@),
            Context::Closed => ContextView::Closed,
        }
    }
}

/// One run of the keychain, from its first prompt to its exit.
#[derive(Debug)]
pub struct Session {
    history: Vec<String>,
    context: Context,
    key_role: KeyRole,
}

/// The mathematical content of a `Session`.
pub struct SessionView {
    /// The lines entered at prompts, oldest first.
    pub history: Seq<Seq<char>>,
    /// The menu or workflow the user is in.
    pub context: ContextView,
    /// The half of a keypair that encapsulation takes.
    pub key_role: KeyRole,
}

impl View for Session {
    type V = SessionView;

    closed spec fn view(&self) -> SessionView {
        SessionView {
            history: lines_of(self.history@),
            context: self.context@,
            key_role: self.key_role,
        }
    }
}

/// Whether a choice is an entry of the menu of operations that leads on:
/// key generation, encapsulation or the exit. The other entries of that menu
/// lead nowhere yet.
pub open spec fn is_open_operation(choice: Option<int>) -> bool {
    choice == Some(1int) || choice == Some(2int) || choice == Some(6int)
}

/// Whether a choice is an entry of the scheme menu that leads on: a scheme,
/// or the way back.
pub open spec fn is_open_key_type(choice: Option<int>) -> bool {
    match choice {
        Some(c) => c == 0 || scheme_at(c) is Some,
        None => false,
    }
}

/// Where the menu of operations leads on a line.
pub open spec fn after_operation_choice(line: Seq<char>) -> ContextView {
    let choice = choice_of(line);
    if choice == Some(1int) {
        ContextView::Keygen(KeygenStateView::SelectFamily)
    } else if choice == Some(2int) {
        ContextView::Encrypt(EncryptStateView::AwaitKeyPath)
    } else if choice == Some(6int) {
        ContextView::Closed
    } else {
        ContextView::TopLevel
    }
}

/// The context after a step of key generation: the workflow while it goes
/// on, the menu of operations once it has ended.
pub open spec fn settle_keygen(k: KeygenStateView) -> ContextView {
    if k.is_terminal() {
        ContextView::TopLevel
    } else {
        ContextView::Keygen(k)
    }
}

/// The context after a step of encapsulation: the workflow while it goes on,
/// the menu of operations once it has ended.
pub open spec fn settle_encrypt(x: EncryptStateView) -> ContextView {
    if x.is_terminal() {
        ContextView::TopLevel
    } else {
        ContextView::Encrypt(x)
    }
}

/// What is reported of a step of key generation that led to `k`.
pub open spec fn keygen_notice(k: KeygenStateView, remark: Remark) -> NoticeView {
    match k {
        KeygenStateView::Completed { public_path, secret_path } => NoticeView::KeysSaved {
            public_path,
            secret_path,
        },
        KeygenStateView::Aborted(e) => NoticeView::Error(e),
        KeygenStateView::Dismissed => NoticeView::Leaving,
        _ => notice_of(remark),
    }
}

/// What is reported of a step of encapsulation that led to `x`.
pub open spec fn encrypt_notice(x: EncryptStateView) -> NoticeView {
    match x {
        EncryptStateView::Completed { path } => NoticeView::Encrypted { path },
        EncryptStateView::Aborted(e) => NoticeView::Error(e),
        _ => NoticeView::Nothing,
    }
}

/// The context that follows `c` on event `e`.
pub open spec fn context_next(
    c: ContextView,
    e: EventView,
    today: Option<DateStamp>,
    role: KeyRole,
) -> ContextView {
    match c {
        ContextView::TopLevel => match e {
            EventView::Line(line) => after_operation_choice(line),
            _ => if prompt_failure(e) is Some {
                ContextView::Closed
            } else {
                c
            },
        },
        ContextView::Keygen(k) => settle_keygen(keygen_next(k, e, today)),
        ContextView::Encrypt(x) => settle_encrypt(encrypt_next(x, e, role)),
        ContextView::Closed => c,
    }
}

/// What is reported of the step from `c` on event `e`.
pub open spec fn context_notice(
    c: ContextView,
    e: EventView,
    today: Option<DateStamp>,
    role: KeyRole,
) -> NoticeView {
    match c {
        ContextView::TopLevel => match e {
            EventView::Line(line) => match after_operation_choice(line) {
                ContextView::TopLevel => NoticeView::Error(KeychainError::UserInputError),
                ContextView::Closed => NoticeView::Leaving,
                _ => NoticeView::Nothing,
            },
            _ => match prompt_failure(e) {
                Some(err) => NoticeView::Error(err),
                None => NoticeView::Nothing,
            },
        },
        ContextView::Keygen(k) => keygen_notice(keygen_next(k, e, today), keygen_remark(k, e)),
        ContextView::Encrypt(x) => encrypt_notice(encrypt_next(x, e, role)),
        ContextView::Closed => NoticeView::Nothing,
    }
}

/// What the driver has to do in context `c`.
pub open spec fn context_pending(c: ContextView, role: KeyRole) -> ActionView {
    match c {
        ContextView::TopLevel => ActionView::Prompt(Menu::TopLevel),
        ContextView::Keygen(k) => match keygen_request(k) {
            Some(action) => action,
            None => ActionView::Prompt(Menu::TopLevel),
        },
        ContextView::Encrypt(x) => match encrypt_request(x, role) {
            Some(action) => action,
            None => ActionView::Prompt(Menu::TopLevel),
        },
        ContextView::Closed => ActionView::Exit,
    }
}

impl SessionView {
    /// What the driver has to do.
    pub open spec fn pending(self) -> ActionView {
        context_pending(self.context, self.key_role)
    }

    /// Whether the session is at a prompt, so that a line is an answer.
    pub open spec fn awaits_line(self) -> bool {
        self.pending() is Prompt
    }

    /// Whether the session is in a workflow that has not ended, or in none,
    /// and the workflow's state is well formed.
    pub open spec fn wf(self) -> bool {
        match self.context {
            ContextView::Keygen(k) => !k.is_terminal() && k.wf(),
            ContextView::Encrypt(x) => !x.is_terminal() && x.wf(self.key_role),
            _ => true,
        }
    }

    /// The history after event `e`: a line that answers a prompt is
    /// appended, whether or not it names an entry.
    pub open spec fn history_after(self, e: EventView) -> Seq<Seq<char>> {
        match e {
            EventView::Line(line) => if self.awaits_line() {
                self.history.push(line)
            } else {
                self.history
            },
            _ => self.history,
        }
    }

    /// The session after event `e`, where `today` is the date that a keypair
    /// arriving with `e` is filed under.
    pub open spec fn next(self, e: EventView, today: Option<DateStamp>) -> SessionView {
        SessionView {
            history: self.history_after(e),
            context: context_next(self.context, e, today, self.key_role),
            key_role: self.key_role,
        }
    }

    /// What the session reports of the step on event `e`.
    pub open spec fn notice(self, e: EventView, today: Option<DateStamp>) -> NoticeView {
        context_notice(self.context, e, today, self.key_role)
    }

    /// Whether the step on event `e` files a new keypair, and so reads the
    /// clock.
    pub open spec fn reads_clock(self, e: EventView) -> bool {
        self.context matches ContextView::Keygen(KeygenStateView::Generating(_)) && e is KeyPair
    }
}

/// A line that names no entry that leads on, at the menu of operations or at
/// the scheme menu, is reported as invalid and leaves the session where it
/// was: in the same context, asking the same prompt again. Only the history
/// grows, by that line.
pub proof fn lemma_invalid_choice_asks_again(
    s: SessionView,
    line: Seq<char>,
    today: Option<DateStamp>,
)
    requires
        (s.context is TopLevel && !is_open_operation(choice_of(line))) || (s.context
            == ContextView::Keygen(KeygenStateView::SelectFamily) && !is_open_key_type(
            choice_of(line),
        )),
    ensures
        s.next(EventView::Line(line), today).context == s.context,
        s.next(EventView::Line(line), today).pending() == s.pending(),
        s.next(EventView::Line(line), today).key_role == s.key_role,
        s.next(EventView::Line(line), today).history == s.history.push(line),
        s.notice(EventView::Line(line), today) == NoticeView::Error(KeychainError::UserInputError),
{
}

/// Every line that answers a prompt is appended to the history, whatever it
/// says; no event removes or changes a line that is there.
pub proof fn lemma_history_grows(s: SessionView, e: EventView, today: Option<DateStamp>)
    ensures
        s.awaits_line() ==> (e matches EventView::Line(line) ==> s.next(e, today).history
            == s.history.push(line)),
        s.history.len() <= s.next(e, today).history.len(),
        s.next(e, today).history.subrange(0, s.history.len() as int) == s.history,
{
    assert(s.next(e, today).history.subrange(0, s.history.len() as int) =~= s.history);
}

/// A session ends only at the menu of operations: on the entry for the
/// exit, on an interrupt, or when the input ends or cannot be read. No
/// failure of a workflow closes it, and a closed session stays closed.
pub proof fn lemma_closes_only_at_top(s: SessionView, e: EventView, today: Option<DateStamp>)
    requires
        s.next(e, today).context is Closed,
    ensures
        s.context is Closed || s.context is TopLevel,
        s.context is TopLevel ==> match e {
            EventView::Line(line) => choice_of(line) == Some(6int),
            _ => prompt_failure(e) is Some,
        },
{
}

/// A workflow that fails hands the session back to the menu of operations
/// and has its error reported.
pub proof fn lemma_failure_returns_to_top(s: SessionView, e: EventView, today: Option<DateStamp>)
    ensures
        s.context matches ContextView::Keygen(k) ==> (keygen_next(k, e, today)
            matches KeygenStateView::Aborted(err) ==> s.next(e, today).context is TopLevel
            && s.notice(e, today) == NoticeView::Error(err)),
        s.context matches ContextView::Encrypt(x) ==> (encrypt_next(x, e, s.key_role)
            matches EncryptStateView::Aborted(err) ==> s.next(e, today).context is TopLevel
            && s.notice(e, today) == NoticeView::Error(err)),
{
}

impl Context {
    /// Tells whether the context is at a prompt.
    fn awaits_line(&self, role: KeyRole) -> (b: bool)
        ensures
            b == (context_pending(self@, role) is Prompt),
    {
        match self {
            Context::TopLevel => true,
            Context::Keygen(k) => match k {
                KeygenState::SelectFamily
                | KeygenState::SelectVariant(_)
                | KeygenState::AwaitFolder { .. }
                | KeygenState::Completed { .. }
                | KeygenState::Aborted(_)
                | KeygenState::Dismissed => true,
                _ => false,
            },
            Context::Encrypt(x) => match x {
                EncryptState::AwaitKeyPath
                | EncryptState::AwaitTarget { .. }
                | EncryptState::Completed { .. }
                | EncryptState::Aborted(_) => true,
                _ => false,
            },
            Context::Closed => false,
        }
    }

    /// What the driver has to do.
    fn pending(&self, role: KeyRole) -> (action: Action)
        ensures
            action@ == context_pending(self@, role),
    {
        match self {
            Context::TopLevel => Action::Prompt(Menu::TopLevel),
            Context::Keygen(k) => match k.request() {
                Some(action) => action,
                None => Action::Prompt(Menu::TopLevel),
            },
            Context::Encrypt(x) => match x.request(role) {
                Some(action) => action,
                None => Action::Prompt(Menu::TopLevel),
            },
            Context::Closed => Action::Exit,
        }
    }

    /// The context and the notice that follow on an event.
    fn advance(self, event: Event, today: Option<DateStamp>, role: KeyRole) -> (r: (Context, Notice))
        ensures
            r.0@ == context_next(self@, event@, today, role),
            r.1@ == context_notice(self@, event@, today, role),
            (self@ matches ContextView::Keygen(k) ==> k.wf()) && (self@ matches ContextView::Encrypt(
                x,
            ) ==> x.wf(role)) && (today matches Some(d) ==> d.wf()) ==> {
                &&& r.0@ matches ContextView::Keygen(k) ==> k.wf()
                &&& r.0@ matches ContextView::Encrypt(x) ==> x.wf(role)
            },
    {
        match self {
            Context::TopLevel => match event {
                Event::Line(line) => match parse_choice(line.as_str()) {
                    Some(1) => (Context::Keygen(KeygenState::start()), Notice::Nothing),
                    Some(2) => (Context::Encrypt(EncryptState::start()), Notice::Nothing),
                    Some(6) => (Context::Closed, Notice::Leaving),
                    _ => (Context::TopLevel, Notice::Error(KeychainError::UserInputError)),
                },
                other => match other.prompt_failure() {
                    Some(err) => (Context::Closed, Notice::Error(err)),
                    None => (Context::TopLevel, Notice::Nothing),
                },
            },
            Context::Keygen(k) => {
                let (next, remark) = generate_key(k, event, today);
                match next {
                    KeygenState::Completed { public_path, secret_path } => (
                        Context::TopLevel,
                        Notice::KeysSaved { public_path, secret_path },
                    ),
                    KeygenState::Aborted(e) => (Context::TopLevel, Notice::Error(e)),
                    KeygenState::Dismissed => (Context::TopLevel, Notice::Leaving),
                    going => (Context::Keygen(going), remark.notice()),
                }
            },
            Context::Encrypt(x) => {
                let next = encrypt_file(x, event, role);
                match next {
                    EncryptState::Completed { path } => (
                        Context::TopLevel,
                        Notice::Encrypted { path },
                    ),
                    EncryptState::Aborted(e) => (Context::TopLevel, Notice::Error(e)),
                    going => (Context::Encrypt(going), Notice::Nothing),
                }
            },
            Context::Closed => (Context::Closed, Notice::Nothing),
        }
    }
}

impl Session {
    /// A session at the menu of operations, with an empty history, in which
    /// encapsulation takes the half of a keypair that has `key_role`.
    pub fn new(key_role: KeyRole) -> (s: Session)
        ensures
            s@ == (SessionView {
                history: Seq::<Seq<char>>::empty(),
                context: ContextView::TopLevel,
                key_role,
            }),
            s@.wf(),
    {
        let s = Session { history: Vec::new(), context: Context::TopLevel, key_role };
        assert(s@.history =~= Seq::<Seq<char>>::empty());
        s
    }

    /// The lines entered so far, oldest first.
    pub fn history(&self) -> (h: &Vec<String>)
        ensures
            lines_of(h@) == self@.history,
    {
        &self.history
    }

    /// Tells whether the session has ended.
    pub fn is_closed(&self) -> (b: bool)
        ensures
            b == (self@.context is Closed),
    {
        match &self.context {
            Context::Closed => true,
            _ => false,
        }
    }

    /// What the driver has to do now.
    pub fn pending(&self) -> (action: Action)
        ensures
            action@ == self@.pending(),
    {
        self.context.pending(self.key_role)
    }

    /// Takes the session one step further on the outcome of what it last
    /// asked for, with `today` as the date to file a new keypair under, and
    /// hands back what to tell the user. An event that does not answer the
    /// pending action changes nothing.
    pub fn step_at(&mut self, event: Event, today: Option<DateStamp>) -> (notice: Notice)
        ensures
            final(self)@ == old(self)@.next(event@, today),
            notice@ == old(self)@.notice(event@, today),
            old(self)@.wf() && (today matches Some(d) ==> d.wf()) ==> final(self)@.wf(),
    {
        let role: KeyRole = self.key_role;
        if self.context.awaits_line(role) {
            match &event {
                Event::Line(line) => {
                    let ghost before = self.history@;
                    self.history.push(line.clone());
                    assert(lines_of(self.history@) =~= lines_of(before).push(line@));
                },
                _ => {},
            }
        }
        let mut context: Context = Context::Closed;
        core::mem::swap(&mut self.context, &mut context);
        let (next, notice) = context.advance(event, today, role);
        self.context = next;
        notice
    }

    /// Takes the session one step further on the outcome of what it last
    /// asked for, and hands back what to tell the user. Where the event
    /// brings a new keypair, the keypair is filed under the date that the
    /// machine's clock shows `offset` seconds ahead of universal time.
    pub fn step(&mut self, event: Event, offset: i32) -> (notice: Notice)
        ensures
            !old(self)@.reads_clock(event@) ==> final(self)@ == old(self)@.next(event@, None)
                && notice@ == old(self)@.notice(event@, None),
            exists|today: Option<DateStamp>|
                {
                    &&& could_be_today(today, offset as int)
                    &&& today matches Some(d) ==> d.wf()
                    &&& final(self)@ == #[trigger] old(self)@.next(event@, today)
                    &&& notice@ == old(self)@.notice(event@, today)
                },
            old(self)@.wf() ==> final(self)@.wf(),
    {
        let files_keypair: bool = match (&self.context, &event) {
            (Context::Keygen(KeygenState::Generating(_)), Event::KeyPair { .. }) => true,
            _ => false,
        };
        let today: Option<DateStamp> = if files_keypair {
            DateStamp::today(offset)
        } else {
            None
        };
        self.step_at(event, today)
    }
}

} // verus!
