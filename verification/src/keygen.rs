//! The key generation workflow: choose a scheme and a variant, have the
//! primitive make a keypair, ask for a folder, and write both halves under
//! names that no earlier file holds.

use vstd::prelude::*;
use crate::error::KeychainError;
use crate::persistence::{
    build_key_path, key_path, sequence_suffix, stamp_text, DateStamp, KeyRole,
};
use crate::protocol::{
    files_after_all, lemma_files_after_one_more, prompt_failure, Action, ActionView, Event,
    EventView, Menu, PathKind, Remark,
};
use crate::registry::{
    canonical_name, default_of, menu_selection, public_key_length, resolve_by_menu, scheme_at,
    scheme_by_menu, secret_key_length, variant_at, Scheme, Variant,
};
use crate::text::{choice_of, clean_path, cleaned, copy_bytes, parse_choice};

verus! {

/// Both halves of a key, made by one call of the primitive.
#[derive(Clone, Debug, PartialEq, Eq)]
pub struct KeyPair {
    pub variant: Variant,
    pub public: Vec<u8>,
    pub secret: Vec<u8>,
}

/// The mathematical content of a `KeyPair`.
pub struct KeyPairView {
    pub variant: Variant,
    pub public: Seq<u8>,
    pub secret: Seq<u8>,
}

impl View for KeyPair {
    type V = KeyPairView;

    open spec fn view(&self) -> KeyPairView {
        KeyPairView { variant: self.variant, public: self.public@, secret: self.secret@ }
    }
}

/// Whether keys of these lengths are a keypair of the variant.
pub open spec fn fits_variant(v: Variant, public_len: nat, secret_len: nat) -> bool {
    public_len == public_key_length(v) && secret_len == secret_key_length(v)
}

impl KeyPairView {
    /// Whether both halves have the lengths that the variant documents.
    pub open spec fn wf(self) -> bool {
        fits_variant(self.variant, self.public.len(), self.secret.len())
    }
}

impl KeyPair {
    /// Makes a keypair of what the primitive handed back for `variant`, if
    /// both halves have the documented lengths.
    pub fn new(variant: Variant, public: Vec<u8>, secret: Vec<u8>) -> (r: Result<
        KeyPair,
        KeychainError,
    >)
        ensures
            match r {
                Ok(pair) => pair@ == (KeyPairView { variant, public: public@, secret: secret@ })
                    && pair@.wf(),
                Err(e) => e == KeychainError::PrimitiveFailure && !fits_variant(
                    variant,
                    public@.len(),
                    secret@.len(),
                ),
            },
    {
        if public.len() == variant.public_key_len() && secret.len() == variant.secret_key_len() {
            Ok(KeyPair { variant, public, secret })
        } else {
            Err(KeychainError::PrimitiveFailure)
        }
    }
}

/// A keypair on its way to disk: where it goes, under which date, and how
/// many names were found taken so far.
#[derive(Clone, Debug, PartialEq, Eq)]
pub struct Deposit {
    pub pair: KeyPair,
    pub date: DateStamp,
    pub folder: String,
    pub seq: u32,
}

/// The mathematical content of a `Deposit`.
pub struct DepositView {
    pub pair: KeyPairView,
    pub date: DateStamp,
    pub folder: Seq<char>,
    pub seq: u32,
}

impl View for Deposit {
    type V = DepositView;

    open spec fn view(&self) -> DepositView {
        DepositView { pair: self.pair@, date: self.date, folder: self.folder@, seq: self.seq }
    }
}

impl DepositView {
    /// The path of one half.
    pub open spec fn path(self, role: KeyRole) -> Seq<char> {
        key_path(self.folder, self.pair.variant, role, self.date, self.seq as nat)
    }

    /// The same deposit under the next sequence number.
    pub open spec fn next_name(self) -> DepositView {
        DepositView { seq: (self.seq + 1) as u32, ..self }
    }
}

impl Deposit {
    /// The path of one half.
    pub fn path(&self, role: KeyRole) -> (p: String)
        ensures
            p@ == self@.path(role),
    {
        build_key_path(self.folder.as_str(), self.pair.variant, role, self.date, self.seq)
    }
}

/// Where the workflow stands.
#[derive(Clone, Debug, PartialEq, Eq)]
pub enum KeygenState {
    /// Asking for the scheme.
    SelectFamily,
    /// Asking for the variant of a scheme.
    SelectVariant(Scheme),
    /// Waiting for the primitive to make a keypair.
    Generating(Variant),
    /// Asking for the folder to save the keypair in.
    AwaitFolder { pair: KeyPair, date: DateStamp },
    /// Waiting to hear what stands at the folder's path.
    InspectingFolder(Deposit),
    /// Waiting for the folder, which was absent, to be made.
    CreatingFolder(Deposit),
    /// Waiting to hear whether the names of both files are free.
    Probing(Deposit),
    /// Waiting for the public key to be written.
    WritingPublic(Deposit),
    /// Waiting for the secret key to be written.
    WritingSecret(Deposit),
    /// The secret key could not be written: waiting for the public key to be
    /// removed again, so that no half stays behind alone.
    RollingBack(Deposit),
    /// Both halves are written.
    Completed { public_path: String, secret_path: String },
    /// The workflow ended without a keypair on disk.
    Aborted(KeychainError),
    /// The user went back from the scheme menu.
    Dismissed,
}

/// The mathematical content of a `KeygenState`.
pub enum KeygenStateView {
    SelectFamily,
    SelectVariant(Scheme),
    Generating(Variant),
    AwaitFolder { pair: KeyPairView, date: DateStamp },
    InspectingFolder(DepositView),
    CreatingFolder(DepositView),
    Probing(DepositView),
    WritingPublic(DepositView),
    WritingSecret(DepositView),
    RollingBack(DepositView),
    Completed { public_path: Seq<char>, secret_path: Seq<char> },
    Aborted(KeychainError),
    Dismissed,
}

impl View for KeygenState {
    type V = KeygenStateView;

    open spec fn view(&self) -> KeygenStateView {
        match *self {
            KeygenState::SelectFamily => KeygenStateView::SelectFamily,
            KeygenState::SelectVariant(s) => KeygenStateView::SelectVariant(s),
            KeygenState::Generating(v) => KeygenStateView::Generating(v),
            KeygenState::AwaitFolder { pair, date } => KeygenStateView::AwaitFolder {
                pair: pair@,
                date,
            },
            KeygenState::InspectingFolder(d) => KeygenStateView::InspectingFolder(d@),
            KeygenState::CreatingFolder(d) => KeygenStateView::CreatingFolder(d@),
            KeygenState::Probing(d) => KeygenStateView::Probing(d@),
            KeygenState::WritingPublic(d) => KeygenStateView::WritingPublic(d@),
            KeygenState::WritingSecret(d) => KeygenStateView::WritingSecret(d@),
            KeygenState::RollingBack(d) => KeygenStateView::RollingBack(d@),
            KeygenState::Completed { public_path, secret_path } => KeygenStateView::Completed {
                public_path: public_path@,
                secret_path: secret_path@,
            },
            KeygenState::Aborted(e) => KeygenStateView::Aborted(e),
            KeygenState::Dismissed => KeygenStateView::Dismissed,
        }
    }
}

impl KeygenStateView {
    /// Whether the workflow has ended.
    pub open spec fn is_terminal(self) -> bool {
        self is Completed || self is Aborted || self is Dismissed
    }

    /// Whether every keypair and date that the state holds is well formed.
    pub open spec fn wf(self) -> bool {
        match self {
            KeygenStateView::AwaitFolder { pair, date } => pair.wf() && date.wf(),
            KeygenStateView::InspectingFolder(d)
            | KeygenStateView::CreatingFolder(d)
            | KeygenStateView::Probing(d)
            | KeygenStateView::WritingPublic(d)
            | KeygenStateView::WritingSecret(d)
            | KeygenStateView::RollingBack(d) => d.pair.wf() && d.date.wf(),
            _ => true,
        }
    }
}

/// Where the scheme menu leads on a line.
pub open spec fn after_family_choice(line: Seq<char>) -> KeygenStateView {
    match choice_of(line) {
        Some(c) => if c == 0 {
            KeygenStateView::Dismissed
        } else {
            match scheme_at(c) {
                Some(s) => KeygenStateView::SelectVariant(s),
                None => KeygenStateView::SelectFamily,
            }
        },
        None => KeygenStateView::SelectFamily,
    }
}

/// The variant that a line selects from a scheme's menu, if it names one.
pub open spec fn chosen_variant(s: Scheme, line: Seq<char>) -> Option<Variant> {
    match choice_of(line) {
        Some(c) => variant_at(s, c),
        None => None,
    }
}

/// The variant that the workflow goes on with after a line at a scheme's
/// menu: the entry that the line names, else the scheme's default.
pub open spec fn selected_variant(s: Scheme, line: Seq<char>) -> Variant {
    match choice_of(line) {
        Some(c) => menu_selection(s, c),
        None => default_of(s),
    }
}

/// Where the arrival of a keypair leads.
pub open spec fn after_keypair(
    v: Variant,
    public: Seq<u8>,
    secret: Seq<u8>,
    today: Option<DateStamp>,
) -> KeygenStateView {
    if fits_variant(v, public.len(), secret.len()) {
        match today {
            Some(date) => KeygenStateView::AwaitFolder {
                pair: KeyPairView { variant: v, public, secret },
                date,
            },
            None => KeygenStateView::Aborted(KeychainError::ResourceError),
        }
    } else {
        KeygenStateView::Aborted(KeychainError::PrimitiveFailure)
    }
}

/// Where the workflow goes on hearing what stands at the folder's path: a
/// folder that is there is used, one that is absent is made, and a path that
/// holds something else ends the workflow.
pub open spec fn after_folder_found(d: DepositView, kind: PathKind) -> KeygenStateView {
    match kind {
        PathKind::Folder => KeygenStateView::Probing(d),
        PathKind::Absent => KeygenStateView::CreatingFolder(d),
        PathKind::Other => KeygenStateView::Aborted(KeychainError::ResourceError),
    }
}

/// Where the workflow goes on hearing of the two paths of a deposit: it
/// writes where both are free, and tries the next sequence number where
/// either is taken, as long as there is one.
pub open spec fn after_probe(d: DepositView, public_taken: bool, secret_taken: bool) -> KeygenStateView {
    if !public_taken && !secret_taken {
        KeygenStateView::WritingPublic(d)
    } else if d.seq < u32::MAX {
        KeygenStateView::Probing(d.next_name())
    } else {
        KeygenStateView::Aborted(KeychainError::ResourceError)
    }
}

/// Where a prompt of the workflow leads when it ends without a line; the
/// state stays as it is on an event that answers no prompt.
pub open spec fn after_prompt_end(s: KeygenStateView, e: EventView) -> KeygenStateView {
    match prompt_failure(e) {
        Some(err) => KeygenStateView::Aborted(err),
        None => s,
    }
}

/// The state that follows `s` on event `e`. `today` is the date that a new
/// keypair is filed under; none means that the clock gave no usable date. An
/// event that does not answer what `s` asks for leaves the state as it is.
pub open spec fn keygen_next(s: KeygenStateView, e: EventView, today: Option<DateStamp>) -> KeygenStateView {
    match s {
        KeygenStateView::SelectFamily => match e {
            EventView::Line(line) => after_family_choice(line),
            _ => after_prompt_end(s, e),
        },
        KeygenStateView::SelectVariant(scheme) => match e {
            EventView::Line(line) => KeygenStateView::Generating(selected_variant(scheme, line)),
            _ => after_prompt_end(s, e),
        },
        KeygenStateView::Generating(v) => match e {
            EventView::KeyPair { public, secret } => after_keypair(v, public, secret, today),
            EventView::PrimitiveFailed => KeygenStateView::Aborted(KeychainError::PrimitiveFailure),
            _ => s,
        },
        KeygenStateView::AwaitFolder { pair, date } => match e {
            EventView::Line(line) => KeygenStateView::InspectingFolder(
                DepositView { pair, date, folder: cleaned(line), seq: 0 },
            ),
            _ => after_prompt_end(s, e),
        },
        KeygenStateView::InspectingFolder(d) => match e {
            EventView::Found(kind) => after_folder_found(d, kind),
            EventView::ResourceFailed => KeygenStateView::Aborted(KeychainError::ResourceError),
            _ => s,
        },
        KeygenStateView::CreatingFolder(d) => match e {
            EventView::Done => KeygenStateView::Probing(d),
            EventView::ResourceFailed => KeygenStateView::Aborted(KeychainError::ResourceError),
            _ => s,
        },
        KeygenStateView::Probing(d) => match e {
            EventView::Probed { public_taken, secret_taken } => after_probe(
                d,
                public_taken,
                secret_taken,
            ),
            EventView::ResourceFailed => KeygenStateView::Aborted(KeychainError::ResourceError),
            _ => s,
        },
        KeygenStateView::WritingPublic(d) => match e {
            EventView::Done => KeygenStateView::WritingSecret(d),
            EventView::ResourceFailed => KeygenStateView::Aborted(KeychainError::ResourceError),
            _ => s,
        },
        KeygenStateView::WritingSecret(d) => match e {
            EventView::Done => KeygenStateView::Completed {
                public_path: d.path(KeyRole::Public),
                secret_path: d.path(KeyRole::Secret),
            },
            EventView::ResourceFailed => KeygenStateView::RollingBack(d),
            _ => s,
        },
        KeygenStateView::RollingBack(d) => match e {
            EventView::Done | EventView::ResourceFailed => KeygenStateView::Aborted(
                KeychainError::ResourceError,
            ),
            _ => s,
        },
        _ => s,
    }
}

/// What the workflow remarks on the step from `s` on event `e`.
pub open spec fn keygen_remark(s: KeygenStateView, e: EventView) -> Remark {
    match (s, e) {
        (KeygenStateView::SelectFamily, EventView::Line(line)) => if after_family_choice(line)
            is SelectFamily {
            Remark::InvalidChoice
        } else {
            Remark::Nothing
        },
        (KeygenStateView::SelectVariant(scheme), EventView::Line(line)) => if chosen_variant(
            scheme,
            line,
        ) is None {
            Remark::DefaultUsed(default_of(scheme))
        } else {
            Remark::Nothing
        },
        _ => Remark::Nothing,
    }
}

/// What the workflow asks of the driver in state `s`; nothing once it has
/// ended.
pub open spec fn keygen_request(s: KeygenStateView) -> Option<ActionView> {
    match s {
        KeygenStateView::SelectFamily => Some(ActionView::Prompt(Menu::KeyType)),
        KeygenStateView::SelectVariant(scheme) => Some(ActionView::Prompt(Menu::Variants(scheme))),
        KeygenStateView::Generating(v) => Some(ActionView::GenerateKeypair(v)),
        KeygenStateView::AwaitFolder { .. } => Some(ActionView::Prompt(Menu::OutputFolder)),
        KeygenStateView::InspectingFolder(d) => Some(ActionView::Inspect(d.folder)),
        KeygenStateView::CreatingFolder(d) => Some(ActionView::CreateFolder(d.folder)),
        KeygenStateView::Probing(d) => Some(
            ActionView::Probe {
                public_path: d.path(KeyRole::Public),
                secret_path: d.path(KeyRole::Secret),
            },
        ),
        KeygenStateView::WritingPublic(d) => Some(
            ActionView::WriteFile { path: d.path(KeyRole::Public), bytes: d.pair.public },
        ),
        KeygenStateView::WritingSecret(d) => Some(
            ActionView::WriteFile { path: d.path(KeyRole::Secret), bytes: d.pair.secret },
        ),
        KeygenStateView::RollingBack(d) => Some(ActionView::RemoveFile(d.path(KeyRole::Public))),
        _ => None,
    }
}

/// The workflow reports success only on hearing that the secret key, the
/// half written last, is on disk, and the paths it reports are those of the
/// deposit it wrote.
pub proof fn lemma_completed_after_both_halves(
    s: KeygenStateView,
    e: EventView,
    today: Option<DateStamp>,
)
    requires
        !(s is Completed),
        keygen_next(s, e, today) is Completed,
    ensures
        e is Done,
        s matches KeygenStateView::WritingSecret(d) && keygen_next(s, e, today)
            == (KeygenStateView::Completed {
            public_path: d.path(KeyRole::Public),
            secret_path: d.path(KeyRole::Secret),
        }),
{
}

/// The workflow keeps its order: it probes only once a folder was found at
/// the folder's path or made there, starts to write only on hearing that
/// both paths of the deposit are free, and lets the secret key follow the
/// public key to the same deposit. No path is written to that the probe
/// before did not find free.
pub proof fn lemma_write_order(s: KeygenStateView, e: EventView, today: Option<DateStamp>)
    ensures
        !(s is Probing) ==> (keygen_next(s, e, today) matches KeygenStateView::Probing(d) ==> (e
            == EventView::Found(PathKind::Folder) && s == KeygenStateView::InspectingFolder(d))
            || (e is Done && s == KeygenStateView::CreatingFolder(d))),
        !(s is CreatingFolder) ==> (keygen_next(s, e, today)
            matches KeygenStateView::CreatingFolder(d) ==> e == EventView::Found(PathKind::Absent)
            && s == KeygenStateView::InspectingFolder(d)),
        !(s is WritingPublic) ==> (keygen_next(s, e, today) matches KeygenStateView::WritingPublic(d)
            ==> e == (EventView::Probed { public_taken: false, secret_taken: false }) && s
            == KeygenStateView::Probing(d)),
        !(s is WritingSecret) ==> (keygen_next(s, e, today) matches KeygenStateView::WritingSecret(d)
            ==> e is Done && s == KeygenStateView::WritingPublic(d)),
        keygen_request(s) matches Some(ActionView::WriteFile { path, bytes }) ==> s
            is WritingPublic || s is WritingSecret,
{
}

/// Every state that follows the arrival of a keypair holds halves of the
/// lengths that the variant documents, and only such a keypair is taken.
pub proof fn lemma_accepted_keypair_fits(
    v: Variant,
    public: Seq<u8>,
    secret: Seq<u8>,
    today: Option<DateStamp>,
)
    ensures
        match keygen_next(
            KeygenStateView::Generating(v),
            EventView::KeyPair { public, secret },
            today,
        ) {
            KeygenStateView::AwaitFolder { pair, date } => {
                &&& today == Some(date)
                &&& pair == (KeyPairView { variant: v, public, secret })
                &&& public.len() == public_key_length(v)
                &&& secret.len() == secret_key_length(v)
            },
            KeygenStateView::Aborted(err) => if fits_variant(v, public.len(), secret.len()) {
                today is None && err == KeychainError::ResourceError
            } else {
                err == KeychainError::PrimitiveFailure
            },
            _ => false,
        },
{
}

/// The deposit that a state holds, if it holds one.
pub open spec fn deposit_of(s: KeygenStateView) -> Option<DepositView> {
    match s {
        KeygenStateView::InspectingFolder(d)
        | KeygenStateView::CreatingFolder(d)
        | KeygenStateView::Probing(d)
        | KeygenStateView::WritingPublic(d)
        | KeygenStateView::WritingSecret(d)
        | KeygenStateView::RollingBack(d) => Some(d),
        _ => None,
    }
}

/// From the folder prompt to the last write the workflow keeps the keypair
/// it was handed, byte for byte, with its date and folder; only the sequence
/// number changes, and it only grows. What is written is what was made.
pub proof fn lemma_deposit_is_kept(s: KeygenStateView, e: EventView, today: Option<DateStamp>)
    ensures
        s matches KeygenStateView::AwaitFolder { pair, date } ==> (deposit_of(
            keygen_next(s, e, today),
        ) matches Some(d) ==> d.pair == pair && d.date == date && d.seq == 0),
        deposit_of(s) matches Some(before) ==> (deposit_of(keygen_next(s, e, today)) matches Some(
            after,
        ) ==> {
            &&& after.pair == before.pair
            &&& after.date == before.date
            &&& after.folder == before.folder
            &&& after.seq >= before.seq
        }),
        deposit_of(s) is None && !(s is AwaitFolder) ==> deposit_of(keygen_next(s, e, today))
            is None,
{
}

/// The states of one run of the workflow from the arrival of a keypair on,
/// in which the driver does all it is asked: the folder's path is entered,
/// the driver finds `found` there and makes the folder where it was absent,
/// finds both names free, and does the two writes.
pub open spec fn run_states(
    v: Variant,
    public: Seq<u8>,
    secret: Seq<u8>,
    today: Option<DateStamp>,
    folder_line: Seq<char>,
    found: PathKind,
) -> Seq<KeygenStateView> {
    let free = EventView::Probed { public_taken: false, secret_taken: false };
    let s0 = KeygenStateView::Generating(v);
    let s1 = keygen_next(s0, EventView::KeyPair { public, secret }, today);
    let s2 = keygen_next(s1, EventView::Line(folder_line), today);
    let s3 = keygen_next(s2, EventView::Found(found), today);
    let s4 = keygen_next(s3, EventView::Done, today);
    let s5 = keygen_next(s4, free, today);
    let s6 = keygen_next(s5, EventView::Done, today);
    let s7 = keygen_next(s6, EventView::Done, today);
    seq![s0, s1, s2, s3, s4, s5, s6, s7]
}

/// What the workflow asks for in each of the states, in their order.
pub open spec fn requests_in(states: Seq<KeygenStateView>) -> Seq<Option<ActionView>> {
    Seq::new(states.len(), |i: int| keygen_request(states[i]))
}

/// A whole run of the workflow, for a keypair of the documented lengths
/// and a date, into a folder that is there or absent and holds neither
/// name, ends completed and changes the files in one way only: the two
/// paths that it reports hold the two halves, byte for byte as the
/// primitive made them, and nothing else has changed. Reading either file
/// again gives the half that was generated.
pub proof fn lemma_run_writes_both_halves(
    files: Map<Seq<char>, Seq<u8>>,
    v: Variant,
    public: Seq<u8>,
    secret: Seq<u8>,
    date: DateStamp,
    folder_line: Seq<char>,
    found: PathKind,
)
    requires
        fits_variant(v, public.len(), secret.len()),
        found != PathKind::Other,
    ensures
        ({
            let states = run_states(v, public, secret, Some(date), folder_line, found);
            let after = files_after_all(files, requests_in(states));
            let public_path = key_path(cleaned(folder_line), v, KeyRole::Public, date, 0);
            let secret_path = key_path(cleaned(folder_line), v, KeyRole::Secret, date, 0);
            &&& states[7] == (KeygenStateView::Completed { public_path, secret_path })
            &&& after == files.insert(public_path, public).insert(secret_path, secret)
            &&& after[public_path] == public
            &&& after[secret_path] == secret
        }),
{
    let states = run_states(v, public, secret, Some(date), folder_line, found);
    let asked = requests_in(states);
    let none = Seq::<Option<ActionView>>::empty();
    let a1 = none.push(asked[0]);
    let a2 = a1.push(asked[1]);
    let a3 = a2.push(asked[2]);
    let a4 = a3.push(asked[3]);
    let a5 = a4.push(asked[4]);
    let a6 = a5.push(asked[5]);
    let a7 = a6.push(asked[6]);
    assert(asked =~= a7.push(asked[7]));
    lemma_files_after_one_more(files, none, asked[0]);
    lemma_files_after_one_more(files, a1, asked[1]);
    lemma_files_after_one_more(files, a2, asked[2]);
    lemma_files_after_one_more(files, a3, asked[3]);
    lemma_files_after_one_more(files, a4, asked[4]);
    lemma_files_after_one_more(files, a5, asked[5]);
    lemma_files_after_one_more(files, a6, asked[6]);
    lemma_files_after_one_more(files, a7, asked[7]);
    let d = DepositView {
        pair: KeyPairView { variant: v, public, secret },
        date,
        folder: cleaned(folder_line),
        seq: 0,
    };
    lemma_halves_apart(d);
}

/// The two halves of a deposit go to different paths.
pub proof fn lemma_halves_apart(d: DepositView)
    ensures
        d.path(KeyRole::Public) != d.path(KeyRole::Secret),
{
    reveal_strlit("/");
    reveal_strlit("_");
    reveal_strlit("public");
    reveal_strlit("secret");
    let at = (d.folder.len() + 1 + canonical_name(d.pair.variant).len() + 1) as int;
    let head = d.folder + "/"@ + canonical_name(d.pair.variant) + "_"@;
    let public_rest = "_key_"@ + stamp_text(d.date) + sequence_suffix(d.seq as nat) + ".bin"@;
    assert(d.path(KeyRole::Public) =~= head + "public"@ + public_rest);
    assert(d.path(KeyRole::Secret) =~= head + "secret"@ + public_rest);
    assert(d.path(KeyRole::Public)[at] == 'p');
    assert(d.path(KeyRole::Secret)[at] == 's');
}

impl KeygenState {
    /// The state in which the workflow starts.
    pub fn start() -> (s: KeygenState)
        ensures
            s@ == KeygenStateView::SelectFamily,
    {
        KeygenState::SelectFamily
    }

    /// Tells whether the workflow has ended.
    pub fn is_terminal(&self) -> (b: bool)
        ensures
            b == self@.is_terminal(),
    {
        match self {
            KeygenState::Completed { .. } | KeygenState::Aborted(_) | KeygenState::Dismissed => true,
            _ => false,
        }
    }

    /// What the driver has to do next; nothing once the workflow has ended.
    pub fn request(&self) -> (r: Option<Action>)
        ensures
            r is Some <==> !self@.is_terminal(),
            match r {
                Some(action) => keygen_request(self@) == Some(action@),
                None => keygen_request(self@) is None,
            },
    {
        match self {
            KeygenState::SelectFamily => Some(Action::Prompt(Menu::KeyType)),
            KeygenState::SelectVariant(scheme) => Some(Action::Prompt(Menu::Variants(*scheme))),
            KeygenState::Generating(v) => Some(Action::GenerateKeypair(*v)),
            KeygenState::AwaitFolder { .. } => Some(Action::Prompt(Menu::OutputFolder)),
            KeygenState::InspectingFolder(d) => Some(Action::Inspect(d.folder.clone())),
            KeygenState::CreatingFolder(d) => Some(Action::CreateFolder(d.folder.clone())),
            KeygenState::Probing(d) => Some(
                Action::Probe {
                    public_path: d.path(KeyRole::Public),
                    secret_path: d.path(KeyRole::Secret),
                },
            ),
            KeygenState::WritingPublic(d) => Some(
                Action::WriteFile {
                    path: d.path(KeyRole::Public),
                    bytes: copy_bytes(&d.pair.public),
                },
            ),
            KeygenState::WritingSecret(d) => Some(
                Action::WriteFile {
                    path: d.path(KeyRole::Secret),
                    bytes: copy_bytes(&d.pair.secret),
                },
            ),
            KeygenState::RollingBack(d) => Some(Action::RemoveFile(d.path(KeyRole::Public))),
            _ => None,
        }
    }
}

/// Where a prompt of the workflow leads when it ends without a line.
fn end_prompt(state: KeygenState, event: &Event) -> (next: KeygenState)
    requires
        !(event@ is Line),
    ensures
        next@ == after_prompt_end(state@, event@),
{
    match event.prompt_failure() {
        Some(err) => KeygenState::Aborted(err),
        None => state,
    }
}

/// Takes the key generation workflow one step further: from the state it is
/// in and the outcome of what it last asked for, to the state that follows
/// and a remark for the user. `today` is the date to file a new keypair
/// under. An event that does not answer the state's request changes nothing.
pub fn generate_key(state: KeygenState, event: Event, today: Option<DateStamp>) -> (r: (
    KeygenState,
    Remark,
))
    ensures
        r.0@ == keygen_next(state@, event@, today),
        r.1 == keygen_remark(state@, event@),
        state@.wf() && (today matches Some(d) ==> d.wf()) ==> r.0@.wf(),
{
    match state {
        KeygenState::SelectFamily => match event {
            Event::Line(line) => match parse_choice(line.as_str()) {
                Some(0) => (KeygenState::Dismissed, Remark::Nothing),
                Some(c) => match scheme_by_menu(c) {
                    Some(s) => (KeygenState::SelectVariant(s), Remark::Nothing),
                    None => (KeygenState::SelectFamily, Remark::InvalidChoice),
                },
                None => (KeygenState::SelectFamily, Remark::InvalidChoice),
            },
            other => (end_prompt(KeygenState::SelectFamily, &other), Remark::Nothing),
        },
        KeygenState::SelectVariant(scheme) => match event {
            Event::Line(line) => match parse_choice(line.as_str()) {
                Some(c) => {
                    let v: Variant = resolve_by_menu(scheme, c);
                    let remark: Remark = match scheme.variant_by_menu(c) {
                        Some(_) => Remark::Nothing,
                        None => Remark::DefaultUsed(v),
                    };
                    (KeygenState::Generating(v), remark)
                },
                None => {
                    let v: Variant = scheme.default_variant();
                    (KeygenState::Generating(v), Remark::DefaultUsed(v))
                },
            },
            other => (end_prompt(KeygenState::SelectVariant(scheme), &other), Remark::Nothing),
        },
        KeygenState::Generating(v) => match event {
            Event::KeyPair { public, secret } => match KeyPair::new(v, public, secret) {
                Ok(pair) => match today {
                    Some(date) => (KeygenState::AwaitFolder { pair, date }, Remark::Nothing),
                    None => (KeygenState::Aborted(KeychainError::ResourceError), Remark::Nothing),
                },
                Err(e) => (KeygenState::Aborted(e), Remark::Nothing),
            },
            Event::PrimitiveFailed => (
                KeygenState::Aborted(KeychainError::PrimitiveFailure),
                Remark::Nothing,
            ),
            _ => (KeygenState::Generating(v), Remark::Nothing),
        },
        KeygenState::AwaitFolder { pair, date } => match event {
            Event::Line(line) => {
                let folder: String = String::from_str(clean_path(line.as_str()));
                (
                    KeygenState::InspectingFolder(Deposit { pair, date, folder, seq: 0 }),
                    Remark::Nothing,
                )
            },
            other => (end_prompt(KeygenState::AwaitFolder { pair, date }, &other), Remark::Nothing),
        },
        KeygenState::InspectingFolder(d) => match event {
            Event::Found(PathKind::Folder) => (KeygenState::Probing(d), Remark::Nothing),
            Event::Found(PathKind::Absent) => (KeygenState::CreatingFolder(d), Remark::Nothing),
            Event::Found(PathKind::Other) | Event::ResourceFailed => (
                KeygenState::Aborted(KeychainError::ResourceError),
                Remark::Nothing,
            ),
            _ => (KeygenState::InspectingFolder(d), Remark::Nothing),
        },
        KeygenState::CreatingFolder(d) => match event {
            Event::Done => (KeygenState::Probing(d), Remark::Nothing),
            Event::ResourceFailed => (
                KeygenState::Aborted(KeychainError::ResourceError),
                Remark::Nothing,
            ),
            _ => (KeygenState::CreatingFolder(d), Remark::Nothing),
        },
        KeygenState::Probing(d) => match event {
            Event::Probed { public_taken, secret_taken } => if !public_taken && !secret_taken {
                (KeygenState::WritingPublic(d), Remark::Nothing)
            } else if d.seq < u32::MAX {
                let Deposit { pair, date, folder, seq } = d;
                (
                    KeygenState::Probing(Deposit { pair, date, folder, seq: seq + 1 }),
                    Remark::Nothing,
                )
            } else {
                (KeygenState::Aborted(KeychainError::ResourceError), Remark::Nothing)
            },
            Event::ResourceFailed => (
                KeygenState::Aborted(KeychainError::ResourceError),
                Remark::Nothing,
            ),
            _ => (KeygenState::Probing(d), Remark::Nothing),
        },
        KeygenState::WritingPublic(d) => match event {
            Event::Done => (KeygenState::WritingSecret(d), Remark::Nothing),
            Event::ResourceFailed => (
                KeygenState::Aborted(KeychainError::ResourceError),
                Remark::Nothing,
            ),
            _ => (KeygenState::WritingPublic(d), Remark::Nothing),
        },
        KeygenState::WritingSecret(d) => match event {
            Event::Done => {
                let public_path: String = d.path(KeyRole::Public);
                let secret_path: String = d.path(KeyRole::Secret);
                (KeygenState::Completed { public_path, secret_path }, Remark::Nothing)
            },
            Event::ResourceFailed => (KeygenState::RollingBack(d), Remark::Nothing),
            _ => (KeygenState::WritingSecret(d), Remark::Nothing),
        },
        KeygenState::RollingBack(d) => match event {
            Event::Done | Event::ResourceFailed => (
                KeygenState::Aborted(KeychainError::ResourceError),
                Remark::Nothing,
            ),
            _ => (KeygenState::RollingBack(d), Remark::Nothing),
        },
        done => (done, Remark::Nothing),
    }
}

} // verus!
