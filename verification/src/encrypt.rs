//! The encapsulation workflow: read a key file, tell its variant from its
//! path, read the target file, have the primitive encapsulate, and write the
//! ciphertext beside the target.

use vstd::prelude::*;
use crate::error::KeychainError;
use crate::keygen::DepositView;
use crate::persistence::{
    build_ciphertext_path, ciphertext_path, lemma_key_path_resolves, KeyRole,
};
use crate::protocol::{
    files_after_all, lemma_files_after_one_more, prompt_failure, Action, ActionView, Event,
    EventView, Menu,
};
use crate::registry::{
    canonical_name, ciphertext_length, family_of, public_key_length, resolve_by_filename, resolved,
    secret_key_length, shared_secret_length, AlgorithmFamily, Variant,
};
use crate::text::{clean_path, cleaned, copy_bytes, occurs_in};

verus! {

/// What one encapsulation yields.
#[derive(Clone, Debug, PartialEq, Eq)]
pub struct EncapsulationResult {
    pub ciphertext: Vec<u8>,
    pub shared_secret: Vec<u8>,
}

/// The mathematical content of an `EncapsulationResult`.
pub struct EncapsulationResultView {
    pub ciphertext: Seq<u8>,
    pub shared_secret: Seq<u8>,
}

impl View for EncapsulationResult {
    type V = EncapsulationResultView;

    open spec fn view(&self) -> EncapsulationResultView {
        EncapsulationResultView {
            ciphertext: self.ciphertext@,
            shared_secret: self.shared_secret@,
        }
    }
}

/// The length in bytes of the half of a variant's keypair that has `role`.
pub open spec fn key_length(v: Variant, role: KeyRole) -> nat {
    match role {
        KeyRole::Public => public_key_length(v),
        KeyRole::Secret => secret_key_length(v),
    }
}

/// Whether a ciphertext and a shared secret of these lengths are what
/// encapsulation under the variant yields.
pub open spec fn fits_encapsulation(v: Variant, ciphertext_len: nat, shared_secret_len: nat) -> bool {
    ciphertext_length(v) == Some(ciphertext_len) && shared_secret_length(v) == Some(
        shared_secret_len,
    )
}

/// The length in bytes of the half of a variant's keypair that has `role`.
pub fn key_len(variant: Variant, role: KeyRole) -> (n: usize)
    ensures
        n == key_length(variant, role),
{
    match role {
        KeyRole::Public => variant.public_key_len(),
        KeyRole::Secret => variant.secret_key_len(),
    }
}

impl EncapsulationResult {
    /// Makes a result of what the primitive handed back for `variant`, if
    /// the variant encapsulates and both parts have the documented lengths.
    pub fn new(variant: Variant, ciphertext: Vec<u8>, shared_secret: Vec<u8>) -> (r: Result<
        EncapsulationResult,
        KeychainError,
    >)
        ensures
            match r {
                Ok(res) => res@ == (EncapsulationResultView {
                    ciphertext: ciphertext@,
                    shared_secret: shared_secret@,
                }) && fits_encapsulation(variant, ciphertext@.len(), shared_secret@.len()),
                Err(e) => e == KeychainError::PrimitiveFailure && !fits_encapsulation(
                    variant,
                    ciphertext@.len(),
                    shared_secret@.len(),
                ),
            },
    {
        match (variant.ciphertext_len(), variant.shared_secret_len()) {
            (Some(c), Some(s)) => if ciphertext.len() == c && shared_secret.len() == s {
                Ok(EncapsulationResult { ciphertext, shared_secret })
            } else {
                Err(KeychainError::PrimitiveFailure)
            },
            _ => Err(KeychainError::PrimitiveFailure),
        }
    }
}

/// Where the workflow stands.
#[derive(Clone, Debug, PartialEq, Eq)]
pub enum EncryptState {
    /// Asking for the path of the key file.
    AwaitKeyPath,
    /// Waiting for the key file to be read.
    LoadingKey { path: String },
    /// Asking for the path of the target file.
    AwaitTarget { variant: Variant, key: Vec<u8> },
    /// Waiting for the target file to be read.
    LoadingTarget { variant: Variant, key: Vec<u8>, target: String },
    /// Waiting for the primitive to encapsulate.
    Encapsulating { variant: Variant, key: Vec<u8>, target: String, input: Vec<u8> },
    /// Waiting for the ciphertext to be written.
    WritingCiphertext { path: String, result: EncapsulationResult },
    /// The ciphertext is written.
    Completed { path: String },
    /// The workflow ended without a ciphertext on disk.
    Aborted(KeychainError),
}

/// The mathematical content of an `EncryptState`.
pub enum EncryptStateView {
    AwaitKeyPath,
    LoadingKey { path: Seq<char> },
    AwaitTarget { variant: Variant, key: Seq<u8> },
    LoadingTarget { variant: Variant, key: Seq<u8>, target: Seq<char> },
    Encapsulating { variant: Variant, key: Seq<u8>, target: Seq<char>, input: Seq<u8> },
    WritingCiphertext { path: Seq<char>, result: EncapsulationResultView },
    Completed { path: Seq<char> },
    Aborted(KeychainError),
}

impl View for EncryptState {
    type V = EncryptStateView;

    open spec fn view(&self) -> EncryptStateView {
        match *self {
            EncryptState::AwaitKeyPath => EncryptStateView::AwaitKeyPath,
            EncryptState::LoadingKey { path } => EncryptStateView::LoadingKey { path: path@ },
            EncryptState::AwaitTarget { variant, key } => EncryptStateView::AwaitTarget {
                variant,
                key: key@,
            },
            EncryptState::LoadingTarget { variant, key, target } => EncryptStateView::LoadingTarget {
                variant,
                key: key@,
                target: target@,
            },
            EncryptState::Encapsulating {
                variant,
                key,
                target,
                input,
            } => EncryptStateView::Encapsulating {
                variant,
                key: key@,
                target: target@,
                input: input@,
            },
            EncryptState::WritingCiphertext {
                path,
                result,
            } => EncryptStateView::WritingCiphertext { path: path@, result: result@ },
            EncryptState::Completed { path } => EncryptStateView::Completed { path: path@ },
            EncryptState::Aborted(e) => EncryptStateView::Aborted(e),
        }
    }
}

impl EncryptStateView {
    /// Whether the workflow has ended.
    pub open spec fn is_terminal(self) -> bool {
        self is Completed || self is Aborted
    }

    /// Whether the state holds only material of the lengths that its variant
    /// documents for the key of role `role`.
    pub open spec fn wf(self, role: KeyRole) -> bool {
        match self {
            EncryptStateView::AwaitTarget { variant, key }
            | EncryptStateView::LoadingTarget { variant, key, .. }
            | EncryptStateView::Encapsulating { variant, key, .. } => {
                &&& family_of(variant) == AlgorithmFamily::KeyEncapsulation
                &&& key.len() == key_length(variant, role)
            },
            _ => true,
        }
    }
}

/// Where the arrival of the key file's bytes leads. The variant is told from
/// the path; it has to be one that encapsulates, and the bytes have to be a
/// key of role `role` for it.
pub open spec fn after_key_loaded(path: Seq<char>, bytes: Seq<u8>, role: KeyRole) -> EncryptStateView {
    match resolved(path) {
        Some(v) => if family_of(v) == AlgorithmFamily::KeyEncapsulation {
            if bytes.len() == key_length(v, role) {
                EncryptStateView::AwaitTarget { variant: v, key: bytes }
            } else {
                EncryptStateView::Aborted(KeychainError::PrimitiveFailure)
            }
        } else {
            EncryptStateView::Aborted(KeychainError::UnknownAlgorithm)
        },
        None => EncryptStateView::Aborted(KeychainError::UnknownAlgorithm),
    }
}

/// Where the arrival of what the primitive made leads.
pub open spec fn after_encapsulation(
    v: Variant,
    target: Seq<char>,
    ciphertext: Seq<u8>,
    shared_secret: Seq<u8>,
) -> EncryptStateView {
    if fits_encapsulation(v, ciphertext.len(), shared_secret.len()) {
        EncryptStateView::WritingCiphertext {
            path: ciphertext_path(target),
            result: EncapsulationResultView { ciphertext, shared_secret },
        }
    } else {
        EncryptStateView::Aborted(KeychainError::PrimitiveFailure)
    }
}

/// Where a prompt of the workflow leads when it ends without a line; the
/// state stays as it is on an event that answers no prompt.
pub open spec fn after_prompt_end(s: EncryptStateView, e: EventView) -> EncryptStateView {
    match prompt_failure(e) {
        Some(err) => EncryptStateView::Aborted(err),
        None => s,
    }
}

/// The state that follows `s` on event `e`, where keys of role `role` are
/// what the primitive encapsulates to. An event that does not answer what
/// `s` asks for leaves the state as it is.
pub open spec fn encrypt_next(s: EncryptStateView, e: EventView, role: KeyRole) -> EncryptStateView {
    match s {
        EncryptStateView::AwaitKeyPath => match e {
            EventView::Line(line) => EncryptStateView::LoadingKey { path: cleaned(line) },
            _ => after_prompt_end(s, e),
        },
        EncryptStateView::LoadingKey { path } => match e {
            EventView::Loaded(bytes) => after_key_loaded(path, bytes, role),
            EventView::ResourceFailed => EncryptStateView::Aborted(KeychainError::ResourceError),
            _ => s,
        },
        EncryptStateView::AwaitTarget { variant, key } => match e {
            EventView::Line(line) => EncryptStateView::LoadingTarget {
                variant,
                key,
                target: cleaned(line),
            },
            _ => after_prompt_end(s, e),
        },
        EncryptStateView::LoadingTarget { variant, key, target } => match e {
            EventView::Loaded(bytes) => EncryptStateView::Encapsulating {
                variant,
                key,
                target,
                input: bytes,
            },
            EventView::ResourceFailed => EncryptStateView::Aborted(KeychainError::ResourceError),
            _ => s,
        },
        EncryptStateView::Encapsulating { variant, target, .. } => match e {
            EventView::Encapsulated { ciphertext, shared_secret } => after_encapsulation(
                variant,
                target,
                ciphertext,
                shared_secret,
            ),
            EventView::PrimitiveFailed => EncryptStateView::Aborted(KeychainError::PrimitiveFailure),
            _ => s,
        },
        EncryptStateView::WritingCiphertext { path, .. } => match e {
            EventView::Done => EncryptStateView::Completed { path },
            EventView::ResourceFailed => EncryptStateView::Aborted(KeychainError::ResourceError),
            _ => s,
        },
        _ => s,
    }
}

/// What the workflow asks of the driver in state `s`; nothing once it has
/// ended.
pub open spec fn encrypt_request(s: EncryptStateView, role: KeyRole) -> Option<ActionView> {
    match s {
        EncryptStateView::AwaitKeyPath => Some(ActionView::Prompt(Menu::KeyFile)),
        EncryptStateView::LoadingKey { path } => Some(ActionView::ReadFile(path)),
        EncryptStateView::AwaitTarget { .. } => Some(ActionView::Prompt(Menu::TargetFile)),
        EncryptStateView::LoadingTarget { target, .. } => Some(ActionView::ReadFile(target)),
        EncryptStateView::Encapsulating { variant, key, input, .. } => Some(
            ActionView::Encapsulate { variant, role, key, input },
        ),
        EncryptStateView::WritingCiphertext { path, result } => Some(
            ActionView::WriteFile { path, bytes: result.ciphertext },
        ),
        _ => None,
    }
}

/// A key that the key generation workflow has saved is taken back by this
/// workflow as a key of the variant it was made for, wherever the folder's
/// own path names no variant and the variant is one that encapsulates.
pub proof fn lemma_saved_key_loads_back(d: DepositView, role: KeyRole)
    requires
        d.pair.wf(),
        family_of(d.pair.variant) == AlgorithmFamily::KeyEncapsulation,
        forall|w: Variant| !occurs_in(d.folder, #[trigger] canonical_name(w)),
    ensures
        after_key_loaded(
            d.path(role),
            match role {
                KeyRole::Public => d.pair.public,
                KeyRole::Secret => d.pair.secret,
            },
            role,
        ) == (EncryptStateView::AwaitTarget {
            variant: d.pair.variant,
            key: match role {
                KeyRole::Public => d.pair.public,
                KeyRole::Secret => d.pair.secret,
            },
        }),
{
    lemma_key_path_resolves(d.folder, d.pair.variant, role, d.date, d.seq as nat);
}

/// The only ciphertext that the workflow writes is the one the primitive
/// made, of the length that the variant documents, to the target's path with
/// `.enc` appended.
pub proof fn lemma_written_ciphertext_fits(s: EncryptStateView, e: EventView, role: KeyRole)
    requires
        !(s is WritingCiphertext),
        encrypt_next(s, e, role) is WritingCiphertext,
    ensures
        s matches EncryptStateView::Encapsulating { variant, target, .. } && e
            matches EventView::Encapsulated { ciphertext, shared_secret } && {
            &&& ciphertext_length(variant) == Some(ciphertext.len())
            &&& shared_secret_length(variant) == Some(shared_secret.len())
            &&& encrypt_request(encrypt_next(s, e, role), role) == Some(
                ActionView::WriteFile { path: target + ".enc"@, bytes: ciphertext },
            )
        },
{
}

/// The states of one run of the workflow in which every file is read and
/// written as asked: the key path is entered, the key file holds `key`, the
/// target path is entered, the target file holds `input`, the primitive
/// hands back `ciphertext` and `shared_secret`, and the write is done.
pub open spec fn run_states(
    key_line: Seq<char>,
    key: Seq<u8>,
    target_line: Seq<char>,
    input: Seq<u8>,
    ciphertext: Seq<u8>,
    shared_secret: Seq<u8>,
    role: KeyRole,
) -> Seq<EncryptStateView> {
    let s0 = EncryptStateView::AwaitKeyPath;
    let s1 = encrypt_next(s0, EventView::Line(key_line), role);
    let s2 = encrypt_next(s1, EventView::Loaded(key), role);
    let s3 = encrypt_next(s2, EventView::Line(target_line), role);
    let s4 = encrypt_next(s3, EventView::Loaded(input), role);
    let s5 = encrypt_next(s4, EventView::Encapsulated { ciphertext, shared_secret }, role);
    let s6 = encrypt_next(s5, EventView::Done, role);
    seq![s0, s1, s2, s3, s4, s5, s6]
}

/// What the workflow asks for in each of the states, in their order.
pub open spec fn requests_in(states: Seq<EncryptStateView>, role: KeyRole) -> Seq<
    Option<ActionView>,
> {
    Seq::new(states.len(), |i: int| encrypt_request(states[i], role))
}

/// A whole run of the workflow, for a key file whose path names a variant
/// that encapsulates and whose bytes are a key of it, changes the files in
/// one way only. Where the primitive hands back a ciphertext and a shared
/// secret of the documented lengths, the run ends completed, and the files
/// are as before but for the target's path with `.enc` appended, which holds
/// the ciphertext and nothing else: no header, no shared secret, none of the
/// target's bytes. Where it hands back anything else, the run ends in
/// `PrimitiveFailure` and no file has changed.
pub proof fn lemma_run_writes_ciphertext_only(
    files: Map<Seq<char>, Seq<u8>>,
    key_line: Seq<char>,
    key: Seq<u8>,
    target_line: Seq<char>,
    input: Seq<u8>,
    ciphertext: Seq<u8>,
    shared_secret: Seq<u8>,
    role: KeyRole,
    v: Variant,
)
    requires
        resolved(cleaned(key_line)) == Some(v),
        family_of(v) == AlgorithmFamily::KeyEncapsulation,
        key.len() == key_length(v, role),
    ensures
        ({
            let states = run_states(
                key_line,
                key,
                target_line,
                input,
                ciphertext,
                shared_secret,
                role,
            );
            let written = cleaned(target_line) + ".enc"@;
            &&& encrypt_request(states[1], role) == Some(ActionView::ReadFile(cleaned(key_line)))
            &&& encrypt_request(states[3], role) == Some(
                ActionView::ReadFile(cleaned(target_line)),
            )
            &&& encrypt_request(states[4], role) == Some(
                ActionView::Encapsulate { variant: v, role, key, input },
            )
            &&& if fits_encapsulation(v, ciphertext.len(), shared_secret.len()) {
                &&& states[6] == (EncryptStateView::Completed { path: written })
                &&& files_after_all(files, requests_in(states, role)) == files.insert(written, ciphertext)
            } else {
                &&& states[6] == EncryptStateView::Aborted(KeychainError::PrimitiveFailure)
                &&& files_after_all(files, requests_in(states, role)) == files
            }
        }),
{
    let states = run_states(key_line, key, target_line, input, ciphertext, shared_secret, role);
    let asked = requests_in(states, role);
    let none = Seq::<Option<ActionView>>::empty();
    let a1 = none.push(asked[0]);
    let a2 = a1.push(asked[1]);
    let a3 = a2.push(asked[2]);
    let a4 = a3.push(asked[3]);
    let a5 = a4.push(asked[4]);
    let a6 = a5.push(asked[5]);
    assert(asked =~= a6.push(asked[6]));
    lemma_files_after_one_more(files, none, asked[0]);
    lemma_files_after_one_more(files, a1, asked[1]);
    lemma_files_after_one_more(files, a2, asked[2]);
    lemma_files_after_one_more(files, a3, asked[3]);
    lemma_files_after_one_more(files, a4, asked[4]);
    lemma_files_after_one_more(files, a5, asked[5]);
    lemma_files_after_one_more(files, a6, asked[6]);
}

impl EncryptState {
    /// The state in which the workflow starts.
    pub fn start() -> (s: EncryptState)
        ensures
            s@ == EncryptStateView::AwaitKeyPath,
    {
        EncryptState::AwaitKeyPath
    }

    /// Tells whether the workflow has ended.
    pub fn is_terminal(&self) -> (b: bool)
        ensures
            b == self@.is_terminal(),
    {
        match self {
            EncryptState::Completed { .. } | EncryptState::Aborted(_) => true,
            _ => false,
        }
    }

    /// What the driver has to do next; nothing once the workflow has ended.
    pub fn request(&self, role: KeyRole) -> (r: Option<Action>)
        ensures
            r is Some <==> !self@.is_terminal(),
            match r {
                Some(action) => encrypt_request(self@, role) == Some(action@),
                None => encrypt_request(self@, role) is None,
            },
    {
        match self {
            EncryptState::AwaitKeyPath => Some(Action::Prompt(Menu::KeyFile)),
            EncryptState::LoadingKey { path } => Some(Action::ReadFile(path.clone())),
            EncryptState::AwaitTarget { .. } => Some(Action::Prompt(Menu::TargetFile)),
            EncryptState::LoadingTarget { target, .. } => Some(Action::ReadFile(target.clone())),
            EncryptState::Encapsulating { variant, key, input, .. } => Some(
                Action::Encapsulate {
                    variant: *variant,
                    role,
                    key: copy_bytes(key),
                    input: copy_bytes(input),
                },
            ),
            EncryptState::WritingCiphertext { path, result } => Some(
                Action::WriteFile { path: path.clone(), bytes: copy_bytes(&result.ciphertext) },
            ),
            _ => None,
        }
    }
}

/// Where a prompt of the workflow leads when it ends without a line.
fn end_prompt(state: EncryptState, event: &Event) -> (next: EncryptState)
    requires
        !(event@ is Line),
    ensures
        next@ == after_prompt_end(state@, event@),
{
    match event.prompt_failure() {
        Some(err) => EncryptState::Aborted(err),
        None => state,
    }
}

/// Tells the variant of a key file from its path and takes the bytes for its
/// key.
fn load_key(path: &str, bytes: Vec<u8>, role: KeyRole) -> (next: EncryptState)
    ensures
        next@ == after_key_loaded(path@, bytes@, role),
{
    match resolve_by_filename(path) {
        Some(v) => match v.family() {
            AlgorithmFamily::KeyEncapsulation => if bytes.len() == key_len(v, role) {
                EncryptState::AwaitTarget { variant: v, key: bytes }
            } else {
                EncryptState::Aborted(KeychainError::PrimitiveFailure)
            },
            AlgorithmFamily::Signature => EncryptState::Aborted(KeychainError::UnknownAlgorithm),
        },
        None => EncryptState::Aborted(KeychainError::UnknownAlgorithm),
    }
}

/// Takes the encapsulation workflow one step further: from the state it is
/// in and the outcome of what it last asked for, to the state that follows.
/// `role` says which half of a keypair the primitive encapsulates to. An
/// event that does not answer the state's request changes nothing.
pub fn encrypt_file(state: EncryptState, event: Event, role: KeyRole) -> (next: EncryptState)
    ensures
        next@ == encrypt_next(state@, event@, role),
        state@.wf(role) ==> next@.wf(role),
{
    match state {
        EncryptState::AwaitKeyPath => match event {
            Event::Line(line) => EncryptState::LoadingKey {
                path: String::from_str(clean_path(line.as_str())),
            },
            other => end_prompt(EncryptState::AwaitKeyPath, &other),
        },
        EncryptState::LoadingKey { path } => match event {
            Event::Loaded(bytes) => load_key(path.as_str(), bytes, role),
            Event::ResourceFailed => EncryptState::Aborted(KeychainError::ResourceError),
            _ => EncryptState::LoadingKey { path },
        },
        EncryptState::AwaitTarget { variant, key } => match event {
            Event::Line(line) => EncryptState::LoadingTarget {
                variant,
                key,
                target: String::from_str(clean_path(line.as_str())),
            },
            other => end_prompt(EncryptState::AwaitTarget { variant, key }, &other),
        },
        EncryptState::LoadingTarget { variant, key, target } => match event {
            Event::Loaded(bytes) => EncryptState::Encapsulating { variant, key, target, input: bytes },
            Event::ResourceFailed => EncryptState::Aborted(KeychainError::ResourceError),
            _ => EncryptState::LoadingTarget { variant, key, target },
        },
        EncryptState::Encapsulating { variant, key, target, input } => match event {
            Event::Encapsulated { ciphertext, shared_secret } => match EncapsulationResult::new(
                variant,
                ciphertext,
                shared_secret,
            ) {
                Ok(result) => EncryptState::WritingCiphertext {
                    path: build_ciphertext_path(target.as_str()),
                    result,
                },
                Err(e) => EncryptState::Aborted(e),
            },
            Event::PrimitiveFailed => EncryptState::Aborted(KeychainError::PrimitiveFailure),
            _ => EncryptState::Encapsulating { variant, key, target, input },
        },
        EncryptState::WritingCiphertext { path, result } => match event {
            Event::Done => EncryptState::Completed { path },
            Event::ResourceFailed => EncryptState::Aborted(KeychainError::ResourceError),
            _ => EncryptState::WritingCiphertext { path, result },
        },
        done => done,
    }
}

} // verus!
