use openquantumkeychain::error::KeychainError;
use openquantumkeychain::keygen::{generate_key, Deposit, KeyPair, KeygenState};
use openquantumkeychain::persistence::{DateStamp, KeyRole};
use openquantumkeychain::protocol::{Action, Event, Menu, PathKind, Remark};
use openquantumkeychain::registry::{Scheme, Variant};

fn today() -> Option<DateStamp> {
    DateStamp::new(28, 10, 2026)
}

fn line(text: &str) -> Event {
    Event::Line(text.to_string())
}

fn vacant() -> Event {
    Event::Probed { public_taken: false, secret_taken: false }
}

fn occupied() -> Event {
    Event::Probed { public_taken: true, secret_taken: true }
}

fn folder_there() -> Event {
    Event::Found(PathKind::Folder)
}

fn kyber_pair() -> KeyPair {
    KeyPair::new(Variant::Kyber512, vec![1u8; 800], vec![2u8; 1632]).unwrap()
}

fn kyber_deposit(seq: u32) -> Deposit {
    Deposit {
        pair: kyber_pair(),
        date: today().unwrap(),
        folder: "/tmp/keys".to_string(),
        seq,
    }
}

fn step(state: KeygenState, event: Event) -> KeygenState {
    generate_key(state, event, today()).0
}

#[test]
fn keypair_takes_only_the_documented_lengths() {
    let pair = KeyPair::new(Variant::Kyber512, vec![7u8; 800], vec![9u8; 1632]).unwrap();
    assert_eq!(pair.variant, Variant::Kyber512);
    assert_eq!(pair.public, vec![7u8; 800]);
    assert_eq!(pair.secret, vec![9u8; 1632]);
    assert_eq!(
        KeyPair::new(Variant::Kyber512, vec![7u8; 799], vec![9u8; 1632]),
        Err(KeychainError::PrimitiveFailure)
    );
    assert_eq!(
        KeyPair::new(Variant::Kyber512, vec![7u8; 800], vec![9u8; 1633]),
        Err(KeychainError::PrimitiveFailure)
    );
    assert_eq!(
        KeyPair::new(Variant::Kyber512, vec![], vec![]),
        Err(KeychainError::PrimitiveFailure)
    );
    assert_eq!(
        KeyPair::new(Variant::Kyber768, vec![7u8; 800], vec![9u8; 1632]),
        Err(KeychainError::PrimitiveFailure)
    );
}

#[test]
fn every_variant_takes_a_keypair_of_its_own_lengths() {
    for v in Variant::all() {
        let pair = KeyPair::new(v, vec![0u8; v.public_key_len()], vec![0u8; v.secret_key_len()]);
        assert!(pair.is_ok());
        let short = KeyPair::new(v, vec![0u8; v.public_key_len() - 1], vec![0u8; v.secret_key_len()]);
        assert_eq!(short, Err(KeychainError::PrimitiveFailure));
    }
}

#[test]
fn workflow_starts_at_the_scheme_menu() {
    let state = KeygenState::start();
    assert_eq!(state, KeygenState::SelectFamily);
    assert!(!state.is_terminal());
    assert_eq!(state.request(), Some(Action::Prompt(Menu::KeyType)));
}

#[test]
fn scheme_menu_leads_to_the_variant_menu() {
    for (text, scheme) in [
        ("1", Scheme::Dilithium),
        ("2", Scheme::Falcon),
        ("3", Scheme::Mayo),
        ("5", Scheme::Kyber),
        ("6", Scheme::Hqc),
        (" 7 ", Scheme::Bike),
    ] {
        let (next, remark) = generate_key(KeygenState::SelectFamily, line(text), today());
        assert_eq!(next, KeygenState::SelectVariant(scheme));
        assert_eq!(remark, Remark::Nothing);
        assert_eq!(next.request(), Some(Action::Prompt(Menu::Variants(scheme))));
    }
}

#[test]
fn scheme_menu_asks_again_on_an_invalid_line() {
    for text in ["9", "4", "8", "", "kyber", "55", "1 1"] {
        let (next, remark) = generate_key(KeygenState::SelectFamily, line(text), today());
        assert_eq!(next, KeygenState::SelectFamily, "{:?}", text);
        assert_eq!(remark, Remark::InvalidChoice);
    }
}

#[test]
fn scheme_menu_zero_goes_back() {
    let (next, remark) = generate_key(KeygenState::SelectFamily, line("0"), today());
    assert_eq!(next, KeygenState::Dismissed);
    assert_eq!(remark, Remark::Nothing);
    assert!(next.is_terminal());
    assert_eq!(next.request(), None);
}

#[test]
fn variant_menu_selects_by_index() {
    let (next, remark) = generate_key(KeygenState::SelectVariant(Scheme::Kyber), line("2"), today());
    assert_eq!(next, KeygenState::Generating(Variant::Kyber768));
    assert_eq!(remark, Remark::Nothing);
    assert_eq!(next.request(), Some(Action::GenerateKeypair(Variant::Kyber768)));
    assert_eq!(
        step(KeygenState::SelectVariant(Scheme::Mayo), line("4")),
        KeygenState::Generating(Variant::Mayo5)
    );
}

#[test]
fn variant_menu_falls_back_to_the_default_and_says_so() {
    for (scheme, text, default) in [
        (Scheme::Dilithium, "4", Variant::Dilithium2),
        (Scheme::Falcon, "3", Variant::Falcon1024),
        (Scheme::Mayo, "x", Variant::Mayo5),
        (Scheme::Kyber, "", Variant::Kyber512),
        (Scheme::Hqc, "0", Variant::Hqc256),
        (Scheme::Bike, "12", Variant::BikeL5),
    ] {
        let (next, remark) = generate_key(KeygenState::SelectVariant(scheme), line(text), today());
        assert_eq!(next, KeygenState::Generating(default));
        assert_eq!(remark, Remark::DefaultUsed(default));
    }
}

#[test]
fn interrupt_at_any_prompt_aborts() {
    let prompts = [
        KeygenState::SelectFamily,
        KeygenState::SelectVariant(Scheme::Hqc),
        KeygenState::AwaitFolder { pair: kyber_pair(), date: today().unwrap() },
    ];
    for state in prompts {
        assert_eq!(
            step(state.clone(), Event::Interrupted),
            KeygenState::Aborted(KeychainError::InterruptSignal)
        );
        assert_eq!(
            step(state.clone(), Event::EndOfInput),
            KeygenState::Aborted(KeychainError::InterruptSignal)
        );
        assert_eq!(
            step(state.clone(), Event::ReadFailed),
            KeygenState::Aborted(KeychainError::ResourceError)
        );
    }
}

#[test]
fn keypair_of_the_right_lengths_is_filed_under_today() {
    let event = Event::KeyPair { public: vec![1u8; 800], secret: vec![2u8; 1632] };
    let next = step(KeygenState::Generating(Variant::Kyber512), event);
    assert_eq!(
        next,
        KeygenState::AwaitFolder { pair: kyber_pair(), date: DateStamp { day: 28, month: 10, year: 2026 } }
    );
    assert_eq!(next.request(), Some(Action::Prompt(Menu::OutputFolder)));
}

#[test]
fn keypair_of_wrong_lengths_is_a_primitive_failure() {
    let event = Event::KeyPair { public: vec![1u8; 801], secret: vec![2u8; 1632] };
    assert_eq!(
        step(KeygenState::Generating(Variant::Kyber512), event),
        KeygenState::Aborted(KeychainError::PrimitiveFailure)
    );
    let empty = Event::KeyPair { public: vec![], secret: vec![] };
    assert_eq!(
        step(KeygenState::Generating(Variant::Falcon512), empty),
        KeygenState::Aborted(KeychainError::PrimitiveFailure)
    );
    assert_eq!(
        step(KeygenState::Generating(Variant::Falcon512), Event::PrimitiveFailed),
        KeygenState::Aborted(KeychainError::PrimitiveFailure)
    );
}

#[test]
fn keypair_without_a_usable_date_is_a_resource_error() {
    let event = Event::KeyPair { public: vec![1u8; 800], secret: vec![2u8; 1632] };
    let (next, remark) = generate_key(KeygenState::Generating(Variant::Kyber512), event, None);
    assert_eq!(next, KeygenState::Aborted(KeychainError::ResourceError));
    assert_eq!(remark, Remark::Nothing);
}

#[test]
fn folder_line_is_cleaned_and_the_folder_is_looked_at_first() {
    let state = KeygenState::AwaitFolder { pair: kyber_pair(), date: today().unwrap() };
    let next = step(state, line(" \"/tmp/keys\" \n"));
    assert_eq!(next, KeygenState::InspectingFolder(Deposit {
        pair: kyber_pair(),
        date: today().unwrap(),
        folder: "\"/tmp/keys\"".to_string(),
        seq: 0,
    }));
    let state = KeygenState::AwaitFolder { pair: kyber_pair(), date: today().unwrap() };
    let next = step(state, line("'/tmp/keys'"));
    assert_eq!(next, KeygenState::InspectingFolder(kyber_deposit(0)));
    assert_eq!(next.request(), Some(Action::Inspect("/tmp/keys".to_string())));
}

#[test]
fn folder_failure_aborts_before_anything_is_written() {
    assert_eq!(
        step(KeygenState::InspectingFolder(kyber_deposit(0)), Event::ResourceFailed),
        KeygenState::Aborted(KeychainError::ResourceError)
    );
    assert_eq!(
        step(KeygenState::CreatingFolder(kyber_deposit(0)), Event::ResourceFailed),
        KeygenState::Aborted(KeychainError::ResourceError)
    );
}

#[test]
fn path_that_holds_no_folder_is_a_resource_error() {
    assert_eq!(
        step(KeygenState::InspectingFolder(kyber_deposit(0)), Event::Found(PathKind::Other)),
        KeygenState::Aborted(KeychainError::ResourceError)
    );
}

#[test]
fn absent_folder_is_made_before_the_probe() {
    let making = step(KeygenState::InspectingFolder(kyber_deposit(0)), Event::Found(PathKind::Absent));
    assert_eq!(making, KeygenState::CreatingFolder(kyber_deposit(0)));
    assert_eq!(making.request(), Some(Action::CreateFolder("/tmp/keys".to_string())));
    assert_eq!(step(making, Event::Done), KeygenState::Probing(kyber_deposit(0)));
}

#[test]
fn both_paths_are_probed_before_the_first_write() {
    let next = step(KeygenState::InspectingFolder(kyber_deposit(0)), folder_there());
    assert_eq!(next, KeygenState::Probing(kyber_deposit(0)));
    assert_eq!(
        next.request(),
        Some(Action::Probe {
            public_path: "/tmp/keys/Kyber512_public_key_28102026.bin".to_string(),
            secret_path: "/tmp/keys/Kyber512_secret_key_28102026.bin".to_string(),
        })
    );
}

#[test]
fn one_taken_path_is_enough_to_move_on() {
    for (public_taken, secret_taken) in [(true, false), (false, true), (true, true)] {
        assert_eq!(
            step(KeygenState::Probing(kyber_deposit(5)), Event::Probed { public_taken, secret_taken }),
            KeygenState::Probing(kyber_deposit(6))
        );
    }
    assert_eq!(
        step(
            KeygenState::Probing(kyber_deposit(u32::MAX)),
            Event::Probed { public_taken: false, secret_taken: true },
        ),
        KeygenState::Aborted(KeychainError::ResourceError)
    );
    assert_eq!(
        step(KeygenState::Probing(kyber_deposit(u32::MAX)), vacant()),
        KeygenState::WritingPublic(kyber_deposit(u32::MAX))
    );
}

#[test]
fn taken_names_move_on_to_the_next_sequence_number() {
    let next = step(KeygenState::Probing(kyber_deposit(0)), occupied());
    assert_eq!(next, KeygenState::Probing(kyber_deposit(1)));
    assert_eq!(
        next.request(),
        Some(Action::Probe {
            public_path: "/tmp/keys/Kyber512_public_key_28102026_1.bin".to_string(),
            secret_path: "/tmp/keys/Kyber512_secret_key_28102026_1.bin".to_string(),
        })
    );
    let next = step(next, occupied());
    assert_eq!(next, KeygenState::Probing(kyber_deposit(2)));
    assert_eq!(
        step(KeygenState::Probing(kyber_deposit(u32::MAX)), occupied()),
        KeygenState::Aborted(KeychainError::ResourceError)
    );
    assert_eq!(
        step(KeygenState::Probing(kyber_deposit(3)), Event::ResourceFailed),
        KeygenState::Aborted(KeychainError::ResourceError)
    );
}

#[test]
fn public_key_is_written_first_then_the_secret_key() {
    let writing = step(KeygenState::Probing(kyber_deposit(1)), vacant());
    assert_eq!(writing, KeygenState::WritingPublic(kyber_deposit(1)));
    assert_eq!(
        writing.request(),
        Some(Action::WriteFile {
            path: "/tmp/keys/Kyber512_public_key_28102026_1.bin".to_string(),
            bytes: vec![1u8; 800],
        })
    );
    let writing = step(writing, Event::Done);
    assert_eq!(writing, KeygenState::WritingSecret(kyber_deposit(1)));
    assert_eq!(
        writing.request(),
        Some(Action::WriteFile {
            path: "/tmp/keys/Kyber512_secret_key_28102026_1.bin".to_string(),
            bytes: vec![2u8; 1632],
        })
    );
    let done = step(writing, Event::Done);
    assert_eq!(
        done,
        KeygenState::Completed {
            public_path: "/tmp/keys/Kyber512_public_key_28102026_1.bin".to_string(),
            secret_path: "/tmp/keys/Kyber512_secret_key_28102026_1.bin".to_string(),
        }
    );
    assert!(done.is_terminal());
    assert_eq!(done.request(), None);
}

#[test]
fn failed_public_write_aborts() {
    assert_eq!(
        step(KeygenState::WritingPublic(kyber_deposit(0)), Event::ResourceFailed),
        KeygenState::Aborted(KeychainError::ResourceError)
    );
}

#[test]
fn failed_secret_write_takes_the_public_key_back() {
    let back = step(KeygenState::WritingSecret(kyber_deposit(0)), Event::ResourceFailed);
    assert_eq!(back, KeygenState::RollingBack(kyber_deposit(0)));
    assert_eq!(
        back.request(),
        Some(Action::RemoveFile("/tmp/keys/Kyber512_public_key_28102026.bin".to_string()))
    );
    assert_eq!(
        step(back.clone(), Event::Done),
        KeygenState::Aborted(KeychainError::ResourceError)
    );
    assert_eq!(
        step(back, Event::ResourceFailed),
        KeygenState::Aborted(KeychainError::ResourceError)
    );
}

#[test]
fn events_that_answer_nothing_change_nothing() {
    let states = [
        KeygenState::SelectFamily,
        KeygenState::SelectVariant(Scheme::Bike),
        KeygenState::AwaitFolder { pair: kyber_pair(), date: today().unwrap() },
    ];
    for state in states {
        for event in [
            Event::Done,
            vacant(),
            occupied(),
            folder_there(),
            Event::PrimitiveFailed,
            Event::ResourceFailed,
            Event::Loaded(vec![1]),
        ] {
            let (next, remark) = generate_key(state.clone(), event, today());
            assert_eq!(next, state);
            assert_eq!(remark, Remark::Nothing);
        }
    }
    let waiting = [
        KeygenState::Generating(Variant::Mayo2),
        KeygenState::InspectingFolder(kyber_deposit(0)),
        KeygenState::CreatingFolder(kyber_deposit(0)),
        KeygenState::Probing(kyber_deposit(0)),
        KeygenState::WritingPublic(kyber_deposit(0)),
        KeygenState::WritingSecret(kyber_deposit(0)),
        KeygenState::RollingBack(kyber_deposit(0)),
    ];
    for state in waiting {
        for event in [line("1"), Event::Interrupted, Event::EndOfInput, Event::ReadFailed, Event::Loaded(vec![])] {
            assert_eq!(step(state.clone(), event), state);
        }
    }
}

#[test]
fn ended_workflow_stays_ended() {
    let ended = [
        KeygenState::Completed { public_path: "a".to_string(), secret_path: "b".to_string() },
        KeygenState::Aborted(KeychainError::PrimitiveFailure),
        KeygenState::Dismissed,
    ];
    for state in ended {
        for event in [line("1"), Event::Done, Event::Interrupted, vacant()] {
            assert_eq!(step(state.clone(), event), state);
        }
    }
}

#[test]
fn deposit_paths_differ_by_role() {
    let d = kyber_deposit(4);
    assert_eq!(d.path(KeyRole::Public), "/tmp/keys/Kyber512_public_key_28102026_4.bin");
    assert_eq!(d.path(KeyRole::Secret), "/tmp/keys/Kyber512_secret_key_28102026_4.bin");
    assert_ne!(d.path(KeyRole::Public), d.path(KeyRole::Secret));
}
