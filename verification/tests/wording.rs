use openquantumkeychain::error::KeychainError;
use openquantumkeychain::protocol::{Menu, Notice, Remark};
use openquantumkeychain::registry::{Scheme, Variant};

#[test]
fn prompt_mark_is_two_angles_and_a_space() {
    assert_eq!(Menu::mark(), ">> ");
}

#[test]
fn menu_of_operations_has_six_entries() {
    assert_eq!(
        Menu::TopLevel.lines(),
        vec![
            "Choose an option:",
            "1. Generate a Key",
            "2. Encrypt a File",
            "3. Decrypt a File",
            "4. Sign a file",
            "5. Verify a signature",
            "6. Exit",
        ]
    );
}

#[test]
fn scheme_menu_has_seven_entries_and_the_way_back() {
    assert_eq!(
        Menu::KeyType.lines(),
        vec![
            "Choose key type",
            "0. Exit",
            "1. Dilithium (Signature)",
            "2. Falcon (Signature)",
            "3. Mayo (Signature)",
            "4. MlDsa (Signature)",
            "5. Kyber (Encryption)",
            "6. hqc (Encryption)",
            "7. Bike (Encryption)",
        ]
    );
}

#[test]
fn variant_menus_number_the_canonical_names() {
    assert_eq!(
        Menu::Variants(Scheme::Dilithium).lines(),
        vec!["Choose Dilithium variant:", "1. Dilithium2", "2. Dilithium3", "3. Dilithium5"]
    );
    assert_eq!(
        Menu::Variants(Scheme::Falcon).lines(),
        vec!["Choose Falcon variant:", "1. Falcon512", "2. Falcon1024"]
    );
    assert_eq!(
        Menu::Variants(Scheme::Mayo).lines(),
        vec!["Choose Mayo variant:", "1. Mayo1", "2. Mayo2", "3. Mayo3", "4. Mayo5"]
    );
    assert_eq!(
        Menu::Variants(Scheme::Kyber).lines(),
        vec!["Choose Kyber variant:", "1. Kyber512", "2. Kyber768", "3. Kyber1024"]
    );
    assert_eq!(
        Menu::Variants(Scheme::Hqc).lines(),
        vec!["Choose HQC variant:", "1. Hqc128", "2. Hqc192", "3. Hqc256"]
    );
    assert_eq!(
        Menu::Variants(Scheme::Bike).lines(),
        vec!["Choose Bike variant:", "1. BikeL1", "2. BikeL3", "3. BikeL5"]
    );
}

#[test]
fn path_prompts_are_one_line_each() {
    assert_eq!(
        Menu::OutputFolder.lines(),
        vec!["Enter the folder path where you want to save the keys:"]
    );
    assert_eq!(Menu::KeyFile.lines(), vec!["Enter the path to your private key file:"]);
    assert_eq!(Menu::TargetFile.lines(), vec!["Enter the path to the file you want to encrypt:"]);
}

#[test]
fn every_error_has_its_sentence() {
    assert_eq!(KeychainError::UserInputError.message(), "Invalid choice. Please try again.");
    assert_eq!(
        KeychainError::UnknownAlgorithm.message(),
        "Unknown algorithm in private key file name."
    );
    assert_eq!(KeychainError::ResourceError.message(), "Failed to read or write a file or folder.");
    assert_eq!(KeychainError::PrimitiveFailure.message(), "The cryptographic primitive failed.");
    assert_eq!(KeychainError::InterruptSignal.message(), "Operation interrupted.");
}

#[test]
fn notices_are_reported_in_lines() {
    assert_eq!(Notice::Nothing.lines(), Vec::<String>::new());
    assert_eq!(
        Notice::Error(KeychainError::UserInputError).lines(),
        vec!["Invalid choice. Please try again."]
    );
    assert_eq!(
        Notice::DefaultUsed(Variant::Falcon1024).lines(),
        vec!["Invalid choice, using default (Falcon1024)."]
    );
    assert_eq!(
        Notice::KeysSaved { public_path: "a/p.bin".to_string(), secret_path: "a/s.bin".to_string() }
            .lines(),
        vec!["Keys have been saved to:", "Public Key: a/p.bin", "Secret Key: a/s.bin"]
    );
    assert_eq!(
        Notice::Encrypted { path: "message.txt.enc".to_string() }.lines(),
        vec!["File encrypted successfully. Encrypted file saved to: message.txt.enc"]
    );
    assert_eq!(Notice::Leaving.lines(), vec!["Exiting..."]);
}

#[test]
fn remarks_become_notices() {
    assert_eq!(Remark::Nothing.notice(), Notice::Nothing);
    assert_eq!(Remark::InvalidChoice.notice(), Notice::Error(KeychainError::UserInputError));
    assert_eq!(Remark::DefaultUsed(Variant::Mayo5).notice(), Notice::DefaultUsed(Variant::Mayo5));
}

#[test]
fn scheme_titles() {
    assert_eq!(Scheme::Hqc.title(), "HQC");
    assert_eq!(Scheme::Kyber.title(), "Kyber");
}
