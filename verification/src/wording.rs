//! The fixed text of the command-line surface: the lines of each menu and
//! the lines that report a notice.

use vstd::prelude::*;
use vstd::string::*;
use crate::error::KeychainError;
use crate::persistence::decimal_text;
use crate::protocol::{Menu, Notice, NoticeView};
use crate::registry::{canonical_name, variants_of, Scheme, Variant};
use crate::text::{decimal, lines_of};

verus! {

/// The mark that stands before the cursor at every prompt.
pub open spec fn prompt_mark() -> Seq<char> {
    ">> "@
}

/// The name of a scheme in the heading of its menu.
pub open spec fn scheme_title(s: Scheme) -> Seq<char> {
    match s {
        Scheme::Dilithium => "Dilithium"@,
        Scheme::Falcon => "Falcon"@,
        Scheme::Mayo => "Mayo"@,
        Scheme::Kyber => "Kyber"@,
        Scheme::Hqc => "HQC"@,
        Scheme::Bike => "Bike"@,
    }
}

/// A numbered entry of a menu.
pub open spec fn entry_line(index: nat, label: Seq<char>) -> Seq<char> {
    decimal(index) + ". "@ + label
}

/// The entries of a scheme's menu: its variants by canonical name, numbered
/// from one.
pub open spec fn variant_entries(vs: Seq<Variant>) -> Seq<Seq<char>> {
    Seq::new(vs.len(), |i: int| entry_line((i + 1) as nat, canonical_name(vs[i])))
}

/// The lines of a menu.
pub open spec fn menu_lines(menu: Menu) -> Seq<Seq<char>> {
    match menu {
        Menu::TopLevel => seq![
            "Choose an option:"@,
            "1. Generate a Key"@,
            "2. Encrypt a File"@,
            "3. Decrypt a File"@,
            "4. Sign a file"@,
            "5. Verify a signature"@,
            "6. Exit"@,
        ],
        Menu::KeyType => seq![
            "Choose key type"@,
            "0. Exit"@,
            "1. Dilithium (Signature)"@,
            "2. Falcon (Signature)"@,
            "3. Mayo (Signature)"@,
            "4. MlDsa (Signature)"@,
            "5. Kyber (Encryption)"@,
            "6. hqc (Encryption)"@,
            "7. Bike (Encryption)"@,
        ],
        Menu::Variants(s) => seq!["Choose "@ + scheme_title(s) + " variant:"@] + variant_entries(
            variants_of(s),
        ),
        Menu::OutputFolder => seq!["Enter the folder path where you want to save the keys:"@],
        Menu::KeyFile => seq!["Enter the path to your private key file:"@],
        Menu::TargetFile => seq!["Enter the path to the file you want to encrypt:"@],
    }
}

/// The sentence that reports an error.
pub open spec fn error_message(e: KeychainError) -> Seq<char> {
    match e {
        KeychainError::UserInputError => "Invalid choice. Please try again."@,
        KeychainError::UnknownAlgorithm => "Unknown algorithm in private key file name."@,
        KeychainError::ResourceError => "Failed to read or write a file or folder."@,
        KeychainError::PrimitiveFailure => "The cryptographic primitive failed."@,
        KeychainError::InterruptSignal => "Operation interrupted."@,
    }
}

/// The lines that report a notice.
pub open spec fn notice_lines(n: NoticeView) -> Seq<Seq<char>> {
    match n {
        NoticeView::Nothing => Seq::<Seq<char>>::empty(),
        NoticeView::Error(e) => seq![error_message(e)],
        NoticeView::DefaultUsed(v) => seq![
            "Invalid choice, using default ("@ + canonical_name(v) + ")."@,
        ],
        NoticeView::KeysSaved { public_path, secret_path } => seq![
            "Keys have been saved to:"@,
            "Public Key: "@ + public_path,
            "Secret Key: "@ + secret_path,
        ],
        NoticeView::Encrypted { path } => seq![
            "File encrypted successfully. Encrypted file saved to: "@ + path,
        ],
        NoticeView::Leaving => seq!["Exiting..."@],
    }
}

/// One line, as an owned string.
fn line(text: &str) -> (s: String)
    ensures
        s@ == text@,
{
    String::from_str(text)
}

/// Two pieces of text, joined.
fn joined(head: &str, tail: &str) -> (s: String)
    ensures
        s@ == head@ + tail@,
{
    let mut s: String = String::from_str(head);
    s.append(tail);
    s
}

impl Scheme {
    /// The name of this scheme in the heading of its menu.
    pub fn title(self) -> (s: &'static str)
        ensures
            s@ == scheme_title(self),
    {
        match self {
            Scheme::Dilithium => "Dilithium",
            Scheme::Falcon => "Falcon",
            Scheme::Mayo => "Mayo",
            Scheme::Kyber => "Kyber",
            Scheme::Hqc => "HQC",
            Scheme::Bike => "Bike",
        }
    }
}

impl KeychainError {
    /// The sentence that reports this error.
    pub fn message(self) -> (s: &'static str)
        ensures
            s@ == error_message(self),
    {
        match self {
            KeychainError::UserInputError => "Invalid choice. Please try again.",
            KeychainError::UnknownAlgorithm => "Unknown algorithm in private key file name.",
            KeychainError::ResourceError => "Failed to read or write a file or folder.",
            KeychainError::PrimitiveFailure => "The cryptographic primitive failed.",
            KeychainError::InterruptSignal => "Operation interrupted.",
        }
    }
}

impl Menu {
    /// The mark that stands before the cursor at every prompt.
    pub fn mark() -> (s: &'static str)
        ensures
            s@ == prompt_mark(),
    {
        ">> "
    }

    /// The lines to show for this menu.
    pub fn lines(self) -> (r: Vec<String>)
        ensures
            lines_of(r@) == menu_lines(self),
    {
        let mut r: Vec<String> = Vec::new();
        match self {
            Menu::TopLevel => {
                r.push(line("Choose an option:"));
                r.push(line("1. Generate a Key"));
                r.push(line("2. Encrypt a File"));
                r.push(line("3. Decrypt a File"));
                r.push(line("4. Sign a file"));
                r.push(line("5. Verify a signature"));
                r.push(line("6. Exit"));
            },
            Menu::KeyType => {
                r.push(line("Choose key type"));
                r.push(line("0. Exit"));
                r.push(line("1. Dilithium (Signature)"));
                r.push(line("2. Falcon (Signature)"));
                r.push(line("3. Mayo (Signature)"));
                r.push(line("4. MlDsa (Signature)"));
                r.push(line("5. Kyber (Encryption)"));
                r.push(line("6. hqc (Encryption)"));
                r.push(line("7. Bike (Encryption)"));
            },
            Menu::Variants(s) => {
                let mut heading: String = joined("Choose ", s.title());
                heading.append(" variant:");
                r.push(heading);
                let vs: Vec<Variant> = s.variants();
                let mut i: usize = 0;
                while i < vs.len()
                    invariant
                        vs@ == variants_of(s),
                        vs@.len() <= 4,
                        i <= vs@.len(),
                        r@.len() == i + 1,
                        lines_of(r@)[0] == "Choose "@ + scheme_title(s) + " variant:"@,
                        forall|k: int|
                            0 <= k < i ==> #[trigger] lines_of(r@)[k + 1] == variant_entries(vs@)[k],
                    decreases vs@.len() - i,
                {
                    let ghost before = r@;
                    let mut entry: String = decimal_text((i + 1) as u32);
                    entry.append(". ");
                    entry.append(vs[i].name());
                    r.push(entry);
                    assert forall|k: int| 0 <= k < i + 1 implies #[trigger] lines_of(r@)[k + 1]
                        == variant_entries(vs@)[k] by {
                        if k < i {
                            assert(lines_of(r@)[k + 1] == lines_of(before)[k + 1]);
                        }
                    }
                    assert(lines_of(r@)[0] == lines_of(before)[0]);
                    i = i + 1;
                }
            },
            Menu::OutputFolder => {
                r.push(line("Enter the folder path where you want to save the keys:"));
            },
            Menu::KeyFile => {
                r.push(line("Enter the path to your private key file:"));
            },
            Menu::TargetFile => {
                r.push(line("Enter the path to the file you want to encrypt:"));
            },
        }
        assert(lines_of(r@) =~= menu_lines(self));
        r
    }
}

impl Notice {
    /// The lines that report this notice.
    pub fn lines(&self) -> (r: Vec<String>)
        ensures
            lines_of(r@) == notice_lines(self@),
    {
        let mut r: Vec<String> = Vec::new();
        match self {
            Notice::Nothing => {},
            Notice::Error(e) => {
                r.push(line(e.message()));
            },
            Notice::DefaultUsed(v) => {
                let mut s: String = joined("Invalid choice, using default (", v.name());
                s.append(").");
                r.push(s);
            },
            Notice::KeysSaved { public_path, secret_path } => {
                r.push(line("Keys have been saved to:"));
                r.push(joined("Public Key: ", public_path.as_str()));
                r.push(joined("Secret Key: ", secret_path.as_str()));
            },
            Notice::Encrypted { path } => {
                r.push(joined("File encrypted successfully. Encrypted file saved to: ", path.as_str()));
            },
            Notice::Leaving => {
                r.push(line("Exiting..."));
            },
        }
        assert(lines_of(r@) =~= notice_lines(self@));
        r
    }
}

} // verus!
