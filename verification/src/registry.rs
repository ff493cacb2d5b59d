//! The catalogue of algorithms: schemes, their variants, the canonical name
//! and documented sizes of each variant, and the two ways to resolve one: by
//! menu index and by the name embedded in a path. The sizes are those that
//! liboqs 0.13 documents for its parameter sets.

use vstd::prelude::*;
use crate::text::{chars_of, contains, occurs_in};

verus! {

/// The two kinds of primitive the keychain offers.
#[derive(Clone, Copy, Debug, PartialEq, Eq, Structural)]
pub enum AlgorithmFamily {
    Signature,
    KeyEncapsulation,
}

/// The schemes offered by the key-type menu, in menu order. The fourth entry
/// of that menu is reserved and names no scheme.
#[derive(Clone, Copy, Debug, PartialEq, Eq, Structural)]
pub enum Scheme {
    Dilithium,
    Falcon,
    Mayo,
    Kyber,
    Hqc,
    Bike,
}

/// A parameter set of a scheme.
#[derive(Clone, Copy, Debug, PartialEq, Eq, Structural)]
pub enum Variant {
    Dilithium2,
    Dilithium3,
    Dilithium5,
    Falcon512,
    Falcon1024,
    Mayo1,
    Mayo2,
    Mayo3,
    Mayo5,
    Kyber512,
    Kyber768,
    Kyber1024,
    Hqc128,
    Hqc192,
    Hqc256,
    BikeL1,
    BikeL3,
    BikeL5,
}

/// The number of variants in the catalogue.
pub const VARIANT_COUNT: usize = 18;

/// The canonical name of a variant: the string that menus show and that file
/// names embed.
pub open spec fn canonical_name(v: Variant) -> Seq<char> {
    match v {
        Variant::Dilithium2 => "Dilithium2"@,
        Variant::Dilithium3 => "Dilithium3"@,
        Variant::Dilithium5 => "Dilithium5"@,
        Variant::Falcon512 => "Falcon512"@,
        Variant::Falcon1024 => "Falcon1024"@,
        Variant::Mayo1 => "Mayo1"@,
        Variant::Mayo2 => "Mayo2"@,
        Variant::Mayo3 => "Mayo3"@,
        Variant::Mayo5 => "Mayo5"@,
        Variant::Kyber512 => "Kyber512"@,
        Variant::Kyber768 => "Kyber768"@,
        Variant::Kyber1024 => "Kyber1024"@,
        Variant::Hqc128 => "Hqc128"@,
        Variant::Hqc192 => "Hqc192"@,
        Variant::Hqc256 => "Hqc256"@,
        Variant::BikeL1 => "BikeL1"@,
        Variant::BikeL3 => "BikeL3"@,
        Variant::BikeL5 => "BikeL5"@,
    }
}

/// The scheme a variant belongs to.
pub open spec fn scheme_of(v: Variant) -> Scheme {
    match v {
        Variant::Dilithium2 | Variant::Dilithium3 | Variant::Dilithium5 => Scheme::Dilithium,
        Variant::Falcon512 | Variant::Falcon1024 => Scheme::Falcon,
        Variant::Mayo1 | Variant::Mayo2 | Variant::Mayo3 | Variant::Mayo5 => Scheme::Mayo,
        Variant::Kyber512 | Variant::Kyber768 | Variant::Kyber1024 => Scheme::Kyber,
        Variant::Hqc128 | Variant::Hqc192 | Variant::Hqc256 => Scheme::Hqc,
        Variant::BikeL1 | Variant::BikeL3 | Variant::BikeL5 => Scheme::Bike,
    }
}

/// The kind of primitive a scheme is.
pub open spec fn family_of_scheme(s: Scheme) -> AlgorithmFamily {
    match s {
        Scheme::Dilithium | Scheme::Falcon | Scheme::Mayo => AlgorithmFamily::Signature,
        Scheme::Kyber | Scheme::Hqc | Scheme::Bike => AlgorithmFamily::KeyEncapsulation,
    }
}

/// The kind of primitive a variant is.
pub open spec fn family_of(v: Variant) -> AlgorithmFamily {
    family_of_scheme(scheme_of(v))
}

/// The length in bytes of a variant's public key.
pub open spec fn public_key_length(v: Variant) -> nat {
    match v {
        Variant::Dilithium2 => 1312,
        Variant::Dilithium3 => 1952,
        Variant::Dilithium5 => 2592,
        Variant::Falcon512 => 897,
        Variant::Falcon1024 => 1793,
        Variant::Mayo1 => 1420,
        Variant::Mayo2 => 4912,
        Variant::Mayo3 => 2986,
        Variant::Mayo5 => 5554,
        Variant::Kyber512 => 800,
        Variant::Kyber768 => 1184,
        Variant::Kyber1024 => 1568,
        Variant::Hqc128 => 2249,
        Variant::Hqc192 => 4522,
        Variant::Hqc256 => 7245,
        Variant::BikeL1 => 1541,
        Variant::BikeL3 => 3083,
        Variant::BikeL5 => 5122,
    }
}

/// The length in bytes of a variant's secret key.
pub open spec fn secret_key_length(v: Variant) -> nat {
    match v {
        Variant::Dilithium2 => 2528,
        Variant::Dilithium3 => 4000,
        Variant::Dilithium5 => 4864,
        Variant::Falcon512 => 1281,
        Variant::Falcon1024 => 2305,
        Variant::Mayo1 => 24,
        Variant::Mayo2 => 24,
        Variant::Mayo3 => 32,
        Variant::Mayo5 => 40,
        Variant::Kyber512 => 1632,
        Variant::Kyber768 => 2400,
        Variant::Kyber1024 => 3168,
        Variant::Hqc128 => 2305,
        Variant::Hqc192 => 4586,
        Variant::Hqc256 => 7317,
        Variant::BikeL1 => 5223,
        Variant::BikeL3 => 10105,
        Variant::BikeL5 => 16494,
    }
}

/// The length in bytes of the ciphertext that encapsulation under a variant
/// produces; signature variants have none.
pub open spec fn ciphertext_length(v: Variant) -> Option<nat> {
    match v {
        Variant::Kyber512 => Some(768nat),
        Variant::Kyber768 => Some(1088nat),
        Variant::Kyber1024 => Some(1568nat),
        Variant::Hqc128 => Some(4433nat),
        Variant::Hqc192 => Some(8978nat),
        Variant::Hqc256 => Some(14421nat),
        Variant::BikeL1 => Some(1573nat),
        Variant::BikeL3 => Some(3115nat),
        Variant::BikeL5 => Some(5154nat),
        _ => None,
    }
}

/// The length in bytes of the secret that encapsulation under a variant
/// shares; signature variants have none.
pub open spec fn shared_secret_length(v: Variant) -> Option<nat> {
    match scheme_of(v) {
        Scheme::Kyber | Scheme::Bike => Some(32nat),
        Scheme::Hqc => Some(64nat),
        _ => None,
    }
}

/// The scheme behind an entry of the key-type menu. Entries are numbered from
/// one; the fourth is reserved.
pub open spec fn scheme_at(choice: int) -> Option<Scheme> {
    if choice == 1 {
        Some(Scheme::Dilithium)
    } else if choice == 2 {
        Some(Scheme::Falcon)
    } else if choice == 3 {
        Some(Scheme::Mayo)
    } else if choice == 5 {
        Some(Scheme::Kyber)
    } else if choice == 6 {
        Some(Scheme::Hqc)
    } else if choice == 7 {
        Some(Scheme::Bike)
    } else {
        None
    }
}

/// The variants of a scheme, in menu order.
pub open spec fn variants_of(s: Scheme) -> Seq<Variant> {
    match s {
        Scheme::Dilithium => seq![Variant::Dilithium2, Variant::Dilithium3, Variant::Dilithium5],
        Scheme::Falcon => seq![Variant::Falcon512, Variant::Falcon1024],
        Scheme::Mayo => seq![Variant::Mayo1, Variant::Mayo2, Variant::Mayo3, Variant::Mayo5],
        Scheme::Kyber => seq![Variant::Kyber512, Variant::Kyber768, Variant::Kyber1024],
        Scheme::Hqc => seq![Variant::Hqc128, Variant::Hqc192, Variant::Hqc256],
        Scheme::Bike => seq![Variant::BikeL1, Variant::BikeL3, Variant::BikeL5],
    }
}

/// The variant a scheme falls back to when a menu index names none.
pub open spec fn default_of(s: Scheme) -> Variant {
    match s {
        Scheme::Dilithium => Variant::Dilithium2,
        Scheme::Falcon => Variant::Falcon1024,
        Scheme::Mayo => Variant::Mayo5,
        Scheme::Kyber => Variant::Kyber512,
        Scheme::Hqc => Variant::Hqc256,
        Scheme::Bike => Variant::BikeL5,
    }
}

/// The variant behind an entry of a scheme's menu, numbered from one.
pub open spec fn variant_at(s: Scheme, choice: int) -> Option<Variant> {
    if 1 <= choice <= variants_of(s).len() {
        Some(variants_of(s)[choice - 1])
    } else {
        None
    }
}

/// The variant a menu index selects: the entry it names, else the scheme's
/// default.
pub open spec fn menu_selection(s: Scheme, choice: int) -> Variant {
    match variant_at(s, choice) {
        Some(v) => v,
        None => default_of(s),
    }
}

/// Every variant, in catalogue order.
pub open spec fn catalogue() -> Seq<Variant> {
    variants_of(Scheme::Dilithium) + variants_of(Scheme::Falcon) + variants_of(Scheme::Mayo)
        + variants_of(Scheme::Kyber) + variants_of(Scheme::Hqc) + variants_of(Scheme::Bike)
}

/// The place of a variant in the catalogue.
pub open spec fn ordinal(v: Variant) -> int {
    match v {
        Variant::Dilithium2 => 0,
        Variant::Dilithium3 => 1,
        Variant::Dilithium5 => 2,
        Variant::Falcon512 => 3,
        Variant::Falcon1024 => 4,
        Variant::Mayo1 => 5,
        Variant::Mayo2 => 6,
        Variant::Mayo3 => 7,
        Variant::Mayo5 => 8,
        Variant::Kyber512 => 9,
        Variant::Kyber768 => 10,
        Variant::Kyber1024 => 11,
        Variant::Hqc128 => 12,
        Variant::Hqc192 => 13,
        Variant::Hqc256 => 14,
        Variant::BikeL1 => 15,
        Variant::BikeL3 => 16,
        Variant::BikeL5 => 17,
    }
}

/// Whether `v` is the one variant that a path names: its canonical name
/// occurs in the path, and the name of every other variant that occurs there
/// is strictly shorter.
pub open spec fn is_longest_match(path: Seq<char>, v: Variant) -> bool {
    &&& occurs_in(path, canonical_name(v))
    &&& forall|w: Variant|
        w != v && occurs_in(path, #[trigger] canonical_name(w)) ==> canonical_name(w).len()
            < canonical_name(v).len()
}

/// The variant that a path names, if exactly one variant is its longest
/// match.
pub open spec fn resolved(path: Seq<char>) -> Option<Variant> {
    if exists|v: Variant| is_longest_match(path, v) {
        Some(choose|v: Variant| is_longest_match(path, v))
    } else {
        None
    }
}

/// The catalogue lists every variant, each at its ordinal.
pub proof fn lemma_catalogue(v: Variant)
    ensures
        catalogue().len() == VARIANT_COUNT,
        0 <= ordinal(v) < VARIANT_COUNT,
        catalogue()[ordinal(v)] == v,
{
}

/// A path has at most one longest match.
pub proof fn lemma_longest_match_unique(path: Seq<char>, v: Variant, w: Variant)
    requires
        is_longest_match(path, v),
        is_longest_match(path, w),
    ensures
        v == w,
{
}

/// A path resolves to `v` exactly when `v` is its longest match.
pub proof fn lemma_resolved(path: Seq<char>, v: Variant)
    ensures
        resolved(path) == Some(v) <==> is_longest_match(path, v),
{
    if is_longest_match(path, v) {
        let c = choose|c: Variant| is_longest_match(path, c);
        lemma_longest_match_unique(path, v, c);
    }
}

impl Scheme {
    /// The kind of primitive this scheme is.
    pub fn family(self) -> (f: AlgorithmFamily)
        ensures
            f == family_of_scheme(self),
    {
        match self {
            Scheme::Dilithium | Scheme::Falcon | Scheme::Mayo => AlgorithmFamily::Signature,
            Scheme::Kyber | Scheme::Hqc | Scheme::Bike => AlgorithmFamily::KeyEncapsulation,
        }
    }

    /// The variants of this scheme, in menu order.
    pub fn variants(self) -> (vs: Vec<Variant>)
        ensures
            vs@ == variants_of(self),
    {
        let vs: Vec<Variant> = match self {
            Scheme::Dilithium => vec![Variant::Dilithium2, Variant::Dilithium3, Variant::Dilithium5],
            Scheme::Falcon => vec![Variant::Falcon512, Variant::Falcon1024],
            Scheme::Mayo => vec![Variant::Mayo1, Variant::Mayo2, Variant::Mayo3, Variant::Mayo5],
            Scheme::Kyber => vec![Variant::Kyber512, Variant::Kyber768, Variant::Kyber1024],
            Scheme::Hqc => vec![Variant::Hqc128, Variant::Hqc192, Variant::Hqc256],
            Scheme::Bike => vec![Variant::BikeL1, Variant::BikeL3, Variant::BikeL5],
        };
        assert(vs@ =~= variants_of(self));
        vs
    }

    /// The variant this scheme falls back to.
    pub fn default_variant(self) -> (v: Variant)
        ensures
            v == default_of(self),
            scheme_of(v) == self,
    {
        match self {
            Scheme::Dilithium => Variant::Dilithium2,
            Scheme::Falcon => Variant::Falcon1024,
            Scheme::Mayo => Variant::Mayo5,
            Scheme::Kyber => Variant::Kyber512,
            Scheme::Hqc => Variant::Hqc256,
            Scheme::Bike => Variant::BikeL5,
        }
    }

    /// The variant behind entry `choice` of this scheme's menu.
    pub fn variant_by_menu(self, choice: u8) -> (r: Option<Variant>)
        ensures
            r == variant_at(self, choice as int),
            r matches Some(v) ==> scheme_of(v) == self,
    {
        let vs: Vec<Variant> = self.variants();
        if 1 <= choice && choice as usize <= vs.len() {
            Some(vs[choice as usize - 1])
        } else {
            None
        }
    }
}

/// The scheme behind entry `choice` of the key-type menu.
pub fn scheme_by_menu(choice: u8) -> (r: Option<Scheme>)
    ensures
        r == scheme_at(choice as int),
{
    match choice {
        1 => Some(Scheme::Dilithium),
        2 => Some(Scheme::Falcon),
        3 => Some(Scheme::Mayo),
        5 => Some(Scheme::Kyber),
        6 => Some(Scheme::Hqc),
        7 => Some(Scheme::Bike),
        _ => None,
    }
}

/// Resolves a variant from a scheme and an entry of its menu. An index that
/// names no entry selects the scheme's default variant.
pub fn resolve_by_menu(scheme: Scheme, choice: u8) -> (v: Variant)
    ensures
        v == menu_selection(scheme, choice as int),
        scheme_of(v) == scheme,
{
    match scheme.variant_by_menu(choice) {
        Some(v) => v,
        None => scheme.default_variant(),
    }
}

impl Variant {
    /// Every variant, in catalogue order.
    pub fn all() -> (vs: Vec<Variant>)
        ensures
            vs@ == catalogue(),
            vs@.len() == VARIANT_COUNT,
    {
        let vs: Vec<Variant> = vec![
            Variant::Dilithium2,
            Variant::Dilithium3,
            Variant::Dilithium5,
            Variant::Falcon512,
            Variant::Falcon1024,
            Variant::Mayo1,
            Variant::Mayo2,
            Variant::Mayo3,
            Variant::Mayo5,
            Variant::Kyber512,
            Variant::Kyber768,
            Variant::Kyber1024,
            Variant::Hqc128,
            Variant::Hqc192,
            Variant::Hqc256,
            Variant::BikeL1,
            Variant::BikeL3,
            Variant::BikeL5,
        ];
        assert(vs@ =~= catalogue());
        vs
    }

    /// The canonical name.
    pub fn name(self) -> (s: &'static str)
        ensures
            s@ == canonical_name(self),
    {
        match self {
            Variant::Dilithium2 => "Dilithium2",
            Variant::Dilithium3 => "Dilithium3",
            Variant::Dilithium5 => "Dilithium5",
            Variant::Falcon512 => "Falcon512",
            Variant::Falcon1024 => "Falcon1024",
            Variant::Mayo1 => "Mayo1",
            Variant::Mayo2 => "Mayo2",
            Variant::Mayo3 => "Mayo3",
            Variant::Mayo5 => "Mayo5",
            Variant::Kyber512 => "Kyber512",
            Variant::Kyber768 => "Kyber768",
            Variant::Kyber1024 => "Kyber1024",
            Variant::Hqc128 => "Hqc128",
            Variant::Hqc192 => "Hqc192",
            Variant::Hqc256 => "Hqc256",
            Variant::BikeL1 => "BikeL1",
            Variant::BikeL3 => "BikeL3",
            Variant::BikeL5 => "BikeL5",
        }
    }

    /// The scheme this variant belongs to.
    pub fn scheme(self) -> (s: Scheme)
        ensures
            s == scheme_of(self),
    {
        match self {
            Variant::Dilithium2 | Variant::Dilithium3 | Variant::Dilithium5 => Scheme::Dilithium,
            Variant::Falcon512 | Variant::Falcon1024 => Scheme::Falcon,
            Variant::Mayo1 | Variant::Mayo2 | Variant::Mayo3 | Variant::Mayo5 => Scheme::Mayo,
            Variant::Kyber512 | Variant::Kyber768 | Variant::Kyber1024 => Scheme::Kyber,
            Variant::Hqc128 | Variant::Hqc192 | Variant::Hqc256 => Scheme::Hqc,
            Variant::BikeL1 | Variant::BikeL3 | Variant::BikeL5 => Scheme::Bike,
        }
    }

    /// The kind of primitive this variant is.
    pub fn family(self) -> (f: AlgorithmFamily)
        ensures
            f == family_of(self),
    {
        self.scheme().family()
    }

    /// The length in bytes of the public key.
    pub fn public_key_len(self) -> (n: usize)
        ensures
            n == public_key_length(self),
    {
        match self {
            Variant::Dilithium2 => 1312,
            Variant::Dilithium3 => 1952,
            Variant::Dilithium5 => 2592,
            Variant::Falcon512 => 897,
            Variant::Falcon1024 => 1793,
            Variant::Mayo1 => 1420,
            Variant::Mayo2 => 4912,
            Variant::Mayo3 => 2986,
            Variant::Mayo5 => 5554,
            Variant::Kyber512 => 800,
            Variant::Kyber768 => 1184,
            Variant::Kyber1024 => 1568,
            Variant::Hqc128 => 2249,
            Variant::Hqc192 => 4522,
            Variant::Hqc256 => 7245,
            Variant::BikeL1 => 1541,
            Variant::BikeL3 => 3083,
            Variant::BikeL5 => 5122,
        }
    }

    /// The length in bytes of the secret key.
    pub fn secret_key_len(self) -> (n: usize)
        ensures
            n == secret_key_length(self),
    {
        match self {
            Variant::Dilithium2 => 2528,
            Variant::Dilithium3 => 4000,
            Variant::Dilithium5 => 4864,
            Variant::Falcon512 => 1281,
            Variant::Falcon1024 => 2305,
            Variant::Mayo1 => 24,
            Variant::Mayo2 => 24,
            Variant::Mayo3 => 32,
            Variant::Mayo5 => 40,
            Variant::Kyber512 => 1632,
            Variant::Kyber768 => 2400,
            Variant::Kyber1024 => 3168,
            Variant::Hqc128 => 2305,
            Variant::Hqc192 => 4586,
            Variant::Hqc256 => 7317,
            Variant::BikeL1 => 5223,
            Variant::BikeL3 => 10105,
            Variant::BikeL5 => 16494,
        }
    }

    /// The length in bytes of a ciphertext, for a key-encapsulation variant.
    pub fn ciphertext_len(self) -> (n: Option<usize>)
        ensures
            n is Some <==> ciphertext_length(self) is Some,
            n matches Some(k) ==> ciphertext_length(self) == Some(k as nat),
            n is Some <==> family_of(self) == AlgorithmFamily::KeyEncapsulation,
    {
        match self {
            Variant::Kyber512 => Some(768),
            Variant::Kyber768 => Some(1088),
            Variant::Kyber1024 => Some(1568),
            Variant::Hqc128 => Some(4433),
            Variant::Hqc192 => Some(8978),
            Variant::Hqc256 => Some(14421),
            Variant::BikeL1 => Some(1573),
            Variant::BikeL3 => Some(3115),
            Variant::BikeL5 => Some(5154),
            _ => None,
        }
    }

    /// The length in bytes of a shared secret, for a key-encapsulation variant.
    pub fn shared_secret_len(self) -> (n: Option<usize>)
        ensures
            n is Some <==> shared_secret_length(self) is Some,
            n matches Some(k) ==> shared_secret_length(self) == Some(k as nat),
            n is Some <==> family_of(self) == AlgorithmFamily::KeyEncapsulation,
    {
        match self.scheme() {
            Scheme::Kyber | Scheme::Bike => Some(32),
            Scheme::Hqc => Some(64),
            _ => None,
        }
    }
}

/// Resolves the variant that a path names: the one whose canonical name is
/// the longest of those that occur in the path. A path that names no variant,
/// or in which two variants tie for the longest name, resolves to none.
pub fn resolve_by_filename(path: &str) -> (r: Option<Variant>)
    ensures
        r == resolved(path@),
{
    let hay: Vec<char> = chars_of(path);
    let all: Vec<Variant> = Variant::all();
    let mut found: Vec<bool> = Vec::new();
    let mut lens: Vec<usize> = Vec::new();
    let mut i: usize = 0;
    while i < all.len()
        invariant
            all@ == catalogue(),
            all@.len() == VARIANT_COUNT,
            hay@ == path@,
            i <= all@.len(),
            found@.len() == i,
            lens@.len() == i,
            forall|k: int|
                0 <= k < i ==> found@[k] == occurs_in(path@, #[trigger] canonical_name(all@[k])),
            forall|k: int| 0 <= k < i ==> lens@[k] == (#[trigger] canonical_name(all@[k])).len(),
        decreases all@.len() - i,
    {
        let name: Vec<char> = chars_of(all[i].name());
        found.push(contains(&hay, &name));
        lens.push(name.len());
        i = i + 1;
    }
    let mut c: usize = 0;
    while c < all.len()
        invariant
            all@ == catalogue(),
            all@.len() == VARIANT_COUNT,
            found@.len() == VARIANT_COUNT,
            lens@.len() == VARIANT_COUNT,
            c <= all@.len(),
            forall|k: int|
                0 <= k < VARIANT_COUNT ==> found@[k] == occurs_in(
                    path@,
                    #[trigger] canonical_name(all@[k]),
                ),
            forall|k: int|
                0 <= k < VARIANT_COUNT ==> lens@[k] == (#[trigger] canonical_name(all@[k])).len(),
            forall|k: int| 0 <= k < c ==> !is_longest_match(path@, #[trigger] all@[k]),
        decreases all@.len() - c,
    {
        if found[c] {
            let mut longest: bool = true;
            let mut o: usize = 0;
            while o < all.len()
                invariant
                    all@ == catalogue(),
                    all@.len() == VARIANT_COUNT,
                    found@.len() == VARIANT_COUNT,
                    lens@.len() == VARIANT_COUNT,
                    c < all@.len(),
                    o <= all@.len(),
                    forall|k: int|
                        0 <= k < VARIANT_COUNT ==> found@[k] == occurs_in(
                            path@,
                            #[trigger] canonical_name(all@[k]),
                        ),
                    forall|k: int|
                        0 <= k < VARIANT_COUNT ==> lens@[k] == (#[trigger] canonical_name(
                            all@[k],
                        )).len(),
                    longest <==> forall|k: int|
                        0 <= k < o && k != c && found@[k] ==> #[trigger] lens@[k] < lens@[c as int],
                decreases all@.len() - o,
            {
                if o != c && found[o] && lens[o] >= lens[c] {
                    longest = false;
                }
                o = o + 1;
            }
            proof {
                let v = all@[c as int];
                if longest {
                    assert forall|w: Variant|
                        w != v && occurs_in(
                            path@,
                            #[trigger] canonical_name(w),
                        ) implies canonical_name(w).len() < canonical_name(v).len() by {
                        lemma_catalogue(w);
                        lemma_catalogue(v);
                        let k = ordinal(w);
                        assert(all@[k] == w);
                        assert(found@[k]);
                        assert(lens@[k] < lens@[c as int]);
                    }
                    assert(is_longest_match(path@, v));
                    lemma_resolved(path@, v);
                } else {
                    let k = choose|k: int|
                        0 <= k < VARIANT_COUNT && k != c && found@[k] && !(#[trigger] lens@[k]
                            < lens@[c as int]);
                    lemma_catalogue(all@[k]);
                    lemma_catalogue(v);
                    assert(all@[k] != v);
                    assert(occurs_in(path@, canonical_name(all@[k])));
                    assert(!is_longest_match(path@, v));
                }
            }
            if longest {
                return Some(all[c]);
            }
        }
        c = c + 1;
    }
    proof {
        assert forall|v: Variant| !is_longest_match(path@, v) by {
            lemma_catalogue(v);
            assert(all@[ordinal(v)] == v);
        }
    }
    None
}

} // verus!
