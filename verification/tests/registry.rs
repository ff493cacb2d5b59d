use openquantumkeychain::registry::{
    resolve_by_filename, resolve_by_menu, scheme_by_menu, AlgorithmFamily, Scheme, Variant,
};

#[test]
fn catalogue_lists_eighteen_distinct_variants() {
    let all = Variant::all();
    assert_eq!(all.len(), 18);
    for i in 0..all.len() {
        for j in 0..all.len() {
            assert_eq!(all[i] == all[j], i == j);
            assert_eq!(all[i].name() == all[j].name(), i == j);
        }
    }
}

#[test]
fn canonical_names_are_the_documented_ones() {
    let names: Vec<&str> = Variant::all().iter().map(|v| v.name()).collect();
    assert_eq!(
        names,
        vec![
            "Dilithium2", "Dilithium3", "Dilithium5", "Falcon512", "Falcon1024", "Mayo1", "Mayo2",
            "Mayo3", "Mayo5", "Kyber512", "Kyber768", "Kyber1024", "Hqc128", "Hqc192", "Hqc256",
            "BikeL1", "BikeL3", "BikeL5",
        ]
    );
}

#[test]
fn schemes_split_into_signatures_and_encapsulation() {
    assert_eq!(Scheme::Dilithium.family(), AlgorithmFamily::Signature);
    assert_eq!(Scheme::Falcon.family(), AlgorithmFamily::Signature);
    assert_eq!(Scheme::Mayo.family(), AlgorithmFamily::Signature);
    assert_eq!(Scheme::Kyber.family(), AlgorithmFamily::KeyEncapsulation);
    assert_eq!(Scheme::Hqc.family(), AlgorithmFamily::KeyEncapsulation);
    assert_eq!(Scheme::Bike.family(), AlgorithmFamily::KeyEncapsulation);
    assert_eq!(Variant::Mayo3.family(), AlgorithmFamily::Signature);
    assert_eq!(Variant::BikeL3.family(), AlgorithmFamily::KeyEncapsulation);
    assert_eq!(Variant::Falcon1024.scheme(), Scheme::Falcon);
    assert_eq!(Variant::Hqc192.scheme(), Scheme::Hqc);
}

#[test]
fn every_variant_is_listed_under_its_scheme() {
    for v in Variant::all() {
        assert!(v.scheme().variants().contains(&v));
        assert_eq!(v.family(), v.scheme().family());
    }
}

#[test]
fn key_type_menu_maps_one_to_seven_and_reserves_four() {
    assert_eq!(scheme_by_menu(1), Some(Scheme::Dilithium));
    assert_eq!(scheme_by_menu(2), Some(Scheme::Falcon));
    assert_eq!(scheme_by_menu(3), Some(Scheme::Mayo));
    assert_eq!(scheme_by_menu(4), None);
    assert_eq!(scheme_by_menu(5), Some(Scheme::Kyber));
    assert_eq!(scheme_by_menu(6), Some(Scheme::Hqc));
    assert_eq!(scheme_by_menu(7), Some(Scheme::Bike));
    assert_eq!(scheme_by_menu(0), None);
    assert_eq!(scheme_by_menu(8), None);
    assert_eq!(scheme_by_menu(9), None);
    assert_eq!(scheme_by_menu(255), None);
}

#[test]
fn menu_index_selects_the_variant_in_menu_order() {
    assert_eq!(resolve_by_menu(Scheme::Dilithium, 1), Variant::Dilithium2);
    assert_eq!(resolve_by_menu(Scheme::Dilithium, 2), Variant::Dilithium3);
    assert_eq!(resolve_by_menu(Scheme::Dilithium, 3), Variant::Dilithium5);
    assert_eq!(resolve_by_menu(Scheme::Falcon, 1), Variant::Falcon512);
    assert_eq!(resolve_by_menu(Scheme::Falcon, 2), Variant::Falcon1024);
    assert_eq!(resolve_by_menu(Scheme::Mayo, 1), Variant::Mayo1);
    assert_eq!(resolve_by_menu(Scheme::Mayo, 2), Variant::Mayo2);
    assert_eq!(resolve_by_menu(Scheme::Mayo, 3), Variant::Mayo3);
    assert_eq!(resolve_by_menu(Scheme::Mayo, 4), Variant::Mayo5);
    assert_eq!(resolve_by_menu(Scheme::Kyber, 1), Variant::Kyber512);
    assert_eq!(resolve_by_menu(Scheme::Kyber, 2), Variant::Kyber768);
    assert_eq!(resolve_by_menu(Scheme::Kyber, 3), Variant::Kyber1024);
    assert_eq!(resolve_by_menu(Scheme::Hqc, 1), Variant::Hqc128);
    assert_eq!(resolve_by_menu(Scheme::Hqc, 2), Variant::Hqc192);
    assert_eq!(resolve_by_menu(Scheme::Hqc, 3), Variant::Hqc256);
    assert_eq!(resolve_by_menu(Scheme::Bike, 1), Variant::BikeL1);
    assert_eq!(resolve_by_menu(Scheme::Bike, 2), Variant::BikeL3);
    assert_eq!(resolve_by_menu(Scheme::Bike, 3), Variant::BikeL5);
}

#[test]
fn invalid_menu_index_falls_back_to_the_scheme_default() {
    assert_eq!(resolve_by_menu(Scheme::Dilithium, 0), Variant::Dilithium2);
    assert_eq!(resolve_by_menu(Scheme::Dilithium, 4), Variant::Dilithium2);
    assert_eq!(resolve_by_menu(Scheme::Falcon, 3), Variant::Falcon1024);
    assert_eq!(resolve_by_menu(Scheme::Mayo, 5), Variant::Mayo5);
    assert_eq!(resolve_by_menu(Scheme::Kyber, 9), Variant::Kyber512);
    assert_eq!(resolve_by_menu(Scheme::Hqc, 0), Variant::Hqc256);
    assert_eq!(resolve_by_menu(Scheme::Bike, 200), Variant::BikeL5);
    assert_eq!(Scheme::Dilithium.default_variant(), Variant::Dilithium2);
    assert_eq!(Scheme::Falcon.default_variant(), Variant::Falcon1024);
    assert_eq!(Scheme::Mayo.default_variant(), Variant::Mayo5);
    assert_eq!(Scheme::Kyber.default_variant(), Variant::Kyber512);
    assert_eq!(Scheme::Hqc.default_variant(), Variant::Hqc256);
    assert_eq!(Scheme::Bike.default_variant(), Variant::BikeL5);
}

#[test]
fn variant_by_menu_tells_an_invalid_index() {
    assert_eq!(Scheme::Falcon.variant_by_menu(2), Some(Variant::Falcon1024));
    assert_eq!(Scheme::Falcon.variant_by_menu(3), None);
    assert_eq!(Scheme::Falcon.variant_by_menu(0), None);
    assert_eq!(Scheme::Mayo.variant_by_menu(4), Some(Variant::Mayo5));
}

#[test]
fn documented_sizes_of_kyber() {
    assert_eq!(Variant::Kyber512.public_key_len(), 800);
    assert_eq!(Variant::Kyber512.secret_key_len(), 1632);
    assert_eq!(Variant::Kyber512.ciphertext_len(), Some(768));
    assert_eq!(Variant::Kyber512.shared_secret_len(), Some(32));
    assert_eq!(Variant::Kyber768.public_key_len(), 1184);
    assert_eq!(Variant::Kyber768.secret_key_len(), 2400);
    assert_eq!(Variant::Kyber768.ciphertext_len(), Some(1088));
    assert_eq!(Variant::Kyber1024.public_key_len(), 1568);
    assert_eq!(Variant::Kyber1024.secret_key_len(), 3168);
    assert_eq!(Variant::Kyber1024.ciphertext_len(), Some(1568));
}

#[test]
fn documented_sizes_of_the_other_schemes() {
    assert_eq!(Variant::Hqc128.public_key_len(), 2249);
    assert_eq!(Variant::Hqc128.secret_key_len(), 2305);
    assert_eq!(Variant::Hqc128.ciphertext_len(), Some(4433));
    assert_eq!(Variant::Hqc256.shared_secret_len(), Some(64));
    assert_eq!(Variant::BikeL1.public_key_len(), 1541);
    assert_eq!(Variant::BikeL5.secret_key_len(), 16494);
    assert_eq!(Variant::BikeL3.ciphertext_len(), Some(3115));
    assert_eq!(Variant::BikeL3.shared_secret_len(), Some(32));
    assert_eq!(Variant::Dilithium2.public_key_len(), 1312);
    assert_eq!(Variant::Dilithium5.secret_key_len(), 4864);
    assert_eq!(Variant::Falcon512.public_key_len(), 897);
    assert_eq!(Variant::Falcon1024.secret_key_len(), 2305);
    assert_eq!(Variant::Mayo1.public_key_len(), 1420);
    assert_eq!(Variant::Mayo5.secret_key_len(), 40);
}

#[test]
fn signature_variants_have_no_ciphertext() {
    for v in Variant::all() {
        let encapsulates = v.family() == AlgorithmFamily::KeyEncapsulation;
        assert_eq!(v.ciphertext_len().is_some(), encapsulates);
        assert_eq!(v.shared_secret_len().is_some(), encapsulates);
    }
}

#[test]
fn path_resolves_to_the_variant_it_names() {
    assert_eq!(
        resolve_by_filename("/tmp/keys/Kyber512_secret_key_28102026.bin"),
        Some(Variant::Kyber512)
    );
    assert_eq!(resolve_by_filename("Hqc192_public_key_01012025.bin"), Some(Variant::Hqc192));
    assert_eq!(resolve_by_filename("BikeL3"), Some(Variant::BikeL3));
    assert_eq!(resolve_by_filename("xxMayo2yy"), Some(Variant::Mayo2));
    assert_eq!(resolve_by_filename("keys/Falcon1024.key"), Some(Variant::Falcon1024));
}

#[test]
fn path_without_a_name_resolves_to_none() {
    assert_eq!(resolve_by_filename(""), None);
    assert_eq!(resolve_by_filename("/tmp/keys/secret.bin"), None);
    assert_eq!(resolve_by_filename("kyber512_secret_key.bin"), None);
    assert_eq!(resolve_by_filename("KYBER512"), None);
    assert_eq!(resolve_by_filename("Kyber51"), None);
    assert_eq!(resolve_by_filename("BIKE1L1_secret_key.bin"), None);
    assert_eq!(resolve_by_filename("HQC128_secret_key.bin"), None);
    assert_eq!(resolve_by_filename("Kyber_512"), None);
}

#[test]
fn longest_name_wins_and_ties_resolve_to_none() {
    assert_eq!(resolve_by_filename("Kyber512/Kyber1024_secret_key.bin"), Some(Variant::Kyber1024));
    assert_eq!(resolve_by_filename("Mayo1/Dilithium3.bin"), Some(Variant::Dilithium3));
    assert_eq!(resolve_by_filename("Kyber512/Kyber768_secret_key.bin"), None);
    assert_eq!(resolve_by_filename("Hqc128_BikeL1"), None);
    assert_eq!(resolve_by_filename("Kyber512/Kyber512.bin"), Some(Variant::Kyber512));
    assert_eq!(resolve_by_filename("Kyber5120"), Some(Variant::Kyber512));
}
