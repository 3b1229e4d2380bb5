use identidock::identity::salt;

#[test]
fn derive_concrete_scenario() {
    // SHA-256 of the UTF-8 bytes "Joe BloggsUNIQUE_SAL", lowercase hex.
    assert_eq!(
        identidock::identity::derive("Joe Bloggs"),
        "83f13523179c07d3c09b157d681e5e548a497ffa141f95ee5faa2adf14fc12c0"
    );
}

#[test]
fn salt_constant() {
    assert_eq!(salt(), "UNIQUE_SAL");
}

#[test]
fn derive_empty_name() {
    // SHA-256 of "UNIQUE_SAL" alone: the empty name is a legal input.
    assert_eq!(
        identidock::identity::derive(""),
        "b788ede5e2baed3aa0ac4759fe9102a1574013ec4860eeedb8a9c43d5100222d"
    );
}

#[test]
fn derive_known_single_characters() {
    assert_eq!(
        identidock::identity::derive("a"),
        "3216cca556eb8aa9fce6c82bb52b93635278c748f01ad99a48d3eacda8bdd6b2"
    );
    assert_eq!(
        identidock::identity::derive("b"),
        "37fbec1e87b9273ef2cbcd3f37c5c3a511975fb3f176bc85e0abe6e903c1509b"
    );
}

#[test]
fn derive_deterministic() {
    for name in ["", "Joe Bloggs", "a", "caf\u{e9} \u{1F600}", "UNIQUE_SAL"] {
        assert_eq!(
            identidock::identity::derive(name),
            identidock::identity::derive(name)
        );
    }
}

#[test]
fn derive_shape() {
    for name in ["", "Joe Bloggs", "x", "caf\u{e9}"] {
        let id = identidock::identity::derive(name);
        assert_eq!(id.len(), 64);
        assert!(id.chars().all(|c| c.is_ascii_hexdigit() && !c.is_ascii_uppercase()));
    }
}

#[test]
fn derive_sensitivity_sample() {
    let names = [
        "", "a", "b", "ab", "ba", "Joe Bloggs", "joe bloggs", "Joe Bloggs ",
        "UNIQUE_SAL", "name", "Name", "caf\u{e9}", "cafe", "\u{1F600}",
        "0", "1", "00", "identidock", "monster", " ",
    ];
    let ids: Vec<String> = names.iter().map(|n| identidock::identity::derive(n)).collect();
    for i in 0..ids.len() {
        for j in 0..ids.len() {
            if i != j {
                assert_ne!(ids[i], ids[j], "names {:?} and {:?}", names[i], names[j]);
            }
        }
    }
}

#[test]
fn derive_salting_distinguishes_concatenations() {
    // The salt is appended after the name, so these two differ.
    assert_ne!(
        identidock::identity::derive("aU"),
        identidock::identity::derive("a")
    );
}
