use mycitadel::signer::Signer;
use mycitadel::signer::SignerSet;

fn signer(fingerprint: u32) -> Signer {
    Signer { fingerprint }
}

fn set_of(fingerprints: &[u32]) -> SignerSet {
    let mut set = SignerSet::new();
    for f in fingerprints {
        set.insert(signer(*f));
    }
    set
}

#[test]
fn new_set_is_empty() {
    let set = SignerSet::new();
    assert!(set.is_empty());
    assert_eq!(set.len(), 0);
    assert_eq!(set.to_vec(), Vec::<Signer>::new());
    assert!(!set.contains(&signer(0)));
    assert_eq!(SignerSet::default(), set);
}

#[test]
fn insert_tells_whether_the_signer_is_new() {
    let mut set = SignerSet::new();
    assert!(set.insert(signer(5)));
    assert!(set.insert(signer(3)));
    assert!(!set.insert(signer(5)));
    assert!(set.insert(signer(9)));
    assert!(!set.insert(signer(3)));
    assert!(!set.insert(signer(9)));
    assert_eq!(set.len(), 3);
    assert!(!set.is_empty());
}

#[test]
fn signers_are_kept_once_and_in_order() {
    let set = set_of(&[7, 1, 7, 4_000_000_000, 0, 1, 12, 7]);
    assert_eq!(
        set.to_vec(),
        vec![signer(0), signer(1), signer(7), signer(12), signer(4_000_000_000)]
    );
    assert_eq!(set.len(), 5);
}

#[test]
fn insert_at_either_end_and_in_the_middle() {
    let mut set = set_of(&[10, 20, 30]);
    set.insert(signer(5));
    assert_eq!(set.to_vec(), vec![signer(5), signer(10), signer(20), signer(30)]);
    set.insert(signer(35));
    assert_eq!(
        set.to_vec(),
        vec![signer(5), signer(10), signer(20), signer(30), signer(35)]
    );
    set.insert(signer(25));
    assert_eq!(
        set.to_vec(),
        vec![signer(5), signer(10), signer(20), signer(25), signer(30), signer(35)]
    );
    set.insert(signer(u32::MAX));
    set.insert(signer(0));
    assert_eq!(set.to_vec().first(), Some(&signer(0)));
    assert_eq!(set.to_vec().last(), Some(&signer(u32::MAX)));
}

#[test]
fn contains_finds_members_only() {
    let set = set_of(&[2, 4, 6, 8, 10, 12, 14]);
    for f in 0..16u32 {
        assert_eq!(set.contains(&signer(f)), f >= 2 && f % 2 == 0 && f <= 14);
    }
}

#[test]
fn subsets_are_recognised() {
    let all = set_of(&[1, 2, 3, 4]);
    assert!(SignerSet::new().is_subset(&all));
    assert!(SignerSet::new().is_subset(&SignerSet::new()));
    assert!(set_of(&[1]).is_subset(&all));
    assert!(set_of(&[4, 2]).is_subset(&all));
    assert!(all.is_subset(&all));
    assert!(!set_of(&[5]).is_subset(&all));
    assert!(!set_of(&[1, 2, 3, 4, 5]).is_subset(&all));
    assert!(!set_of(&[0, 1]).is_subset(&all));
    assert!(!all.is_subset(&SignerSet::new()));
}

#[test]
fn sets_with_the_same_signers_are_equal() {
    assert_eq!(set_of(&[1, 2, 3]), set_of(&[3, 1, 2]));
    assert_eq!(set_of(&[1, 2, 3]), set_of(&[2, 2, 3, 1, 1]));
    assert_ne!(set_of(&[1, 2, 3]), set_of(&[1, 2]));
    assert_ne!(set_of(&[1, 2, 3]), set_of(&[1, 2, 4]));
    assert_ne!(set_of(&[1, 2, 3]), set_of(&[0, 2, 3]));
    assert_ne!(set_of(&[1]), SignerSet::new());
}

#[test]
fn a_cloned_set_is_the_same_set() {
    let set = set_of(&[9, 8, 7]);
    let copy = set.clone();
    assert_eq!(copy, set);
    assert_eq!(copy.to_vec(), vec![signer(7), signer(8), signer(9)]);
}

#[test]
fn signers_are_ordered_by_fingerprint() {
    assert!(signer(1) < signer(2));
    assert!(signer(2) > signer(1));
    assert!(signer(2) == signer(2));
}
