use mycitadel::amount::Sats;
use mycitadel::condition::SpendingCondition;
use mycitadel::descriptor::WalletDescriptor;
use mycitadel::format::WalletFormat;
use mycitadel::network::PublicNetwork;
use mycitadel::purpose::Bip43;
use mycitadel::signer::Signer;
use mycitadel::signer::SignerSet;
use mycitadel::wallet::Psbt;
use mycitadel::wallet::Wallet;
use mycitadel::wallet::WalletState;

fn set_of(fingerprints: &[u32]) -> SignerSet {
    let mut set = SignerSet::new();
    for f in fingerprints {
        set.insert(Signer { fingerprint: *f });
    }
    set
}

fn psbt(bytes: &[u8]) -> Psbt {
    Psbt { bytes: bytes.to_vec() }
}

fn single_sig() -> WalletDescriptor {
    WalletDescriptor::with(
        WalletFormat::Bip43(Bip43::singlesig_segwit0()),
        set_of(&[0xdead_beef]),
        vec![SpendingCondition { signers: set_of(&[0xdead_beef]), required: 1 }],
        PublicNetwork::Mainnet,
    )
    .unwrap()
}

fn multi_sig() -> WalletDescriptor {
    WalletDescriptor::with(
        WalletFormat::Bip43(Bip43::multisig_segwit0()),
        set_of(&[1, 2, 3]),
        vec![SpendingCondition { signers: set_of(&[1, 2, 3]), required: 2 }],
        PublicNetwork::Mainnet,
    )
    .unwrap()
}

#[test]
fn new_wallet_holds_its_descriptor_and_nothing_else() {
    let w = Wallet::with(single_sig());
    assert_eq!(*w.as_descriptor(), single_sig());
    assert_eq!(w.to_descriptor(), single_sig());
    assert_eq!(*w.state(), WalletState::default());
    assert_eq!(w.state().balance, Sats(0));
    assert!(w.history().is_empty());
    assert!(w.wip().is_empty());
}

#[test]
fn default_wallet_is_unconfigured() {
    let w = Wallet::default();
    assert_eq!(*w.as_descriptor(), WalletDescriptor::default());
    assert_eq!(*w.state(), WalletState { balance: Sats(0) });
    assert!(w.history().is_empty());
    assert!(w.wip().is_empty());
    assert_eq!(w, Wallet::with(WalletDescriptor::default()));
}

#[test]
fn transactions_are_kept_in_their_order() {
    let mut w = Wallet::with(single_sig());
    w.push_history(psbt(&[1]));
    w.push_wip(psbt(&[9, 9]));
    w.push_history(psbt(&[2, 2]));
    w.push_history(psbt(&[]));
    w.push_wip(psbt(&[8]));
    assert_eq!(*w.history(), vec![psbt(&[1]), psbt(&[2, 2]), psbt(&[])]);
    assert_eq!(*w.wip(), vec![psbt(&[9, 9]), psbt(&[8])]);
    assert_eq!(*w.as_descriptor(), single_sig());
    assert_eq!(*w.state(), WalletState::default());
}

#[test]
fn state_is_set_as_a_whole() {
    let mut w = Wallet::with(single_sig());
    w.push_history(psbt(&[1]));
    w.update_state(WalletState { balance: Sats(21_000) });
    assert_eq!(*w.state(), WalletState { balance: Sats(21_000) });
    assert_eq!(*w.history(), vec![psbt(&[1])]);
    assert!(w.wip().is_empty());
    assert_eq!(*w.as_descriptor(), single_sig());
}

#[test]
fn another_descriptor_takes_everything_with_it() {
    let mut w = Wallet::with(single_sig());
    w.push_history(psbt(&[1, 2, 3]));
    w.push_wip(psbt(&[4, 5]));
    w.update_state(WalletState { balance: Sats(1_000_000) });
    w.set_descriptor(multi_sig());
    assert_eq!(*w.as_descriptor(), multi_sig());
    assert_eq!(*w.state(), WalletState::default());
    assert!(w.history().is_empty());
    assert!(w.wip().is_empty());
    assert_eq!(w, Wallet::with(multi_sig()));
}

#[test]
fn the_same_descriptor_again_takes_everything_too() {
    let mut w = Wallet::with(single_sig());
    w.push_history(psbt(&[1]));
    w.push_wip(psbt(&[2]));
    w.update_state(WalletState { balance: Sats(7) });
    w.set_descriptor(single_sig());
    assert_eq!(w, Wallet::with(single_sig()));
}

#[test]
fn descriptor_of_an_empty_wallet_is_replaced() {
    let mut w = Wallet::default();
    w.set_descriptor(single_sig());
    assert_eq!(w, Wallet::with(single_sig()));
    w.set_descriptor(WalletDescriptor::default());
    assert_eq!(w, Wallet::default());
}

#[test]
fn single_signer_wallet_becomes_multi_signer_wallet() {
    let d = single_sig();
    assert_eq!(d.format(), WalletFormat::Bip43(Bip43::Bip84));
    assert_eq!(d.signers().len(), 1);
    assert_eq!(d.network(), PublicNetwork::Mainnet);
    let mut w = Wallet::with(d);
    w.push_history(psbt(&[0x70, 0x73, 0x62, 0x74, 0xff, 1]));
    w.push_history(psbt(&[0x70, 0x73, 0x62, 0x74, 0xff, 2]));
    w.push_history(psbt(&[0x70, 0x73, 0x62, 0x74, 0xff, 3]));
    assert_eq!(w.history().len(), 3);
    let next = multi_sig();
    assert_eq!(next.format(), WalletFormat::Bip43(Bip43::Bip48Native));
    w.set_descriptor(next.clone());
    assert!(w.history().is_empty());
    assert_eq!(w.state().balance, Sats::default());
    assert_eq!(w.state().balance, Sats(0));
    assert_eq!(*w.as_descriptor(), next);
    assert_eq!(w.to_descriptor(), next);
}

#[test]
fn a_cloned_wallet_is_the_same_wallet() {
    let mut w = Wallet::with(multi_sig());
    w.push_history(psbt(&[1]));
    w.push_wip(psbt(&[2]));
    w.update_state(WalletState { balance: Sats(3) });
    let copy = w.clone();
    assert_eq!(copy, w);
    assert_eq!(*copy.history(), vec![psbt(&[1])]);
    assert_eq!(*copy.wip(), vec![psbt(&[2])]);
    assert_eq!(copy.state().balance, Sats(3));
    assert_eq!(*copy.as_descriptor(), multi_sig());
}

#[test]
fn wallets_differ_by_any_part() {
    let mut base = Wallet::with(multi_sig());
    base.push_history(psbt(&[1]));
    base.push_wip(psbt(&[2]));
    let mut other = base.clone();
    other.update_state(WalletState { balance: Sats(1) });
    assert_ne!(other, base);
    let mut other = base.clone();
    other.push_history(psbt(&[1]));
    assert_ne!(other, base);
    let mut other = base.clone();
    other.push_wip(psbt(&[]));
    assert_ne!(other, base);
    let mut other = Wallet::with(single_sig());
    other.push_history(psbt(&[1]));
    other.push_wip(psbt(&[2]));
    assert_ne!(other, base);
    let mut other = Wallet::with(multi_sig());
    other.push_history(psbt(&[9]));
    other.push_wip(psbt(&[2]));
    assert_ne!(other, base);
}

#[test]
fn transactions_compare_by_their_bytes() {
    assert_eq!(psbt(&[1, 2]), psbt(&[1, 2]));
    assert_ne!(psbt(&[1, 2]), psbt(&[1, 3]));
    assert_ne!(psbt(&[1, 2]), psbt(&[1]));
    assert_eq!(psbt(&[1, 2]).clone(), psbt(&[1, 2]));
}
