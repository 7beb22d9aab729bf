use solspace::auth::check_authority;
use solspace::auth::AuthDecision;
use solspace::auth::Identity;
use solspace::record::tier_label;

#[test]
fn tier_labels_name_the_bands() {
    assert_eq!(tier_label(1), "Rising Content");
    assert_eq!(tier_label(2), "Trending Content");
    assert_eq!(tier_label(3), "Viral Content");
    assert_eq!(tier_label(0), "Content NFT");
    assert_eq!(tier_label(4), "Content NFT");
    assert_eq!(tier_label(255), "Content NFT");
}

#[test]
fn authority_check_is_exact_identity_equality() {
    let a = Identity { key: 42 };
    let same = Identity { key: 42 };
    let other = Identity { key: 43 };
    assert_eq!(check_authority(a, same), AuthDecision::Allowed);
    assert_eq!(check_authority(a, other), AuthDecision::Denied);
    assert_eq!(check_authority(other, a), AuthDecision::Denied);
}
