use elronom::contract::ElronomContract;
use elronom::level::calculate_level;
use elronom::preimage::verification_preimage;
use elronom::types::{EducationalNFTType, ElronomError, QuestType};

const OWNER: u64 = 1;
const EDUCATOR: u64 = 2;
const ALICE: u64 = 10;
const BOB: u64 = 11;

fn ledger() -> ElronomContract {
    ElronomContract::init(OWNER)
}

fn ledger_with_educator() -> ElronomContract {
    let mut c = ledger();
    assert_eq!(c.add_authorized_educator(OWNER, EDUCATOR), Ok(()));
    c
}

#[test]
fn level_formula_values() {
    assert_eq!(calculate_level(0), 0);
    assert_eq!(calculate_level(99), 0);
    assert_eq!(calculate_level(100), 1);
    assert_eq!(calculate_level(399), 1);
    assert_eq!(calculate_level(400), 2);
    assert_eq!(calculate_level(900), 3);
    assert_eq!(calculate_level(10000), 10);
    assert_eq!(calculate_level(999_999), 99);
    assert_eq!(calculate_level(1_000_000), 100);
    assert_eq!(calculate_level(u32::MAX), 100);
}

#[test]
fn fresh_progress_starts_at_level_one() {
    let c = ledger();
    let p = c.get_user_progress(ALICE, 77);
    assert_eq!(p.total_xp, 0);
    assert_eq!(p.level, 1);
    assert_eq!(p.completed_quests, 0);
    assert_eq!(p.badges_earned, 0);
    assert_eq!(p.prediction_accuracy, 0);
    assert_eq!(p.last_activity, 77);
}

#[test]
fn create_quest_checks_difficulty_and_reward() {
    let mut c = ledger();
    assert_eq!(c.create_quest(OWNER, QuestType::Daily, 6, 10, 0, vec![]), Err(ElronomError::InvalidRange));
    assert_eq!(c.create_quest(OWNER, QuestType::Daily, 0, 10, 0, vec![]), Err(ElronomError::InvalidRange));
    assert_eq!(c.create_quest(OWNER, QuestType::Daily, 3, 0, 0, vec![]), Err(ElronomError::InvalidRange));
    assert!(c.get_quest_details(1).is_err());
    assert_eq!(c.create_quest(OWNER, QuestType::Epic, 5, 1, 0, b"read".to_vec()), Ok(1));
    assert_eq!(c.create_quest(OWNER, QuestType::Weekly, 1, 50, 7, vec![]), Ok(2));
    let q = c.get_quest_details(1).unwrap();
    assert_eq!(q.quest_id, 1);
    assert_eq!(q.quest_type, QuestType::Epic);
    assert_eq!(q.difficulty, 5);
    assert_eq!(q.xp_reward, 1);
    assert_eq!(q.completion_criteria, b"read".to_vec());
    assert!(q.is_active);
    assert_eq!(c.get_quest_details(2).unwrap().egld_reward, 7);
}

#[test]
fn create_quest_is_owner_only() {
    let mut c = ledger_with_educator();
    assert_eq!(c.create_quest(EDUCATOR, QuestType::Daily, 2, 10, 0, vec![]), Err(ElronomError::PermissionDenied));
    assert!(c.get_quest_details(1).is_err());
}

#[test]
fn unknown_quest_is_not_found() {
    let mut c = ledger();
    assert_eq!(c.complete_quest(ALICE, 1, 50, 5).unwrap_err(), ElronomError::NotFound);
    assert_eq!(c.complete_quest(ALICE, 0, 50, 5).unwrap_err(), ElronomError::NotFound);
    assert_eq!(c.get_quest_details(0).unwrap_err(), ElronomError::NotFound);
}

#[test]
fn complete_quest_credits_progress() {
    let mut c = ledger();
    c.create_quest(OWNER, QuestType::Daily, 2, 900, 0, vec![]).unwrap();
    let receipt = c.complete_quest(ALICE, 1, 80, 1000).unwrap();
    assert_eq!(receipt.xp_earned, 900);
    assert_eq!(receipt.accuracy_score, 80);
    assert_eq!(receipt.new_level, Some(3));
    assert_eq!(receipt.egld_reward, 0);
    let p = c.get_user_progress(ALICE, 2000);
    assert_eq!(p.total_xp, 900);
    assert_eq!(p.level, 3);
    assert_eq!(p.completed_quests, 1);
    assert_eq!(p.prediction_accuracy, 40);
    assert_eq!(p.last_activity, 1000);
    assert_eq!(c.get_user_progress(BOB, 2000).total_xp, 0);
}

#[test]
fn accuracy_folds_only_positive_scores() {
    let mut c = ledger();
    for _ in 0..3 {
        c.create_quest(OWNER, QuestType::Daily, 1, 10, 0, vec![]).unwrap();
    }
    c.complete_quest(ALICE, 1, 100, 1).unwrap();
    assert_eq!(c.get_user_progress(ALICE, 1).prediction_accuracy, 50);
    c.complete_quest(ALICE, 2, 0, 2).unwrap();
    assert_eq!(c.get_user_progress(ALICE, 2).prediction_accuracy, 50);
    c.complete_quest(ALICE, 3, 71, 3).unwrap();
    assert_eq!(c.get_user_progress(ALICE, 3).prediction_accuracy, 60);
}

#[test]
fn small_xp_keeps_default_level() {
    let mut c = ledger();
    c.create_quest(OWNER, QuestType::Daily, 1, 50, 0, vec![]).unwrap();
    let receipt = c.complete_quest(ALICE, 1, 0, 1).unwrap();
    assert_eq!(receipt.new_level, None);
    assert_eq!(c.get_user_progress(ALICE, 1).level, 1);
}

#[test]
fn reward_is_handed_back() {
    let mut c = ledger();
    c.create_quest(OWNER, QuestType::Weekly, 4, 20, 5_000, vec![]).unwrap();
    assert_eq!(c.complete_quest(BOB, 1, 10, 3).unwrap().egld_reward, 5_000);
}

#[test]
fn accuracy_over_hundred_is_rejected() {
    let mut c = ledger();
    c.create_quest(OWNER, QuestType::Daily, 1, 10, 0, vec![]).unwrap();
    assert_eq!(c.complete_quest(ALICE, 1, 101, 1).unwrap_err(), ElronomError::InvalidRange);
    assert_eq!(c.get_user_progress(ALICE, 1).completed_quests, 0);
}

#[test]
fn second_completion_is_rejected_and_changes_nothing() {
    let mut c = ledger();
    c.create_quest(OWNER, QuestType::Daily, 1, 100, 0, vec![]).unwrap();
    c.complete_quest(ALICE, 1, 60, 1).unwrap();
    let before = c.get_user_progress(ALICE, 9);
    assert_eq!(c.complete_quest(ALICE, 1, 90, 2).unwrap_err(), ElronomError::AlreadyCompleted);
    assert_eq!(c.get_user_progress(ALICE, 9), before);
    // another user may still complete it
    assert!(c.complete_quest(BOB, 1, 60, 3).is_ok());
}

#[test]
fn experience_overflow_is_rejected() {
    let mut c = ledger();
    c.create_quest(OWNER, QuestType::Epic, 5, u32::MAX, 0, vec![]).unwrap();
    c.create_quest(OWNER, QuestType::Daily, 1, 1, 0, vec![]).unwrap();
    let receipt = c.complete_quest(ALICE, 1, 0, 1).unwrap();
    assert_eq!(receipt.new_level, Some(100));
    assert_eq!(c.complete_quest(ALICE, 2, 0, 2).unwrap_err(), ElronomError::InvalidRange);
    assert_eq!(c.get_user_progress(ALICE, 2).completed_quests, 1);
}

#[test]
fn counters_never_decrease() {
    let mut c = ledger_with_educator();
    c.create_quest(OWNER, QuestType::Daily, 1, 150, 0, vec![]).unwrap();
    c.create_quest(OWNER, QuestType::Daily, 1, 250, 0, vec![]).unwrap();
    let mut last = c.get_user_progress(ALICE, 0);
    let steps: Vec<Box<dyn Fn(&mut ElronomContract)>> = vec![
        Box::new(|c| { let _ = c.complete_quest(ALICE, 1, 30, 1); }),
        Box::new(|c| { let _ = c.mint_educational_badge(EDUCATOR, ALICE, 7, 2, EducationalNFTType::Certificate, 2, [1u8; 32]); }),
        Box::new(|c| { let _ = c.complete_quest(ALICE, 1, 30, 3); }),
        Box::new(|c| { let _ = c.update_leaderboard(EDUCATOR, ALICE, 3); }),
        Box::new(|c| { let _ = c.complete_quest(ALICE, 2, 0, 4); }),
    ];
    for step in steps.iter() {
        step(&mut c);
        let now = c.get_user_progress(ALICE, 0);
        assert!(now.total_xp >= last.total_xp);
        assert!(now.completed_quests >= last.completed_quests);
        assert!(now.badges_earned >= last.badges_earned);
        last = now;
    }
    assert_eq!(last.total_xp, 400);
    assert_eq!(last.completed_quests, 2);
    assert_eq!(last.badges_earned, 1);
}

#[test]
fn mint_requires_an_educator() {
    let mut c = ledger();
    assert_eq!(
        c.mint_educational_badge(ALICE, BOB, 1, 3, EducationalNFTType::Certificate, 5, [7u8; 32]),
        Err(ElronomError::PermissionDenied)
    );
    // the owner is not an educator unless granted
    assert_eq!(
        c.mint_educational_badge(OWNER, BOB, 1, 3, EducationalNFTType::Certificate, 5, [7u8; 32]),
        Err(ElronomError::PermissionDenied)
    );
    assert!(c.get_user_nfts(BOB).is_empty());
}

#[test]
fn mint_checks_skill_level() {
    let mut c = ledger_with_educator();
    assert_eq!(
        c.mint_educational_badge(EDUCATOR, BOB, 1, 6, EducationalNFTType::Achievement, 5, [7u8; 32]),
        Err(ElronomError::InvalidRange)
    );
    assert_eq!(
        c.mint_educational_badge(EDUCATOR, BOB, 1, 0, EducationalNFTType::Achievement, 5, [7u8; 32]),
        Err(ElronomError::InvalidRange)
    );
    assert_eq!(c.get_user_progress(BOB, 0).badges_earned, 0);
}

#[test]
fn minted_credential_verifies() {
    let mut c = ledger_with_educator();
    let id = c
        .mint_educational_badge(EDUCATOR, BOB, 42, 3, EducationalNFTType::Quest, 1234, [9u8; 32])
        .unwrap();
    assert_eq!(id, 1);
    assert!(c.verify_educational_achievement(id));
    assert!(!c.verify_educational_achievement(2));
    assert!(!c.verify_educational_achievement(0));
    let nft = c.get_nft_details(id).unwrap();
    assert_eq!(nft.course_id, 42);
    assert_eq!(nft.completion_date, 1234);
    assert_eq!(nft.skill_level, 3);
    assert_eq!(nft.issuing_authority, b"ELRONOM Academy".to_vec());
    assert_eq!(nft.verification_hash, vec![9u8; 32]);
    assert_eq!(nft.nft_type, EducationalNFTType::Quest);
    assert_eq!(c.get_nft_details(2).unwrap_err(), ElronomError::NotFound);
    let p = c.get_user_progress(BOB, 5000);
    assert_eq!(p.badges_earned, 1);
    assert_eq!(p.level, 1);
    assert_eq!(p.last_activity, 1234);
}

#[test]
fn never_minted_credential_does_not_verify() {
    let c = ledger();
    assert!(!c.verify_educational_achievement(1));
    assert!(!c.verify_educational_achievement(u64::MAX));
}

#[test]
fn credentials_are_indexed_by_holder() {
    let mut c = ledger_with_educator();
    let t = EducationalNFTType::Certificate;
    assert_eq!(c.mint_educational_badge(EDUCATOR, ALICE, 1, 1, t, 1, [1u8; 32]), Ok(1));
    assert_eq!(c.mint_educational_badge(EDUCATOR, BOB, 2, 2, t, 2, [2u8; 32]), Ok(2));
    assert_eq!(c.mint_educational_badge(EDUCATOR, ALICE, 3, 3, t, 3, [3u8; 32]), Ok(3));
    assert_eq!(c.get_user_nfts(ALICE), vec![1, 3]);
    assert_eq!(c.get_user_nfts(BOB), vec![2]);
    assert_eq!(c.get_user_nfts(OWNER), Vec::<u64>::new());
    assert_eq!(c.get_user_progress(ALICE, 0).badges_earned, 2);
}

#[test]
fn leaderboard_last_write_wins() {
    let mut c = ledger_with_educator();
    assert_eq!(c.get_leaderboard_score(5), 0);
    assert_eq!(c.update_leaderboard(EDUCATOR, 5, 10), Ok(()));
    assert_eq!(c.update_leaderboard(EDUCATOR, 5, 5), Ok(()));
    assert_eq!(c.get_leaderboard_score(5), 5);
    assert_eq!(c.get_leaderboard_score(6), 0);
}

#[test]
fn leaderboard_requires_an_educator() {
    let mut c = ledger();
    assert_eq!(c.update_leaderboard(OWNER, 5, 10), Err(ElronomError::PermissionDenied));
    assert_eq!(c.get_leaderboard_score(5), 0);
}

#[test]
fn educator_grants_are_owner_only_and_revocable() {
    let mut c = ledger();
    assert_eq!(c.add_authorized_educator(ALICE, ALICE), Err(ElronomError::PermissionDenied));
    assert!(!c.is_authorized_educator(ALICE));
    assert_eq!(c.add_authorized_educator(OWNER, ALICE), Ok(()));
    assert!(c.is_authorized_educator(ALICE));
    assert!(!c.is_authorized_educator(OWNER));
    assert_eq!(c.remove_authorized_educator(ALICE, ALICE), Err(ElronomError::PermissionDenied));
    assert_eq!(c.remove_authorized_educator(OWNER, ALICE), Ok(()));
    assert!(!c.is_authorized_educator(ALICE));
    // revoking an address without a grant is no error
    assert_eq!(c.remove_authorized_educator(OWNER, BOB), Ok(()));
    assert_eq!(c.update_leaderboard(ALICE, 1, 1), Err(ElronomError::PermissionDenied));
}

#[test]
fn pause_is_owner_only() {
    let mut c = ledger();
    assert_eq!(c.pause_contract(ALICE), Err(ElronomError::PermissionDenied));
    assert!(!c.is_paused());
    assert_eq!(c.pause_contract(OWNER), Ok(()));
    assert!(c.is_paused());
    assert_eq!(c.unpause_contract(ALICE), Err(ElronomError::PermissionDenied));
    assert!(c.is_paused());
    assert_eq!(c.unpause_contract(OWNER), Ok(()));
    assert!(!c.is_paused());
    assert_eq!(c.owner(), OWNER);
}

#[test]
fn paused_ledger_rejects_every_mutation() {
    let mut c = ledger_with_educator();
    c.create_quest(OWNER, QuestType::Daily, 1, 100, 0, vec![]).unwrap();
    c.mint_educational_badge(EDUCATOR, ALICE, 1, 1, EducationalNFTType::Achievement, 1, [4u8; 32]).unwrap();
    c.update_leaderboard(EDUCATOR, 3, 30).unwrap();
    let progress = c.get_user_progress(ALICE, 0);
    assert_eq!(c.pause_contract(OWNER), Ok(()));

    let s = ElronomError::InvalidState;
    assert_eq!(c.create_quest(OWNER, QuestType::Daily, 1, 100, 0, vec![]), Err(s));
    assert_eq!(c.complete_quest(ALICE, 1, 50, 2).unwrap_err(), s);
    assert_eq!(c.mint_educational_badge(EDUCATOR, ALICE, 2, 2, EducationalNFTType::Certificate, 2, [5u8; 32]), Err(s));
    assert_eq!(c.update_leaderboard(EDUCATOR, 3, 1), Err(s));
    assert_eq!(c.add_authorized_educator(OWNER, BOB), Err(s));
    assert_eq!(c.remove_authorized_educator(OWNER, EDUCATOR), Err(s));

    // reads remain available and show nothing changed
    assert_eq!(c.get_user_progress(ALICE, 0), progress);
    assert!(c.get_quest_details(1).is_ok());
    assert!(c.get_quest_details(2).is_err());
    assert_eq!(c.get_user_nfts(ALICE), vec![1]);
    assert!(c.verify_educational_achievement(1));
    assert!(!c.verify_educational_achievement(2));
    assert_eq!(c.get_leaderboard_score(3), 30);
    assert!(c.is_authorized_educator(EDUCATOR));
    assert!(!c.is_authorized_educator(BOB));

    assert_eq!(c.unpause_contract(OWNER), Ok(()));
    assert!(c.complete_quest(ALICE, 1, 50, 3).is_ok());
}

#[test]
fn preimage_is_big_endian_fields() {
    let bytes = verification_preimage(0x0102030405060708, 0x1122334455667788, 0xAABBCCDDEEFF0011);
    let mut expected = Vec::new();
    expected.extend_from_slice(&0x0102030405060708u64.to_be_bytes());
    expected.extend_from_slice(&0x1122334455667788u64.to_be_bytes());
    expected.extend_from_slice(&0xAABBCCDDEEFF0011u64.to_be_bytes());
    assert_eq!(bytes, expected);
    assert_eq!(bytes.len(), 24);
    assert_eq!(bytes[0], 0x01);
    assert_eq!(bytes[23], 0x11);
}
