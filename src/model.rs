use vstd::prelude::*;

use crate::level::level_of;
use crate::types::{
    CompletionReceipt, CredentialView, EducationalNFTType, ElronomError, QuestType, QuestView,
    UserProgress,
};

verus! {

/// The whole state of the ledger. Quest `i + 1` is `quests[i]`; credential
/// `i + 1` is `credentials[i]`, issued to `credential_owners[i]`.
pub struct ContractModel {
    pub owner: u64,
    pub paused: bool,
    pub quests: Seq<QuestView>,
    /// The (user, quest id) pairs that have been completed.
    pub completions: Seq<(u64, u64)>,
    pub progress: Map<u64, UserProgress>,
    pub credentials: Seq<CredentialView>,
    pub credential_owners: Seq<u64>,
    pub scores: Map<u64, u32>,
    pub educators: Set<u64>,
}

/// The bytes of "ELRONOM Academy", the authority named on every credential.
pub open spec fn issuing_authority() -> Seq<u8> {
    seq![69u8, 76u8, 82u8, 79u8, 78u8, 79u8, 77u8, 32u8, 65u8, 99u8, 97u8, 100u8, 101u8, 109u8, 121u8]
}

impl ContractModel {
    /// The invariant that every reachable state keeps.
    pub open spec fn wf(self) -> bool {
        &&& self.quests.len() + 1 < u64::MAX
        &&& forall|i: int| 0 <= i < self.quests.len() ==> #[trigger] self.quests[i].quest_id == i + 1
        &&& self.credentials.len() == self.credential_owners.len()
        &&& self.credentials.len() + 1 < u64::MAX
        &&& forall|u: u64| #[trigger]
            self.progress.contains_key(u) ==> self.progress[u].prediction_accuracy <= 100
        &&& forall|i: int|
            0 <= i < self.credentials.len() ==> #[trigger] self.credentials[i].verification_hash.len()
                > 0
    }
}

/// The record a user has before any activity, created at time `now`.
pub open spec fn default_progress(now: u64) -> UserProgress {
    UserProgress {
        total_xp: 0,
        level: 1,
        completed_quests: 0,
        streak_days: 0,
        badges_earned: 0,
        prediction_accuracy: 0,
        last_activity: now,
    }
}

/// The progress of `user`, or a fresh record created at `now` if there is none.
pub open spec fn progress_at(m: ContractModel, user: u64, now: u64) -> UserProgress {
    if m.progress.contains_key(user) {
        m.progress[user]
    } else {
        default_progress(now)
    }
}

pub open spec fn quest_of(m: ContractModel, quest_id: u64) -> QuestView {
    m.quests[quest_id - 1]
}

pub open spec fn has_completed(m: ContractModel, user: u64, quest_id: u64) -> bool {
    m.completions.contains((user, quest_id))
}

// ---- quests ----

pub open spec fn create_quest_error(
    m: ContractModel,
    caller: u64,
    difficulty: u8,
    xp_reward: u32,
) -> Option<ElronomError> {
    if m.paused {
        Some(ElronomError::InvalidState)
    } else if caller != m.owner {
        Some(ElronomError::PermissionDenied)
    } else if difficulty < 1 || difficulty > 5 || xp_reward == 0 || m.quests.len() + 2 >= u64::MAX {
        Some(ElronomError::InvalidRange)
    } else {
        None
    }
}

pub open spec fn new_quest(
    m: ContractModel,
    quest_type: QuestType,
    difficulty: u8,
    xp_reward: u32,
    egld_reward: u128,
    completion_criteria: Seq<u8>,
) -> QuestView {
    QuestView {
        quest_id: (m.quests.len() + 1) as u64,
        quest_type,
        difficulty,
        xp_reward,
        egld_reward,
        completion_criteria,
        is_active: true,
    }
}

pub open spec fn after_create_quest(
    m: ContractModel,
    caller: u64,
    quest_type: QuestType,
    difficulty: u8,
    xp_reward: u32,
    egld_reward: u128,
    completion_criteria: Seq<u8>,
) -> ContractModel {
    if create_quest_error(m, caller, difficulty, xp_reward) is Some {
        m
    } else {
        ContractModel {
            quests: m.quests.push(
                new_quest(m, quest_type, difficulty, xp_reward, egld_reward, completion_criteria),
            ),
            ..m
        }
    }
}

pub open spec fn complete_quest_error(
    m: ContractModel,
    caller: u64,
    quest_id: u64,
    accuracy_score: u8,
    now: u64,
) -> Option<ElronomError> {
    if m.paused {
        Some(ElronomError::InvalidState)
    } else if accuracy_score > 100 {
        Some(ElronomError::InvalidRange)
    } else if quest_id < 1 || quest_id > m.quests.len() {
        Some(ElronomError::NotFound)
    } else if !quest_of(m, quest_id).is_active {
        Some(ElronomError::InvalidState)
    } else if has_completed(m, caller, quest_id) {
        Some(ElronomError::AlreadyCompleted)
    } else if progress_at(m, caller, now).total_xp + quest_of(m, quest_id).xp_reward > u32::MAX
        || progress_at(m, caller, now).completed_quests + 1 > u32::MAX {
        Some(ElronomError::InvalidRange)
    } else {
        None
    }
}

/// `p` after completing a quest worth `xp_reward` with `accuracy_score` at `now`:
/// the accuracy is folded in as `(old + score) / 2` only for a positive score,
/// and the level only rises.
pub open spec fn completed_progress(
    p: UserProgress,
    xp_reward: u32,
    accuracy_score: u8,
    now: u64,
) -> UserProgress {
    let xp = (p.total_xp + xp_reward) as u32;
    let lvl = level_of(xp as nat);
    UserProgress {
        total_xp: xp,
        level: if lvl > p.level { lvl as u8 } else { p.level },
        completed_quests: (p.completed_quests + 1) as u32,
        prediction_accuracy: if accuracy_score > 0 {
            ((p.prediction_accuracy + accuracy_score) / 2) as u8
        } else {
            p.prediction_accuracy
        },
        last_activity: now,
        ..p
    }
}

pub open spec fn after_complete_quest(
    m: ContractModel,
    caller: u64,
    quest_id: u64,
    accuracy_score: u8,
    now: u64,
) -> ContractModel {
    if complete_quest_error(m, caller, quest_id, accuracy_score, now) is Some {
        m
    } else {
        ContractModel {
            completions: m.completions.push((caller, quest_id)),
            progress: m.progress.insert(
                caller,
                completed_progress(
                    progress_at(m, caller, now),
                    quest_of(m, quest_id).xp_reward,
                    accuracy_score,
                    now,
                ),
            ),
            ..m
        }
    }
}

pub open spec fn completion_receipt(
    m: ContractModel,
    caller: u64,
    quest_id: u64,
    accuracy_score: u8,
    now: u64,
) -> CompletionReceipt {
    let q = quest_of(m, quest_id);
    let p = progress_at(m, caller, now);
    let lvl = level_of((p.total_xp + q.xp_reward) as nat);
    CompletionReceipt {
        xp_earned: q.xp_reward,
        accuracy_score,
        new_level: if lvl > p.level { Some(lvl as u8) } else { None },
        egld_reward: q.egld_reward,
    }
}

// ---- credentials ----

pub open spec fn mint_error(
    m: ContractModel,
    caller: u64,
    user: u64,
    skill_level: u8,
    now: u64,
) -> Option<ElronomError> {
    if m.paused {
        Some(ElronomError::InvalidState)
    } else if skill_level < 1 || skill_level > 5 {
        Some(ElronomError::InvalidRange)
    } else if !m.educators.contains(caller) {
        Some(ElronomError::PermissionDenied)
    } else if m.credentials.len() + 2 >= u64::MAX || progress_at(m, user, now).badges_earned + 1
        > u16::MAX {
        Some(ElronomError::InvalidRange)
    } else {
        None
    }
}

pub open spec fn new_credential(
    course_id: u64,
    skill_level: u8,
    nft_type: EducationalNFTType,
    now: u64,
    digest: Seq<u8>,
) -> CredentialView {
    CredentialView {
        course_id,
        completion_date: now,
        skill_level,
        issuing_authority: issuing_authority(),
        verification_hash: digest,
        nft_type,
    }
}

pub open spec fn after_mint(
    m: ContractModel,
    caller: u64,
    user: u64,
    course_id: u64,
    skill_level: u8,
    nft_type: EducationalNFTType,
    now: u64,
    digest: Seq<u8>,
) -> ContractModel {
    if mint_error(m, caller, user, skill_level, now) is Some {
        m
    } else {
        let p = progress_at(m, user, now);
        ContractModel {
            credentials: m.credentials.push(
                new_credential(course_id, skill_level, nft_type, now, digest),
            ),
            credential_owners: m.credential_owners.push(user),
            progress: m.progress.insert(
                user,
                UserProgress { badges_earned: (p.badges_earned + 1) as u16, ..p },
            ),
            ..m
        }
    }
}

/// Credential `id` exists and carries a verification tag.
pub open spec fn credential_verifies(m: ContractModel, id: u64) -> bool {
    1 <= id <= m.credentials.len() && m.credentials[id - 1].verification_hash.len() > 0
}

/// The ids of the credentials issued to `user`, in the order of issue.
pub open spec fn owned_ids(owners: Seq<u64>, user: u64) -> Seq<u64>
    decreases owners.len(),
{
    if owners.len() == 0 {
        seq![]
    } else {
        let prev = owned_ids(owners.drop_last(), user);
        if owners.last() == user {
            prev.push(owners.len() as u64)
        } else {
            prev
        }
    }
}

// ---- leaderboard ----

pub open spec fn leaderboard_error(m: ContractModel, caller: u64) -> Option<ElronomError> {
    if m.paused {
        Some(ElronomError::InvalidState)
    } else if !m.educators.contains(caller) {
        Some(ElronomError::PermissionDenied)
    } else {
        None
    }
}

pub open spec fn after_update_leaderboard(
    m: ContractModel,
    caller: u64,
    user_id: u64,
    new_score: u32,
) -> ContractModel {
    if leaderboard_error(m, caller) is Some {
        m
    } else {
        ContractModel { scores: m.scores.insert(user_id, new_score), ..m }
    }
}

pub open spec fn score_of(m: ContractModel, user_id: u64) -> u32 {
    if m.scores.contains_key(user_id) {
        m.scores[user_id]
    } else {
        0
    }
}

// ---- administration ----

pub open spec fn owner_error(m: ContractModel, caller: u64) -> Option<ElronomError> {
    if caller != m.owner {
        Some(ElronomError::PermissionDenied)
    } else {
        None
    }
}

pub open spec fn after_set_paused(m: ContractModel, caller: u64, paused: bool) -> ContractModel {
    if owner_error(m, caller) is Some {
        m
    } else {
        ContractModel { paused, ..m }
    }
}

pub open spec fn educator_error(m: ContractModel, caller: u64) -> Option<ElronomError> {
    if m.paused {
        Some(ElronomError::InvalidState)
    } else {
        owner_error(m, caller)
    }
}

pub open spec fn after_add_educator(m: ContractModel, caller: u64, educator: u64) -> ContractModel {
    if educator_error(m, caller) is Some {
        m
    } else {
        ContractModel { educators: m.educators.insert(educator), ..m }
    }
}

pub open spec fn after_remove_educator(
    m: ContractModel,
    caller: u64,
    educator: u64,
) -> ContractModel {
    if educator_error(m, caller) is Some {
        m
    } else {
        ContractModel { educators: m.educators.remove(educator), ..m }
    }
}

} // verus!
