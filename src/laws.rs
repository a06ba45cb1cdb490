use vstd::prelude::*;

use crate::model::{
    after_add_educator, after_complete_quest, after_create_quest, after_mint,
    after_remove_educator, after_set_paused, after_update_leaderboard, complete_quest_error,
    create_quest_error, credential_verifies, educator_error, has_completed, leaderboard_error,
    mint_error, owner_error, progress_at, ContractModel,
};
use crate::types::{EducationalNFTType, ElronomError, QuestType};

verus! {

/// One mutating operation, with the caller and time the host hands in.
pub enum Action {
    CreateQuest {
        caller: u64,
        quest_type: QuestType,
        difficulty: u8,
        xp_reward: u32,
        egld_reward: u128,
        completion_criteria: Seq<u8>,
    },
    CompleteQuest { caller: u64, quest_id: u64, accuracy_score: u8, now: u64 },
    MintCredential {
        caller: u64,
        user: u64,
        course_id: u64,
        skill_level: u8,
        nft_type: EducationalNFTType,
        now: u64,
        digest: Seq<u8>,
    },
    UpdateLeaderboard { caller: u64, user_id: u64, new_score: u32 },
    Pause { caller: u64 },
    Unpause { caller: u64 },
    AddEducator { caller: u64, educator: u64 },
    RemoveEducator { caller: u64, educator: u64 },
}

/// The error an action is rejected with in state `m`, if any.
pub open spec fn action_error(m: ContractModel, a: Action) -> Option<ElronomError> {
    match a {
        Action::CreateQuest { caller, difficulty, xp_reward, .. } => create_quest_error(
            m,
            caller,
            difficulty,
            xp_reward,
        ),
        Action::CompleteQuest { caller, quest_id, accuracy_score, now } => complete_quest_error(
            m,
            caller,
            quest_id,
            accuracy_score,
            now,
        ),
        Action::MintCredential { caller, user, skill_level, now, .. } => mint_error(
            m,
            caller,
            user,
            skill_level,
            now,
        ),
        Action::UpdateLeaderboard { caller, .. } => leaderboard_error(m, caller),
        Action::Pause { caller } => owner_error(m, caller),
        Action::Unpause { caller } => owner_error(m, caller),
        Action::AddEducator { caller, .. } => educator_error(m, caller),
        Action::RemoveEducator { caller, .. } => educator_error(m, caller),
    }
}

/// The state after action `a` in state `m`.
pub open spec fn apply(m: ContractModel, a: Action) -> ContractModel {
    match a {
        Action::CreateQuest {
            caller,
            quest_type,
            difficulty,
            xp_reward,
            egld_reward,
            completion_criteria,
        } => after_create_quest(
            m,
            caller,
            quest_type,
            difficulty,
            xp_reward,
            egld_reward,
            completion_criteria,
        ),
        Action::CompleteQuest { caller, quest_id, accuracy_score, now } => after_complete_quest(
            m,
            caller,
            quest_id,
            accuracy_score,
            now,
        ),
        Action::MintCredential {
            caller,
            user,
            course_id,
            skill_level,
            nft_type,
            now,
            digest,
        } => after_mint(m, caller, user, course_id, skill_level, nft_type, now, digest),
        Action::UpdateLeaderboard { caller, user_id, new_score } => after_update_leaderboard(
            m,
            caller,
            user_id,
            new_score,
        ),
        Action::Pause { caller } => after_set_paused(m, caller, true),
        Action::Unpause { caller } => after_set_paused(m, caller, false),
        Action::AddEducator { caller, educator } => after_add_educator(m, caller, educator),
        Action::RemoveEducator { caller, educator } => after_remove_educator(m, caller, educator),
    }
}

/// The state after the actions `acts`, in order, from state `m`.
pub open spec fn apply_all(m: ContractModel, acts: Seq<Action>) -> ContractModel
    decreases acts.len(),
{
    if acts.len() == 0 {
        m
    } else {
        apply_all(apply(m, acts[0]), acts.drop_first())
    }
}

/// No counter of `user` in `before` exceeds the same counter in `after`
/// (a user with no record counts zero).
pub open spec fn counters_grow(before: ContractModel, after: ContractModel, user: u64) -> bool {
    let p = progress_at(before, user, 0);
    let q = progress_at(after, user, 0);
    &&& p.total_xp <= q.total_xp
    &&& p.completed_quests <= q.completed_quests
    &&& p.badges_earned <= q.badges_earned
}

/// Completing a quest a second time is rejected with `AlreadyCompleted` and
/// leaves the state as the first completion left it.
pub proof fn lemma_complete_quest_twice(
    m: ContractModel,
    caller: u64,
    quest_id: u64,
    first_score: u8,
    first_now: u64,
    second_score: u8,
    second_now: u64,
)
    requires
        complete_quest_error(m, caller, quest_id, first_score, first_now) is None,
        second_score <= 100,
    ensures
        ({
            let m1 = after_complete_quest(m, caller, quest_id, first_score, first_now);
            &&& complete_quest_error(m1, caller, quest_id, second_score, second_now) == Some(
                ElronomError::AlreadyCompleted,
            )
            &&& after_complete_quest(m1, caller, quest_id, second_score, second_now) == m1
        }),
{
    let m1 = after_complete_quest(m, caller, quest_id, first_score, first_now);
    assert(m1.completions[m.completions.len() as int] == (caller, quest_id));
    assert(has_completed(m1, caller, quest_id));
}

/// One action never lowers a user's experience, completed quests or badges.
pub proof fn lemma_action_counters_grow(m: ContractModel, a: Action, user: u64)
    ensures
        counters_grow(m, apply(m, a), user),
{
}

/// No sequence of actions lowers a user's experience, completed quests or
/// badges.
pub proof fn lemma_counters_grow(m: ContractModel, acts: Seq<Action>, user: u64)
    ensures
        counters_grow(m, apply_all(m, acts), user),
    decreases acts.len(),
{
    if acts.len() > 0 {
        lemma_action_counters_grow(m, acts[0], user);
        lemma_counters_grow(apply(m, acts[0]), acts.drop_first(), user);
    }
}

/// While paused, every action but pausing and unpausing is rejected with
/// `InvalidState` and changes nothing.
pub proof fn lemma_paused_rejects(m: ContractModel, a: Action)
    requires
        m.paused,
        !(a is Pause),
        !(a is Unpause),
    ensures
        action_error(m, a) == Some(ElronomError::InvalidState),
        apply(m, a) == m,
{
}

/// From a paused state, any sequence of actions without an unpause leaves the
/// state exactly as it was.
pub proof fn lemma_paused_sequence(m: ContractModel, acts: Seq<Action>)
    requires
        m.paused,
        forall|i: int| 0 <= i < acts.len() ==> !(#[trigger] acts[i] is Unpause),
    ensures
        apply_all(m, acts) == m,
    decreases acts.len(),
{
    if acts.len() > 0 {
        let a = acts[0];
        assert(!(acts[0] is Unpause));
        if a is Pause {
            assert(apply(m, a) == m);
        } else {
            lemma_paused_rejects(m, a);
        }
        assert forall|i: int| 0 <= i < acts.drop_first().len() implies !(
        #[trigger] acts.drop_first()[i] is Unpause) by {
            assert(acts.drop_first()[i] == acts[i + 1]);
        }
        lemma_paused_sequence(m, acts.drop_first());
    }
}

/// A credential that was just issued verifies, and its id is one past the
/// credentials issued before it.
pub proof fn lemma_minted_credential_verifies(
    m: ContractModel,
    caller: u64,
    user: u64,
    course_id: u64,
    skill_level: u8,
    nft_type: EducationalNFTType,
    now: u64,
    digest: Seq<u8>,
)
    requires
        mint_error(m, caller, user, skill_level, now) is None,
        digest.len() == 32,
    ensures
        credential_verifies(
            after_mint(m, caller, user, course_id, skill_level, nft_type, now, digest),
            (m.credentials.len() + 1) as u64,
        ),
{
}

/// A score set on the leaderboard replaces the one before it: the last write
/// wins, whether it is higher or lower.
pub proof fn lemma_leaderboard_last_write_wins(
    m: ContractModel,
    caller: u64,
    user_id: u64,
    first: u32,
    second: u32,
)
    requires
        leaderboard_error(m, caller) is None,
    ensures
        ({
            let m1 = after_update_leaderboard(m, caller, user_id, first);
            let m2 = after_update_leaderboard(m1, caller, user_id, second);
            m2.scores[user_id] == second
        }),
{
}

} // verus!
