use std::collections::HashMap;
use std::collections::HashSet;

use vstd::prelude::*;

use crate::level::calculate_level;
use crate::model::{
    after_add_educator, after_complete_quest, after_create_quest, after_mint,
    after_remove_educator, after_set_paused, after_update_leaderboard, complete_quest_error,
    completion_receipt, create_quest_error, credential_verifies, educator_error,
    issuing_authority, leaderboard_error, mint_error, owned_ids, owner_error, progress_at,
    score_of, ContractModel,
};
use crate::types::{
    CompletionReceipt, EducationalNFT, EducationalNFTType, ElronomError, Quest, QuestType,
    UserProgress,
};

verus! {

broadcast use vstd::std_specs::hash::group_hash_axioms;

/// The ledger. Users, educators and the owner are identified by account ids;
/// the host hands in the caller and the current time with each operation.
pub struct ElronomContract {
    owner: u64,
    paused: bool,
    quest_counter: u64,
    quests: Vec<Quest>,
    completions: Vec<(u64, u64)>,
    progress: HashMap<u64, UserProgress>,
    nft_counter: u64,
    nfts: Vec<EducationalNFT>,
    nft_owners: Vec<u64>,
    leaderboard: HashMap<u64, u32>,
    educators: HashSet<u64>,
}

impl View for ElronomContract {
    type V = ContractModel;

    closed spec fn view(&self) -> ContractModel {
        ContractModel {
            owner: self.owner,
            paused: self.paused,
            quests: self.quests@.map_values(|q: Quest| q@),
            completions: self.completions@,
            progress: self.progress@,
            credentials: self.nfts@.map_values(|n: EducationalNFT| n@),
            credential_owners: self.nft_owners@,
            scores: self.leaderboard@,
            educators: self.educators@,
        }
    }
}

/// A state whose quests, credentials and progress records are those of a
/// well-formed state is well formed.
proof fn lemma_wf_frame(before: ContractModel, after: ContractModel)
    requires
        before.wf(),
        after.quests == before.quests,
        after.credentials == before.credentials,
        after.credential_owners == before.credential_owners,
        after.progress == before.progress,
    ensures
        after.wf(),
{
}

impl ElronomContract {
    /// The representation invariant: the model's invariant, and the id counters
    /// one past the last id given out.
    pub closed spec fn wf(&self) -> bool {
        &&& self@.wf()
        &&& self.quest_counter == self.quests@.len() + 1
        &&& self.nft_counter == self.nfts@.len() + 1
    }

    /// A ledger owned by `owner`: no quests, credentials, scores or educators,
    /// not paused, both id counters at 1.
    pub fn init(owner: u64) -> (r: Self)
        ensures
            r.wf(),
            r@.owner == owner,
            !r@.paused,
            r@.quests.len() == 0,
            r@.completions.len() == 0,
            r@.progress.is_empty(),
            r@.credentials.len() == 0,
            r@.credential_owners.len() == 0,
            r@.scores.is_empty(),
            r@.educators.is_empty(),
    {
        let r = ElronomContract {
            owner,
            paused: false,
            quest_counter: 1,
            quests: Vec::new(),
            completions: Vec::new(),
            progress: HashMap::new(),
            nft_counter: 1,
            nfts: Vec::new(),
            nft_owners: Vec::new(),
            leaderboard: HashMap::new(),
            educators: HashSet::new(),
        };
        assert(r@.quests =~= Seq::empty());
        assert(r@.credentials =~= Seq::empty());
        r
    }

    /// Adds a quest to the catalog and returns its id, the next one from 1 up.
    pub fn create_quest(
        &mut self,
        caller: u64,
        quest_type: QuestType,
        difficulty: u8,
        xp_reward: u32,
        egld_reward: u128,
        completion_criteria: Vec<u8>,
    ) -> (r: Result<u64, ElronomError>)
        requires
            old(self).wf(),
        ensures
            final(self).wf(),
            final(self)@ == after_create_quest(
                old(self)@,
                caller,
                quest_type,
                difficulty,
                xp_reward,
                egld_reward,
                completion_criteria@,
            ),
            r == match create_quest_error(old(self)@, caller, difficulty, xp_reward) {
                Some(e) => Err::<u64, ElronomError>(e),
                None => Ok((old(self)@.quests.len() + 1) as u64),
            },
    {
        if self.paused {
            return Err(ElronomError::InvalidState);
        }
        if caller != self.owner {
            return Err(ElronomError::PermissionDenied);
        }
        if difficulty < 1 || difficulty > 5 || xp_reward == 0 || self.quest_counter >= u64::MAX - 1 {
            return Err(ElronomError::InvalidRange);
        }
        let quest_id = self.quest_counter;
        let quest = Quest {
            quest_id,
            quest_type,
            difficulty,
            xp_reward,
            egld_reward,
            completion_criteria,
            is_active: true,
        };
        let ghost old_quests = self.quests@;
        self.quests.push(quest);
        self.quest_counter = quest_id + 1;
        proof {
            assert(self.quests@.map_values(|q: Quest| q@) =~= old_quests.map_values(
                |q: Quest| q@,
            ).push(quest@));
            assert forall|i: int| 0 <= i < self@.quests.len() implies #[trigger] self@.quests[i].quest_id
                == i + 1 by {
                if i < old_quests.len() {
                    assert(self@.quests[i] == old(self)@.quests[i]);
                }
            }
        }
        assert(self@.credentials == old(self)@.credentials);
        assert(self@.progress == old(self)@.progress);
        Ok(quest_id)
    }

    /// Whether `user` has completed quest `quest_id`.
    fn has_completed(&self, user: u64, quest_id: u64) -> (r: bool)
        ensures
            r == self@.completions.contains((user, quest_id)),
    {
        let mut i: usize = 0;
        while i < self.completions.len()
            invariant
                i <= self.completions@.len(),
                forall|j: int| 0 <= j < i ==> self.completions@[j] != (user, quest_id),
            decreases self.completions@.len() - i,
        {
            let (u, q) = self.completions[i];
            if u == user && q == quest_id {
                assert(self.completions@[i as int] == (user, quest_id));
                return true;
            }
            i = i + 1;
        }
        false
    }

    /// The progress of `user`, or a fresh record created at `now` if there is none.
    fn current_progress(&self, user: u64, now: u64) -> (r: UserProgress)
        ensures
            r == progress_at(self@, user, now),
    {
        match self.progress.get(&user) {
            Some(p) => *p,
            None => UserProgress {
                total_xp: 0,
                level: 1,
                completed_quests: 0,
                streak_days: 0,
                badges_earned: 0,
                prediction_accuracy: 0,
                last_activity: now,
            },
        }
    }

    /// Records that `caller` completed quest `quest_id` with `accuracy_score`
    /// at time `now`: credits the quest's experience points, counts the
    /// completion, folds a positive accuracy score into the running average,
    /// raises the level where the experience calls for it, and returns the
    /// reward to pay out.
    pub fn complete_quest(&mut self, caller: u64, quest_id: u64, accuracy_score: u8, now: u64) -> (r:
        Result<CompletionReceipt, ElronomError>)
        requires
            old(self).wf(),
        ensures
            final(self).wf(),
            final(self)@ == after_complete_quest(old(self)@, caller, quest_id, accuracy_score, now),
            r == match complete_quest_error(old(self)@, caller, quest_id, accuracy_score, now) {
                Some(e) => Err::<CompletionReceipt, ElronomError>(e),
                None => Ok(completion_receipt(old(self)@, caller, quest_id, accuracy_score, now)),
            },
    {
        if self.paused {
            return Err(ElronomError::InvalidState);
        }
        if accuracy_score > 100 {
            return Err(ElronomError::InvalidRange);
        }
        if quest_id < 1 || quest_id >= self.quest_counter {
            return Err(ElronomError::NotFound);
        }
        let n_quests = self.quests.len();
        assert(quest_id - 1 < n_quests);
        let idx = (quest_id - 1) as usize;
        assert(self@.quests[idx as int] == self.quests@[idx as int]@);
        if !self.quests[idx].is_active {
            return Err(ElronomError::InvalidState);
        }
        if self.has_completed(caller, quest_id) {
            return Err(ElronomError::AlreadyCompleted);
        }
        let xp_reward = self.quests[idx].xp_reward;
        let egld_reward = self.quests[idx].egld_reward;
        let old_progress = self.current_progress(caller, now);
        if old_progress.total_xp > u32::MAX - xp_reward || old_progress.completed_quests == u32::MAX {
            return Err(ElronomError::InvalidRange);
        }
        let mut progress = old_progress;
        progress.total_xp = old_progress.total_xp + xp_reward;
        progress.completed_quests = old_progress.completed_quests + 1;
        if accuracy_score > 0 {
            progress.prediction_accuracy = (old_progress.prediction_accuracy + accuracy_score) / 2;
        }
        let new_level = calculate_level(progress.total_xp);
        let level_up = if new_level > old_progress.level {
            progress.level = new_level;
            Some(new_level)
        } else {
            None
        };
        progress.last_activity = now;

        self.completions.push((caller, quest_id));
        self.progress.insert(caller, progress);
        assert(self@.quests == old(self)@.quests);
        assert(self@.credentials == old(self)@.credentials);
        Ok(CompletionReceipt { xp_earned: xp_reward, accuracy_score, new_level: level_up, egld_reward })
    }

    /// Issues a credential for `course_id` to `user`, on behalf of the educator
    /// `caller`, at time `now`. `digest` is the verification tag: the host's
    /// hash of `verification_preimage(user, course_id, now)`. Returns the
    /// credential's id, the next one from 1 up, and counts a badge for `user`.
    pub fn mint_educational_badge(
        &mut self,
        caller: u64,
        user_address: u64,
        course_id: u64,
        skill_level: u8,
        nft_type: EducationalNFTType,
        now: u64,
        digest: [u8; 32],
    ) -> (r: Result<u64, ElronomError>)
        requires
            old(self).wf(),
        ensures
            final(self).wf(),
            final(self)@ == after_mint(
                old(self)@,
                caller,
                user_address,
                course_id,
                skill_level,
                nft_type,
                now,
                digest@,
            ),
            r == match mint_error(old(self)@, caller, user_address, skill_level, now) {
                Some(e) => Err::<u64, ElronomError>(e),
                None => Ok((old(self)@.credentials.len() + 1) as u64),
            },
    {
        if self.paused {
            return Err(ElronomError::InvalidState);
        }
        if skill_level < 1 || skill_level > 5 {
            return Err(ElronomError::InvalidRange);
        }
        if !self.educators.contains(&caller) {
            return Err(ElronomError::PermissionDenied);
        }
        let old_progress = self.current_progress(user_address, now);
        if self.nft_counter >= u64::MAX - 1 || old_progress.badges_earned == u16::MAX {
            return Err(ElronomError::InvalidRange);
        }
        let mut verification_hash: Vec<u8> = Vec::new();
        let mut i: usize = 0;
        while i < 32
            invariant
                i <= 32,
                digest@.len() == 32,
                verification_hash@ == digest@.take(i as int),
            decreases 32 - i,
        {
            verification_hash.push(digest[i]);
            i = i + 1;
            assert(verification_hash@ =~= digest@.take(i as int));
        }
        assert(digest@.take(32) =~= digest@);
        let authority = vec![69u8, 76u8, 82u8, 79u8, 78u8, 79u8, 77u8, 32u8, 65u8, 99u8, 97u8, 100u8, 101u8, 109u8, 121u8];
        assert(authority@ =~= issuing_authority());
        let nft_id = self.nft_counter;
        let nft = EducationalNFT {
            course_id,
            completion_date: now,
            skill_level,
            issuing_authority: authority,
            verification_hash,
            nft_type,
        };
        let ghost old_nfts = self.nfts@;
        self.nfts.push(nft);
        self.nft_owners.push(user_address);
        self.nft_counter = nft_id + 1;
        let mut progress = old_progress;
        progress.badges_earned = old_progress.badges_earned + 1;
        self.progress.insert(user_address, progress);
        proof {
            assert(self@.credentials =~= old(self)@.credentials.push(nft@));
            assert(self@.quests == old(self)@.quests);
            assert forall|k: int| 0 <= k < self@.credentials.len() implies #[trigger] self@.credentials[
                k].verification_hash.len() > 0 by {
                if k < old_nfts.len() {
                    assert(self@.credentials[k] == old(self)@.credentials[k]);
                }
            }
        }
        Ok(nft_id)
    }

    /// Whether credential `nft_id` exists and carries a verification tag;
    /// false, not an error, for an unknown id.
    pub fn verify_educational_achievement(&self, nft_id: u64) -> (r: bool)
        requires
            self.wf(),
        ensures
            r == credential_verifies(self@, nft_id),
    {
        if nft_id < 1 || nft_id >= self.nft_counter {
            return false;
        }
        let n = self.nfts.len();
        assert(nft_id - 1 < n);
        let idx = (nft_id - 1) as usize;
        assert(self@.credentials[idx as int] == self.nfts@[idx as int]@);
        self.nfts[idx].verification_hash.len() > 0
    }

    /// Sets the leaderboard score of `user_id` to `new_score`, whatever it was
    /// before; only a granted educator may.
    pub fn update_leaderboard(&mut self, caller: u64, user_id: u64, new_score: u32) -> (r: Result<
        (),
        ElronomError,
    >)
        requires
            old(self).wf(),
        ensures
            final(self).wf(),
            final(self)@ == after_update_leaderboard(old(self)@, caller, user_id, new_score),
            r == match leaderboard_error(old(self)@, caller) {
                Some(e) => Err::<(), ElronomError>(e),
                None => Ok(()),
            },
    {
        if self.paused {
            return Err(ElronomError::InvalidState);
        }
        if !self.educators.contains(&caller) {
            return Err(ElronomError::PermissionDenied);
        }
        self.leaderboard.insert(user_id, new_score);
        proof {
            lemma_wf_frame(old(self)@, self@);
        }
        Ok(())
    }

    /// The leaderboard score of `user_id`, 0 if none was set.
    pub fn get_leaderboard_score(&self, user_id: u64) -> (r: u32)
        ensures
            r == score_of(self@, user_id),
    {
        match self.leaderboard.get(&user_id) {
            Some(s) => *s,
            None => 0,
        }
    }

    /// Pauses the ledger; only the owner may.
    pub fn pause_contract(&mut self, caller: u64) -> (r: Result<(), ElronomError>)
        requires
            old(self).wf(),
        ensures
            final(self).wf(),
            final(self)@ == after_set_paused(old(self)@, caller, true),
            r == match owner_error(old(self)@, caller) {
                Some(e) => Err::<(), ElronomError>(e),
                None => Ok(()),
            },
    {
        if caller != self.owner {
            return Err(ElronomError::PermissionDenied);
        }
        self.paused = true;
        proof {
            lemma_wf_frame(old(self)@, self@);
        }
        Ok(())
    }

    /// Lifts a pause; only the owner may.
    pub fn unpause_contract(&mut self, caller: u64) -> (r: Result<(), ElronomError>)
        requires
            old(self).wf(),
        ensures
            final(self).wf(),
            final(self)@ == after_set_paused(old(self)@, caller, false),
            r == match owner_error(old(self)@, caller) {
                Some(e) => Err::<(), ElronomError>(e),
                None => Ok(()),
            },
    {
        if caller != self.owner {
            return Err(ElronomError::PermissionDenied);
        }
        self.paused = false;
        proof {
            lemma_wf_frame(old(self)@, self@);
        }
        Ok(())
    }

    /// Grants `educator` the right to issue credentials and set scores; only
    /// the owner may, and not while paused.
    pub fn add_authorized_educator(&mut self, caller: u64, educator: u64) -> (r: Result<
        (),
        ElronomError,
    >)
        requires
            old(self).wf(),
        ensures
            final(self).wf(),
            final(self)@ == after_add_educator(old(self)@, caller, educator),
            r == match educator_error(old(self)@, caller) {
                Some(e) => Err::<(), ElronomError>(e),
                None => Ok(()),
            },
    {
        if self.paused {
            return Err(ElronomError::InvalidState);
        }
        if caller != self.owner {
            return Err(ElronomError::PermissionDenied);
        }
        self.educators.insert(educator);
        proof {
            lemma_wf_frame(old(self)@, self@);
        }
        Ok(())
    }

    /// Revokes the grant of `educator`; revoking an address that holds none
    /// changes nothing. Only the owner may, and not while paused.
    pub fn remove_authorized_educator(&mut self, caller: u64, educator: u64) -> (r: Result<
        (),
        ElronomError,
    >)
        requires
            old(self).wf(),
        ensures
            final(self).wf(),
            final(self)@ == after_remove_educator(old(self)@, caller, educator),
            r == match educator_error(old(self)@, caller) {
                Some(e) => Err::<(), ElronomError>(e),
                None => Ok(()),
            },
    {
        if self.paused {
            return Err(ElronomError::InvalidState);
        }
        if caller != self.owner {
            return Err(ElronomError::PermissionDenied);
        }
        self.educators.remove(&educator);
        proof {
            lemma_wf_frame(old(self)@, self@);
        }
        Ok(())
    }

    /// Whether `educator` holds a grant.
    pub fn is_authorized_educator(&self, educator: u64) -> (r: bool)
        ensures
            r == self@.educators.contains(educator),
    {
        self.educators.contains(&educator)
    }

    /// Whether the ledger is paused.
    pub fn is_paused(&self) -> (r: bool)
        ensures
            r == self@.paused,
    {
        self.paused
    }

    /// The owner's account id.
    pub fn owner(&self) -> (r: u64)
        ensures
            r == self@.owner,
    {
        self.owner
    }

    /// Quest `quest_id`, or `NotFound`.
    pub fn get_quest_details(&self, quest_id: u64) -> (r: Result<&Quest, ElronomError>)
        requires
            self.wf(),
        ensures
            1 <= quest_id <= self@.quests.len() ==> (r matches Ok(q) && q@ == self@.quests[quest_id - 1]),
            !(1 <= quest_id <= self@.quests.len()) ==> r == Err::<&Quest, ElronomError>(
                ElronomError::NotFound,
            ),
    {
        if quest_id < 1 || quest_id >= self.quest_counter {
            return Err(ElronomError::NotFound);
        }
        let n = self.quests.len();
        assert(quest_id - 1 < n);
        let idx = (quest_id - 1) as usize;
        Ok(&self.quests[idx])
    }

    /// The progress of `user`, or the fresh record that a first activity at
    /// `now` would create; never fails.
    pub fn get_user_progress(&self, user: u64, now: u64) -> (r: UserProgress)
        ensures
            r == progress_at(self@, user, now),
    {
        self.current_progress(user, now)
    }

    /// The ids of the credentials issued to `user`, in the order of issue.
    pub fn get_user_nfts(&self, user: u64) -> (r: Vec<u64>)
        requires
            self.wf(),
        ensures
            r@ == owned_ids(self@.credential_owners, user),
    {
        let mut r: Vec<u64> = Vec::new();
        let mut i: usize = 0;
        while i < self.nft_owners.len()
            invariant
                i <= self.nft_owners@.len(),
                r@ == owned_ids(self.nft_owners@.take(i as int), user),
            decreases self.nft_owners@.len() - i,
        {
            let ghost before = self.nft_owners@.take(i as int);
            let ghost after = self.nft_owners@.take(i + 1);
            assert(after.drop_last() =~= before);
            assert(after.last() == self.nft_owners@[i as int]);
            if self.nft_owners[i] == user {
                r.push((i + 1) as u64);
            }
            i = i + 1;
        }
        assert(self.nft_owners@.take(i as int) =~= self.nft_owners@);
        r
    }

    /// Credential `nft_id`, or `NotFound`.
    pub fn get_nft_details(&self, nft_id: u64) -> (r: Result<&EducationalNFT, ElronomError>)
        requires
            self.wf(),
        ensures
            1 <= nft_id <= self@.credentials.len() ==> (r matches Ok(n) && n@
                == self@.credentials[nft_id - 1]),
            !(1 <= nft_id <= self@.credentials.len()) ==> r == Err::<&EducationalNFT, ElronomError>(
                ElronomError::NotFound,
            ),
    {
        if nft_id < 1 || nft_id >= self.nft_counter {
            return Err(ElronomError::NotFound);
        }
        let n = self.nfts.len();
        assert(nft_id - 1 < n);
        let idx = (nft_id - 1) as usize;
        Ok(&self.nfts[idx])
    }
}

} // verus!
