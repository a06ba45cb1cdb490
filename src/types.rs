use vstd::prelude::*;

verus! {

/// How often a quest can be offered.
#[derive(Clone, Copy, PartialEq, Eq, Debug, Structural)]
pub enum QuestType {
    Daily,
    Weekly,
    Epic,
}

/// The kind of an educational credential.
#[derive(Clone, Copy, PartialEq, Eq, Debug, Structural)]
pub enum EducationalNFTType {
    Certificate,
    Achievement,
    Quest,
}

/// Why an operation was rejected. A rejected operation changes nothing.
#[derive(Clone, Copy, PartialEq, Eq, Debug, Structural)]
pub enum ElronomError {
    /// The caller is not the owner, or not a granted educator.
    PermissionDenied,
    /// The ledger is paused, or the quest is inactive.
    InvalidState,
    /// A numeric input, or a counter it would move, is outside its bound.
    InvalidRange,
    /// No quest or credential has the given id.
    NotFound,
    /// The caller has already completed this quest.
    AlreadyCompleted,
}

/// The progression record of one user.
#[derive(Clone, Copy, PartialEq, Eq, Debug, Structural)]
pub struct UserProgress {
    pub total_xp: u32,
    pub level: u8,
    pub completed_quests: u32,
    pub streak_days: u16,
    pub badges_earned: u16,
    /// Running average of accuracy scores, a percentage.
    pub prediction_accuracy: u8,
    pub last_activity: u64,
}

/// A quest of the catalog. Its id is its position in the catalog, counted from 1.
#[derive(Debug)]
pub struct Quest {
    pub quest_id: u64,
    pub quest_type: QuestType,
    pub difficulty: u8,
    pub xp_reward: u32,
    /// Reward in the platform's native currency, in its smallest unit.
    pub egld_reward: u128,
    pub completion_criteria: Vec<u8>,
    pub is_active: bool,
}

/// What a quest is, with its byte fields as sequences.
pub struct QuestView {
    pub quest_id: u64,
    pub quest_type: QuestType,
    pub difficulty: u8,
    pub xp_reward: u32,
    pub egld_reward: u128,
    pub completion_criteria: Seq<u8>,
    pub is_active: bool,
}

impl View for Quest {
    type V = QuestView;

    open spec fn view(&self) -> QuestView {
        QuestView {
            quest_id: self.quest_id,
            quest_type: self.quest_type,
            difficulty: self.difficulty,
            xp_reward: self.xp_reward,
            egld_reward: self.egld_reward,
            completion_criteria: self.completion_criteria@,
            is_active: self.is_active,
        }
    }
}

/// An educational credential issued to a user.
#[derive(Debug)]
pub struct EducationalNFT {
    pub course_id: u64,
    pub completion_date: u64,
    pub skill_level: u8,
    pub issuing_authority: Vec<u8>,
    pub verification_hash: Vec<u8>,
    pub nft_type: EducationalNFTType,
}

/// What a credential is, with its byte fields as sequences.
pub struct CredentialView {
    pub course_id: u64,
    pub completion_date: u64,
    pub skill_level: u8,
    pub issuing_authority: Seq<u8>,
    pub verification_hash: Seq<u8>,
    pub nft_type: EducationalNFTType,
}

impl View for EducationalNFT {
    type V = CredentialView;

    open spec fn view(&self) -> CredentialView {
        CredentialView {
            course_id: self.course_id,
            completion_date: self.completion_date,
            skill_level: self.skill_level,
            issuing_authority: self.issuing_authority@,
            verification_hash: self.verification_hash@,
            nft_type: self.nft_type,
        }
    }
}

/// What a successful quest completion hands to the host: the reward to pay
/// out and the facts its audit records carry.
#[derive(Clone, Copy, Debug)]
pub struct CompletionReceipt {
    pub xp_earned: u32,
    pub accuracy_score: u8,
    /// The new level, where the completion raised it.
    pub new_level: Option<u8>,
    /// Native-currency reward to disburse to the caller; zero for none.
    pub egld_reward: u128,
}

} // verus!
