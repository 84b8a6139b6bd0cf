//! Metadata of collective origins: who a collective is, how it ranks its
//! members, what it knows, and how it fares against its principles.
use vstd::prelude::*;

use bounded_collections::{BoundedBTreeMap, BoundedVec, ConstU32};

pub mod api;
pub mod helpers;

verus! {

/// Maximum length for names
pub type MaxNameLength = ConstU32<64>;

/// Maximum length for rank titles
pub type MaxRankTitleLength = ConstU32<64>;

/// Maximum number of rank titles
pub type MaxRankTitles = ConstU32<20>;

/// Maximum number of ranks
pub type MaxRanks = ConstU32<10>;

/// Maximum length for collective type names
pub type MaxCollectiveTypeNameLength = ConstU32<64>;

/// Maximum length for expertise areas
pub type MaxExpertiseAreaLength = ConstU32<64>;

/// Maximum number of expertise areas
pub type MaxExpertiseAreas = ConstU32<10>;

/// Collective id of the Technical Fellowship.
pub const TECH_FELLOWSHIP: u32 = 4;

/// Collective id of the Society.
pub const SOCIETY: u32 = 5;

/// Collective id of the Ambassador Fellowship.
pub const AMBASSADOR_FELLOWSHIP: u32 = 6;

/// Origin type with comprehensive metadata
#[derive(Clone, Debug, PartialEq, Eq)]
pub enum OriginType<AccountId, BlockNumber> {
    /// A signed origin with an account ID
    Signed(AccountId),
    /// The root origin
    Root,
    /// A collective origin with detailed metadata
    Collective {
        /// Collective identifier
        id: u32,
        /// Collective name
        name: BoundedVec<u8, MaxNameLength>,
        /// Rank structure (based on Fellowship model)
        rank_structure: RankStructure,
        /// Authorization privilege level (0-255 scale)
        privilege_level: u8,
        /// Domain expertise (critical for governance)
        expertise: BoundedBTreeMap<ExpertiseArea, ExpertiseLevel, MaxExpertiseAreas>,
        /// Fellowship-specific metrics
        fellowship_metrics: FellowshipMetrics<BlockNumber>,
    },
    /// No origin
    NoOrigin,
}

/// Enhanced rank structure supporting all collective types
#[derive(Clone, Debug, PartialEq, Eq)]
pub struct RankStructure {
    /// Collective type
    pub collective_type: CollectiveType,
    /// Maximum rank in this collective
    pub max_rank: u8,
    /// Maps rank titles to their numerical values
    pub rank_thresholds: BoundedBTreeMap<RankTitle, u8, MaxRankTitles>,
    /// Maps rank to count of members at that rank
    pub member_distribution: BoundedBTreeMap<u8, u32, MaxRanks>,
    /// Maps rank to voting weight
    pub rank_weights: BoundedBTreeMap<u8, u32, MaxRanks>,
}

/// Types of collectives supported in the system
#[derive(Clone, Debug, PartialEq, Eq, PartialOrd, Ord)]
pub enum CollectiveType {
    /// Technical Fellowship collective
    TechnicalFellowship,
    /// Ambassador Fellowship collective
    AmbassadorFellowship,
    /// Other collective types
    Other(BoundedVec<u8, MaxCollectiveTypeNameLength>),
}

/// Rank titles across different collectives
#[derive(Clone, Debug, PartialEq, Eq, PartialOrd, Ord)]
pub enum RankTitle {
    /// Candidate rank in Technical Fellowship
    Candidate,
    /// Member rank in Technical Fellowship
    Member,
    /// Fellow rank in Technical Fellowship
    Fellow,
    /// Architect rank in Technical Fellowship
    Architect,
    /// Master rank in Technical Fellowship
    Master,
    /// Advocate Ambassador (Rank 0)
    AdvocateAmbassador,
    /// Associate Ambassador (Rank I)
    AssociateAmbassador,
    /// Lead Ambassador (Rank II)
    LeadAmbassador,
    /// Senior Ambassador (Rank III)
    SeniorAmbassador,
    /// Principal Ambassador (Rank IV)
    PrincipalAmbassador,
    /// Global Ambassador (Rank V)
    GlobalAmbassador,
    /// Global Head Ambassador (Rank VI)
    GlobalHeadAmbassador,
    /// Candidate member of Society
    SocietyCandidate,
    /// Suspended member of Society
    SocietySuspended,
    /// Regular member of Society
    SocietyMember,
    /// Defender role in Society (skeptic)
    SocietyDefender,
    /// Head of Society (elected leader)
    SocietyHead,
    /// Custom rank title
    Custom(BoundedVec<u8, MaxRankTitleLength>),
}

/// Comprehensive expertise areas from all collectives
#[derive(Clone, Debug, PartialEq, Eq, PartialOrd, Ord)]
pub enum ExpertiseArea {
    /// Runtime Development expertise
    RuntimeDevelopment,
    /// Consensus Algorithms expertise
    ConsensusAlgorithms,
    /// Cryptographic Protocols expertise
    CryptographicProtocols,
    /// Parachain Consensus expertise
    ParachainConsensus,
    /// Cross-Chain Messaging expertise
    CrossChainMessaging,
    /// Peer Networking expertise
    PeerNetworking,
    /// Topology Strategies expertise
    TopologyStrategies,
    /// Chain Synchronization expertise
    ChainSynchronization,
    /// FRAME Pallets expertise
    FramePallets,
    /// XCM Specification expertise
    XcmSpecification,
    /// Security Auditing expertise
    SecurityAuditing,
    /// Community Building expertise
    CommunityBuilding,
    /// Education expertise
    Education,
    /// Translation expertise
    Translation,
    /// Event Organization expertise
    EventOrganization,
    /// Content Creation expertise
    ContentCreation,
    /// Advocacy And Governance expertise
    AdvocacyAndGovernance,
    /// Technical Development expertise
    TechnicalDevelopment,
    /// Partnerships expertise
    Partnerships,
    /// Governance Process expertise
    GovernanceProcess,
    /// Economic Systems expertise
    EconomicSystems,
    /// Decentralized Coordination expertise
    DecentralizedCoordination,
    /// Custom expertise area
    Custom(BoundedVec<u8, MaxExpertiseAreaLength>),
}

/// Three-level expertise scale as mentioned in the Technical Fellowship
#[derive(Clone, Copy, Debug, PartialEq, Eq, PartialOrd, Ord)]
pub enum ExpertiseLevel {
    /// Basic knowledge (equivalent to rank 1-2)
    Member,
    /// Significant experience (equivalent to rank 3-6)
    Fellow,
    /// Recognized authority (equivalent to rank 7+)
    Master,
}

/// Enhanced metrics tracking for all collective types
#[derive(Clone, Debug, PartialEq, Eq)]
pub struct FellowshipMetrics<BlockNumber> {
    /// Number of proposals created
    pub proposals_created: u32,
    /// Number of proposals approved
    pub proposals_approved: u32,
    /// Number of proposals executed
    pub proposals_executed: u32,
    /// Number of code contributions
    pub code_contributions: u32,
    /// Number of security reviews
    pub security_reviews: u32,
    /// Number of community events
    pub community_events: u32,
    /// Number of educational materials
    pub educational_materials: u32,
    /// Number of translations
    pub translations: u32,
    /// Block number of last action
    pub last_action_block: BlockNumber,
    /// Block number of induction
    pub induction_block: BlockNumber,
    /// Assessment of adherence to principles
    pub principles_assessment: PrinciplesAssessment,
}

/// Comprehensive principles assessment incorporating values from all collectives
#[derive(Clone, Copy, Debug, PartialEq, Eq)]
pub struct PrinciplesAssessment {
    /// Assessment of upholding Polkadot interests (0-100)
    pub uphold_polkadot_interests: u8,
    /// Assessment of respecting philosophy (0-100)
    pub respect_philosophy: u8,
    /// Assessment of respecting procedures (0-100)
    pub respect_procedures: u8,
    /// Assessment of respecting members (0-100)
    pub respect_members: u8,
    /// Assessment of enlightened liberalism (0-100)
    pub enlightened_liberalism: u8,
    /// Assessment of critical rationalism (0-100)
    pub critical_rationalism: u8,
    /// Assessment of web3 values (0-100)
    pub web3_values: u8,
    /// Assessment of decentralization (0-100)
    pub decentralization: u8,
    /// Assessment of inclusivity (0-100)
    pub inclusivity: u8,
    /// Assessment of collaboration (0-100)
    pub collaboration: u8,
    /// Assessment of continuous development (0-100)
    pub continuous_development: u8,
    /// Assessment of integrity (0-100)
    pub integrity: u8,
    /// Assessment of innovation (0-100)
    pub innovation: u8,
    /// Assessment of transparency (0-100)
    pub transparency: u8,
    /// Assessment of accountability (0-100)
    pub accountability: u8,
}

/// Rank titles and their numerical values.
pub type RankThresholds = BoundedBTreeMap<RankTitle, u8, MaxRankTitles>;

/// A number for each rank.
pub type RankTable = BoundedBTreeMap<u8, u32, MaxRanks>;

/// Expertise levels by area.
pub type ExpertiseTable = BoundedBTreeMap<ExpertiseArea, ExpertiseLevel, MaxExpertiseAreas>;

/// What a rank-title table holds.
pub uninterp spec fn rank_threshold_entries(m: BoundedBTreeMap<RankTitle, u8, ConstU32<20>>) -> Map<RankTitle, u8>;

/// What a per-rank table (member counts or voting weights) holds.
pub uninterp spec fn rank_table_entries(m: BoundedBTreeMap<u8, u32, ConstU32<10>>) -> Map<u8, u32>;

/// What an expertise table holds.
pub uninterp spec fn expertise_entries(m: BoundedBTreeMap<ExpertiseArea, ExpertiseLevel, ConstU32<10>>) -> Map<ExpertiseArea, ExpertiseLevel>;

/// `BoundedBTreeMap::new` for rank titles: the source wraps `BTreeMap::new()`,
/// an empty map.
#[verifier::external_body]
pub fn empty_rank_thresholds() -> (m: RankThresholds)
    ensures
        forall|k| !rank_threshold_entries(m).contains_key(k),
{
    BoundedBTreeMap::new()
}

/// `BoundedBTreeMap::new` for per-rank tables: an empty map.
#[verifier::external_body]
pub fn empty_rank_table() -> (m: RankTable)
    ensures
        forall|k| !rank_table_entries(m).contains_key(k),
{
    BoundedBTreeMap::new()
}

/// `BoundedBTreeMap::new` for expertise tables: an empty map.
#[verifier::external_body]
pub fn empty_expertise() -> (m: ExpertiseTable)
    ensures
        forall|k| !expertise_entries(m).contains_key(k),
{
    BoundedBTreeMap::new()
}

} // verus!
