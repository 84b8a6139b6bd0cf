//! Public API for collective metadata
use vstd::prelude::*;

use bounded_collections::BoundedVec;

use super::helpers::{get_collective_privilege_level, privilege_level_of};
use super::{
    empty_expertise, empty_rank_table, empty_rank_thresholds, expertise_entries, rank_table_entries,
    rank_threshold_entries, CollectiveType, FellowshipMetrics, MaxNameLength, OriginType,
    PrinciplesAssessment, RankStructure,
};

verus! {

/// An assessment with every score at zero.
pub open spec fn zero_assessment() -> PrinciplesAssessment {
    PrinciplesAssessment {
        uphold_polkadot_interests: 0,
        respect_philosophy: 0,
        respect_procedures: 0,
        respect_members: 0,
        enlightened_liberalism: 0,
        critical_rationalism: 0,
        web3_values: 0,
        decentralization: 0,
        inclusivity: 0,
        collaboration: 0,
        continuous_development: 0,
        integrity: 0,
        innovation: 0,
        transparency: 0,
        accountability: 0,
    }
}

/// Creates a new collective origin type: the given id, name and type, rank
/// zero at most, empty tables, the type's privilege level, no metrics and
/// default block numbers.
pub fn create_collective_origin<AccountId, BlockNumber: Default>(
    id: u32,
    name: BoundedVec<u8, MaxNameLength>,
    collective_type: CollectiveType,
) -> (o: OriginType<AccountId, BlockNumber>)
    ensures
        o matches OriginType::Collective { id: oid, name: oname, rank_structure, privilege_level, expertise, fellowship_metrics } && {
            &&& oid == id
            &&& oname == name
            &&& rank_structure.collective_type == collective_type
            &&& rank_structure.max_rank == 0
            &&& forall|k| !rank_threshold_entries(rank_structure.rank_thresholds).contains_key(k)
            &&& forall|k| !rank_table_entries(rank_structure.member_distribution).contains_key(k)
            &&& forall|k| !rank_table_entries(rank_structure.rank_weights).contains_key(k)
            &&& privilege_level == privilege_level_of(collective_type)
            &&& forall|k| !expertise_entries(expertise).contains_key(k)
            &&& fellowship_metrics.proposals_created == 0
            &&& fellowship_metrics.proposals_approved == 0
            &&& fellowship_metrics.proposals_executed == 0
            &&& fellowship_metrics.code_contributions == 0
            &&& fellowship_metrics.security_reviews == 0
            &&& fellowship_metrics.community_events == 0
            &&& fellowship_metrics.educational_materials == 0
            &&& fellowship_metrics.translations == 0
            &&& call_ensures(BlockNumber::default, (), fellowship_metrics.last_action_block)
            &&& call_ensures(BlockNumber::default, (), fellowship_metrics.induction_block)
            &&& fellowship_metrics.principles_assessment == zero_assessment()
        },
{
    let privilege_level = get_collective_privilege_level(&collective_type);
    OriginType::Collective {
        id,
        name,
        rank_structure: RankStructure {
            collective_type,
            max_rank: 0,
            rank_thresholds: empty_rank_thresholds(),
            member_distribution: empty_rank_table(),
            rank_weights: empty_rank_table(),
        },
        privilege_level,
        expertise: empty_expertise(),
        fellowship_metrics: FellowshipMetrics {
            proposals_created: 0,
            proposals_approved: 0,
            proposals_executed: 0,
            code_contributions: 0,
            security_reviews: 0,
            community_events: 0,
            educational_materials: 0,
            translations: 0,
            last_action_block: BlockNumber::default(),
            induction_block: BlockNumber::default(),
            principles_assessment: PrinciplesAssessment {
                uphold_polkadot_interests: 0,
                respect_philosophy: 0,
                respect_procedures: 0,
                respect_members: 0,
                enlightened_liberalism: 0,
                critical_rationalism: 0,
                web3_values: 0,
                decentralization: 0,
                inclusivity: 0,
                collaboration: 0,
                continuous_development: 0,
                integrity: 0,
                innovation: 0,
                transparency: 0,
                accountability: 0,
            },
        },
    }
}

/// Extracts the collective ID from an origin type
pub fn get_collective_id<AccountId, BlockNumber>(origin: &OriginType<AccountId, BlockNumber>) -> (r: Option<u32>)
    ensures
        r == match *origin {
            OriginType::Collective { id, .. } => Some(id),
            _ => None,
        },
{
    match origin {
        OriginType::Collective { id, .. } => Some(*id),
        _ => None,
    }
}

} // verus!
