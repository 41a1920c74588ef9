//! The closed set of benchmarkable heuristic identities and the registry
//! lookups that map an identity to its algorithm configuration, its optional
//! clique bound, and its canonical display label.

use crate::digits::push_decimal;
use crate::digits::spec_decimal;
use vstd::prelude::*;

verus! {

/// Naming of the variants: five letters abbreviating the spanning-tree
/// construction strategy, a separating `I`, five or six letters abbreviating
/// the edge-weight function, and optionally `IBC` ("bounded cliques") for
/// variants that carry a clique-size bound.
#[derive(Debug, Copy, Clone, PartialEq, Eq, Structural)]
pub enum HeuristicTypes {
    // For comparison of edge weights:
    MSTreILeDif,
    MSTreINegIn,
    MSTreIUnion,
    MSTreIDisjU,
    // For comparison of combined edge weights:
    MSTreINiTLd,
    MSTreILdTNi,
    // For comparison of spanning tree construction:
    FilWhINiTLd,
    FWhUEINiTLd,
    FWBagINonee,
    // Baseline greedy algorithm, configured outside this registry:
    GreedyDegreeFillIn,
    // Bounded-clique variant used by default suites:
    FilWhINiTLdIBC(usize),
    // Further variants kept for completeness:
    FilWhINegIn,
    FilWhILeDif,
    FiWhTINiTLd,
    FilWhILdTNi,
    MSTreINiTLdIBC(usize),
    FiWhTINiTLdIBC(usize),
}

/// The strategy used to build a spanning tree over the auxiliary clique
/// graph, one tag per strategy of the opaque heuristic library.
#[derive(Debug, Copy, Clone, PartialEq, Eq, Structural)]
pub enum SpanningTreeComputationType {
    MSTAndUseTreeStructure,
    FillWhilstMST,
    FillWhilstMSTEdgeUpdate,
    FillWhilstMSTTree,
    FillWhilstMSTBagSize,
}

/// An edge-weight function that scores a candidate edge between two vertex
/// sets with a single integer.
#[derive(Debug, Copy, Clone, PartialEq, Eq, Structural)]
pub enum SingleScoreFunction {
    Union,
    DisjointUnion,
    NegativeIntersection,
    LeastDifference,
}

/// An edge-weight function that scores a candidate edge with an ordered pair
/// of integers (primary key, tie-break key).
#[derive(Debug, Copy, Clone, PartialEq, Eq, Structural)]
pub enum PairedScoreFunction {
    LeastDifferenceThenNegativeIntersection,
    NegativeIntersectionThenLeastDifference,
}

/// The edge-weight scoring function of a configuration, tagged by the shape
/// of its result: one integer score, or an ordered pair of integer scores.
/// The shape is fixed per identity and never changes at runtime.
#[derive(Debug, Copy, Clone, PartialEq, Eq, Structural)]
pub enum EdgeWeightTypes {
    ReturnI32(SingleScoreFunction),
    ReturnI32Tuple(PairedScoreFunction),
}

/// The algorithm configuration of an identity: `None` exactly for the one
/// baseline variant that is not configurable through this registry.
pub open spec fn spec_configuration(h: HeuristicTypes) -> Option<
    (SpanningTreeComputationType, EdgeWeightTypes),
> {
    match h {
        HeuristicTypes::MSTreIUnion => Some(
            (
                SpanningTreeComputationType::MSTAndUseTreeStructure,
                EdgeWeightTypes::ReturnI32(SingleScoreFunction::Union),
            ),
        ),
        HeuristicTypes::MSTreIDisjU => Some(
            (
                SpanningTreeComputationType::MSTAndUseTreeStructure,
                EdgeWeightTypes::ReturnI32(SingleScoreFunction::DisjointUnion),
            ),
        ),
        HeuristicTypes::MSTreINegIn => Some(
            (
                SpanningTreeComputationType::MSTAndUseTreeStructure,
                EdgeWeightTypes::ReturnI32(SingleScoreFunction::NegativeIntersection),
            ),
        ),
        HeuristicTypes::FilWhINegIn => Some(
            (
                SpanningTreeComputationType::FillWhilstMST,
                EdgeWeightTypes::ReturnI32(SingleScoreFunction::NegativeIntersection),
            ),
        ),
        HeuristicTypes::MSTreILeDif => Some(
            (
                SpanningTreeComputationType::MSTAndUseTreeStructure,
                EdgeWeightTypes::ReturnI32(SingleScoreFunction::LeastDifference),
            ),
        ),
        HeuristicTypes::FilWhILeDif => Some(
            (
                SpanningTreeComputationType::FillWhilstMST,
                EdgeWeightTypes::ReturnI32(SingleScoreFunction::LeastDifference),
            ),
        ),
        HeuristicTypes::MSTreILdTNi => Some(
            (
                SpanningTreeComputationType::MSTAndUseTreeStructure,
                EdgeWeightTypes::ReturnI32Tuple(
                    PairedScoreFunction::LeastDifferenceThenNegativeIntersection,
                ),
            ),
        ),
        HeuristicTypes::FilWhILdTNi => Some(
            (
                SpanningTreeComputationType::FillWhilstMST,
                EdgeWeightTypes::ReturnI32Tuple(
                    PairedScoreFunction::LeastDifferenceThenNegativeIntersection,
                ),
            ),
        ),
        HeuristicTypes::MSTreINiTLd => Some(
            (
                SpanningTreeComputationType::MSTAndUseTreeStructure,
                EdgeWeightTypes::ReturnI32Tuple(
                    PairedScoreFunction::NegativeIntersectionThenLeastDifference,
                ),
            ),
        ),
        HeuristicTypes::FilWhINiTLd => Some(
            (
                SpanningTreeComputationType::FillWhilstMST,
                EdgeWeightTypes::ReturnI32Tuple(
                    PairedScoreFunction::NegativeIntersectionThenLeastDifference,
                ),
            ),
        ),
        HeuristicTypes::FWhUEINiTLd => Some(
            (
                SpanningTreeComputationType::FillWhilstMSTEdgeUpdate,
                EdgeWeightTypes::ReturnI32Tuple(
                    PairedScoreFunction::NegativeIntersectionThenLeastDifference,
                ),
            ),
        ),
        HeuristicTypes::FiWhTINiTLd => Some(
            (
                SpanningTreeComputationType::FillWhilstMSTTree,
                EdgeWeightTypes::ReturnI32Tuple(
                    PairedScoreFunction::NegativeIntersectionThenLeastDifference,
                ),
            ),
        ),
        HeuristicTypes::FWBagINonee => Some(
            (
                SpanningTreeComputationType::FillWhilstMSTBagSize,
                EdgeWeightTypes::ReturnI32Tuple(
                    PairedScoreFunction::NegativeIntersectionThenLeastDifference,
                ),
            ),
        ),
        HeuristicTypes::MSTreINiTLdIBC(_) => Some(
            (
                SpanningTreeComputationType::MSTAndUseTreeStructure,
                EdgeWeightTypes::ReturnI32Tuple(
                    PairedScoreFunction::NegativeIntersectionThenLeastDifference,
                ),
            ),
        ),
        HeuristicTypes::FilWhINiTLdIBC(_) => Some(
            (
                SpanningTreeComputationType::FillWhilstMST,
                EdgeWeightTypes::ReturnI32Tuple(
                    PairedScoreFunction::NegativeIntersectionThenLeastDifference,
                ),
            ),
        ),
        HeuristicTypes::FiWhTINiTLdIBC(_) => Some(
            (
                SpanningTreeComputationType::FillWhilstMSTTree,
                EdgeWeightTypes::ReturnI32Tuple(
                    PairedScoreFunction::NegativeIntersectionThenLeastDifference,
                ),
            ),
        ),
        HeuristicTypes::GreedyDegreeFillIn => None,
    }
}

/// The clique bound carried by an identity: `Some` exactly for the
/// bounded-clique variants.
pub open spec fn spec_clique_bound(h: HeuristicTypes) -> Option<usize> {
    match h {
        HeuristicTypes::MSTreINiTLdIBC(clique_bound) => Some(clique_bound),
        HeuristicTypes::FilWhINiTLdIBC(clique_bound) => Some(clique_bound),
        HeuristicTypes::FiWhTINiTLdIBC(clique_bound) => Some(clique_bound),
        _ => None,
    }
}

/// Maps an identity to the spanning-tree construction strategy and
/// edge-weight function that configure the heuristic library for it, or
/// `None` for the baseline greedy degree/fill-in algorithm, which is not
/// configurable through this registry.
pub fn heuristic_to_spanning_tree_computation_type_and_edge_weight_heuristic(
    heuristic: &HeuristicTypes,
) -> (r: Option<(SpanningTreeComputationType, EdgeWeightTypes)>)
    ensures
        r == spec_configuration(*heuristic),
{
    match heuristic {
        HeuristicTypes::MSTreIUnion => Some(
            (
                SpanningTreeComputationType::MSTAndUseTreeStructure,
                EdgeWeightTypes::ReturnI32(SingleScoreFunction::Union),
            ),
        ),
        HeuristicTypes::MSTreIDisjU => Some(
            (
                SpanningTreeComputationType::MSTAndUseTreeStructure,
                EdgeWeightTypes::ReturnI32(SingleScoreFunction::DisjointUnion),
            ),
        ),
        HeuristicTypes::MSTreINegIn => Some(
            (
                SpanningTreeComputationType::MSTAndUseTreeStructure,
                EdgeWeightTypes::ReturnI32(SingleScoreFunction::NegativeIntersection),
            ),
        ),
        HeuristicTypes::FilWhINegIn => Some(
            (
                SpanningTreeComputationType::FillWhilstMST,
                EdgeWeightTypes::ReturnI32(SingleScoreFunction::NegativeIntersection),
            ),
        ),
        HeuristicTypes::MSTreILeDif => Some(
            (
                SpanningTreeComputationType::MSTAndUseTreeStructure,
                EdgeWeightTypes::ReturnI32(SingleScoreFunction::LeastDifference),
            ),
        ),
        HeuristicTypes::FilWhILeDif => Some(
            (
                SpanningTreeComputationType::FillWhilstMST,
                EdgeWeightTypes::ReturnI32(SingleScoreFunction::LeastDifference),
            ),
        ),
        HeuristicTypes::MSTreILdTNi => Some(
            (
                SpanningTreeComputationType::MSTAndUseTreeStructure,
                EdgeWeightTypes::ReturnI32Tuple(
                    PairedScoreFunction::LeastDifferenceThenNegativeIntersection,
                ),
            ),
        ),
        HeuristicTypes::FilWhILdTNi => Some(
            (
                SpanningTreeComputationType::FillWhilstMST,
                EdgeWeightTypes::ReturnI32Tuple(
                    PairedScoreFunction::LeastDifferenceThenNegativeIntersection,
                ),
            ),
        ),
        HeuristicTypes::MSTreINiTLd => Some(
            (
                SpanningTreeComputationType::MSTAndUseTreeStructure,
                EdgeWeightTypes::ReturnI32Tuple(
                    PairedScoreFunction::NegativeIntersectionThenLeastDifference,
                ),
            ),
        ),
        HeuristicTypes::FilWhINiTLd => Some(
            (
                SpanningTreeComputationType::FillWhilstMST,
                EdgeWeightTypes::ReturnI32Tuple(
                    PairedScoreFunction::NegativeIntersectionThenLeastDifference,
                ),
            ),
        ),
        HeuristicTypes::FWhUEINiTLd => Some(
            (
                SpanningTreeComputationType::FillWhilstMSTEdgeUpdate,
                EdgeWeightTypes::ReturnI32Tuple(
                    PairedScoreFunction::NegativeIntersectionThenLeastDifference,
                ),
            ),
        ),
        HeuristicTypes::FiWhTINiTLd => Some(
            (
                SpanningTreeComputationType::FillWhilstMSTTree,
                EdgeWeightTypes::ReturnI32Tuple(
                    PairedScoreFunction::NegativeIntersectionThenLeastDifference,
                ),
            ),
        ),
        HeuristicTypes::FWBagINonee => Some(
            (
                SpanningTreeComputationType::FillWhilstMSTBagSize,
                EdgeWeightTypes::ReturnI32Tuple(
                    PairedScoreFunction::NegativeIntersectionThenLeastDifference,
                ),
            ),
        ),
        HeuristicTypes::MSTreINiTLdIBC(_) => Some(
            (
                SpanningTreeComputationType::MSTAndUseTreeStructure,
                EdgeWeightTypes::ReturnI32Tuple(
                    PairedScoreFunction::NegativeIntersectionThenLeastDifference,
                ),
            ),
        ),
        HeuristicTypes::FilWhINiTLdIBC(_) => Some(
            (
                SpanningTreeComputationType::FillWhilstMST,
                EdgeWeightTypes::ReturnI32Tuple(
                    PairedScoreFunction::NegativeIntersectionThenLeastDifference,
                ),
            ),
        ),
        HeuristicTypes::FiWhTINiTLdIBC(_) => Some(
            (
                SpanningTreeComputationType::FillWhilstMSTTree,
                EdgeWeightTypes::ReturnI32Tuple(
                    PairedScoreFunction::NegativeIntersectionThenLeastDifference,
                ),
            ),
        ),
        HeuristicTypes::GreedyDegreeFillIn => None,
    }
}

/// Extracts the clique bound of an identity: the carried integer for every
/// bounded-clique variant, `None` for every other variant.
pub fn heuristic_to_clique_bound(heuristic: &HeuristicTypes) -> (r: Option<usize>)
    ensures
        r == spec_clique_bound(*heuristic),
{
    match heuristic {
        HeuristicTypes::MSTreIUnion => None,
        HeuristicTypes::MSTreIDisjU => None,
        HeuristicTypes::MSTreINegIn => None,
        HeuristicTypes::FilWhINegIn => None,
        HeuristicTypes::MSTreILeDif => None,
        HeuristicTypes::FilWhILeDif => None,
        HeuristicTypes::MSTreILdTNi => None,
        HeuristicTypes::FilWhILdTNi => None,
        HeuristicTypes::MSTreINiTLd => None,
        HeuristicTypes::FilWhINiTLd => None,
        HeuristicTypes::FWhUEINiTLd => None,
        HeuristicTypes::FiWhTINiTLd => None,
        HeuristicTypes::FWBagINonee => None,
        HeuristicTypes::MSTreINiTLdIBC(clique_bound) => Some(*clique_bound),
        HeuristicTypes::FilWhINiTLdIBC(clique_bound) => Some(*clique_bound),
        HeuristicTypes::FiWhTINiTLdIBC(clique_bound) => Some(*clique_bound),
        HeuristicTypes::GreedyDegreeFillIn => None,
    }
}

/// The canonical display label of an identity: a short mnemonic; for
/// bounded-clique variants the base mnemonic, a space, and the decimal
/// clique bound.
pub open spec fn spec_label(h: HeuristicTypes) -> Seq<char> {
    match h {
        HeuristicTypes::MSTreIUnion => "MTrUn"@,
        HeuristicTypes::MSTreIDisjU => "MTrDU"@,
        HeuristicTypes::MSTreINegIn => "MTrNi"@,
        HeuristicTypes::FilWhINegIn => "FiWhNi"@,
        HeuristicTypes::MSTreILeDif => "MTrLd"@,
        HeuristicTypes::FilWhILeDif => "FiWhLd"@,
        HeuristicTypes::MSTreINiTLd => "MTrNiTLd"@,
        HeuristicTypes::FilWhINiTLd => "FiWhNiTLd"@,
        HeuristicTypes::FWhUEINiTLd => "FWUNiTLd"@,
        HeuristicTypes::MSTreILdTNi => "MTrLdTNi"@,
        HeuristicTypes::FilWhILdTNi => "FiWhLdTNi"@,
        HeuristicTypes::FiWhTINiTLd => "FWTNiTLd"@,
        HeuristicTypes::FWBagINonee => "FWB"@,
        HeuristicTypes::MSTreINiTLdIBC(clique_bound) => "MTrNiTLdBC "@ + spec_decimal(
            clique_bound as nat,
        ),
        HeuristicTypes::FilWhINiTLdIBC(clique_bound) => "FiWhLdTNiBC "@ + spec_decimal(
            clique_bound as nat,
        ),
        HeuristicTypes::FiWhTINiTLdIBC(clique_bound) => "FWTNiTLd "@ + spec_decimal(
            clique_bound as nat,
        ),
        HeuristicTypes::GreedyDegreeFillIn => "GreedyDegreeFillIn"@,
    }
}

impl HeuristicTypes {
    /// The canonical short display label of this identity.
    pub fn display_label(&self) -> (r: String)
        ensures
            r@ == spec_label(*self),
    {
        match self {
            HeuristicTypes::MSTreIUnion => "MTrUn".to_owned(),
            HeuristicTypes::MSTreIDisjU => "MTrDU".to_owned(),
            HeuristicTypes::MSTreINegIn => "MTrNi".to_owned(),
            HeuristicTypes::FilWhINegIn => "FiWhNi".to_owned(),
            HeuristicTypes::MSTreILeDif => "MTrLd".to_owned(),
            HeuristicTypes::FilWhILeDif => "FiWhLd".to_owned(),
            HeuristicTypes::MSTreINiTLd => "MTrNiTLd".to_owned(),
            HeuristicTypes::FilWhINiTLd => "FiWhNiTLd".to_owned(),
            HeuristicTypes::FWhUEINiTLd => "FWUNiTLd".to_owned(),
            HeuristicTypes::MSTreILdTNi => "MTrLdTNi".to_owned(),
            HeuristicTypes::FilWhILdTNi => "FiWhLdTNi".to_owned(),
            HeuristicTypes::FiWhTINiTLd => "FWTNiTLd".to_owned(),
            HeuristicTypes::FWBagINonee => "FWB".to_owned(),
            HeuristicTypes::MSTreINiTLdIBC(clique_bound) => {
                let mut label = "MTrNiTLdBC ".to_owned();
                push_decimal(*clique_bound, &mut label);
                label
            },
            HeuristicTypes::FilWhINiTLdIBC(clique_bound) => {
                let mut label = "FiWhLdTNiBC ".to_owned();
                push_decimal(*clique_bound, &mut label);
                label
            },
            HeuristicTypes::FiWhTINiTLdIBC(clique_bound) => {
                let mut label = "FWTNiTLd ".to_owned();
                push_decimal(*clique_bound, &mut label);
                label
            },
            HeuristicTypes::GreedyDegreeFillIn => "GreedyDegreeFillIn".to_owned(),
        }
    }
}

/// Display labels are deterministic: any two label strings returned for the
/// same identity are equal, because both equal `spec_label` of the identity.
pub proof fn lemma_label_deterministic(h: HeuristicTypes, first: Seq<char>, second: Seq<char>)
    requires
        first == spec_label(h),
        second == spec_label(h),
    ensures
        first == second,
{
}

/// The parameter lookup and the configuration lookup are mutually
/// consistent: an identity that carries a clique bound always has a
/// configuration, and the configuration is absent exactly for the single
/// baseline variant.
pub proof fn lemma_registry_consistent(h: HeuristicTypes)
    ensures
        spec_clique_bound(h) is Some ==> spec_configuration(h) is Some,
        spec_configuration(h) is None <==> h == HeuristicTypes::GreedyDegreeFillIn,
{
}

} // verus!
