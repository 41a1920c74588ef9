//! The default benchmark suites: named, ordered, non-empty groups of
//! heuristic identities. The order of a suite determines the column order of
//! the result tables and must match the order in which the driver runs the
//! trials.

use crate::heuristics::spec_configuration;
use crate::heuristics::HeuristicTypes;
use vstd::prelude::*;

verus! {

/// One of the default benchmark suites.
#[derive(Debug, Copy, Clone, PartialEq, Eq, Structural)]
pub enum SuiteId {
    EdgeWeights,
    CombinedEdgeWeights,
    GreedyDegreeFillIn,
    SpanningTreeConstruction,
}

/// The identities exercised by the edge-weight comparison suite.
pub open spec fn spec_comparison_of_edge_weights() -> Seq<HeuristicTypes> {
    seq![
        HeuristicTypes::MSTreILeDif,
        HeuristicTypes::MSTreINegIn,
        HeuristicTypes::MSTreIUnion,
        HeuristicTypes::MSTreIDisjU,
    ]
}

/// The identities exercised by the combined-edge-weight comparison suite.
pub open spec fn spec_comparison_of_combined_edge_weights() -> Seq<HeuristicTypes> {
    seq![HeuristicTypes::MSTreINegIn, HeuristicTypes::MSTreINiTLd, HeuristicTypes::MSTreILdTNi]
}

/// The identities exercised by the construction-strategy comparison suite.
pub open spec fn spec_comparison_of_spanning_tree_construction() -> Seq<HeuristicTypes> {
    seq![
        HeuristicTypes::MSTreINiTLd,
        HeuristicTypes::FilWhINiTLd,
        HeuristicTypes::FWhUEINiTLd,
        HeuristicTypes::FWBagINonee,
    ]
}

/// The identities exercised by the suite comparing against the external
/// greedy degree/fill-in baseline.
pub open spec fn spec_comparison_with_greedy_degree_fill_in() -> Seq<HeuristicTypes> {
    seq![HeuristicTypes::FilWhINiTLd, HeuristicTypes::GreedyDegreeFillIn]
}

/// The identity list of a suite.
pub open spec fn spec_suite(id: SuiteId) -> Seq<HeuristicTypes> {
    match id {
        SuiteId::EdgeWeights => spec_comparison_of_edge_weights(),
        SuiteId::CombinedEdgeWeights => spec_comparison_of_combined_edge_weights(),
        SuiteId::GreedyDegreeFillIn => spec_comparison_with_greedy_degree_fill_in(),
        SuiteId::SpanningTreeConstruction => spec_comparison_of_spanning_tree_construction(),
    }
}

/// The name of a suite, used to label its output files.
pub open spec fn spec_suite_name(id: SuiteId) -> Seq<char> {
    match id {
        SuiteId::EdgeWeights => "comparison_of_edge_weights"@,
        SuiteId::CombinedEdgeWeights => "comparison_of_combined_edge_weights"@,
        SuiteId::GreedyDegreeFillIn => "comparison_with_greedy_degree_fill_in"@,
        SuiteId::SpanningTreeConstruction => "comparison_of_spanning_tree_construction"@,
    }
}

/// The edge-weight comparison suite, in column order.
pub fn comparison_of_edge_weights() -> (r: Vec<HeuristicTypes>)
    ensures
        r@ == spec_comparison_of_edge_weights(),
{
    let r = vec![
        HeuristicTypes::MSTreILeDif,
        HeuristicTypes::MSTreINegIn,
        HeuristicTypes::MSTreIUnion,
        HeuristicTypes::MSTreIDisjU,
    ];
    proof {
        assert(r@ =~= spec_comparison_of_edge_weights());
    }
    r
}

/// The combined-edge-weight comparison suite, in column order.
pub fn comparison_of_combined_edge_weights() -> (r: Vec<HeuristicTypes>)
    ensures
        r@ == spec_comparison_of_combined_edge_weights(),
{
    let r = vec![
        HeuristicTypes::MSTreINegIn,
        HeuristicTypes::MSTreINiTLd,
        HeuristicTypes::MSTreILdTNi,
    ];
    proof {
        assert(r@ =~= spec_comparison_of_combined_edge_weights());
    }
    r
}

/// The construction-strategy comparison suite, in column order.
pub fn comparison_of_spanning_tree_construction() -> (r: Vec<HeuristicTypes>)
    ensures
        r@ == spec_comparison_of_spanning_tree_construction(),
{
    let r = vec![
        HeuristicTypes::MSTreINiTLd,
        HeuristicTypes::FilWhINiTLd,
        HeuristicTypes::FWhUEINiTLd,
        HeuristicTypes::FWBagINonee,
    ];
    proof {
        assert(r@ =~= spec_comparison_of_spanning_tree_construction());
    }
    r
}

/// The suite comparing against the greedy degree/fill-in baseline, in
/// column order.
pub fn comparison_with_greedy_degree_fill_in() -> (r: Vec<HeuristicTypes>)
    ensures
        r@ == spec_comparison_with_greedy_degree_fill_in(),
{
    let r = vec![HeuristicTypes::FilWhINiTLd, HeuristicTypes::GreedyDegreeFillIn];
    proof {
        assert(r@ =~= spec_comparison_with_greedy_degree_fill_in());
    }
    r
}

/// The identity list of a suite, in column order.
pub fn suite_heuristics(id: SuiteId) -> (r: Vec<HeuristicTypes>)
    ensures
        r@ == spec_suite(id),
{
    match id {
        SuiteId::EdgeWeights => comparison_of_edge_weights(),
        SuiteId::CombinedEdgeWeights => comparison_of_combined_edge_weights(),
        SuiteId::GreedyDegreeFillIn => comparison_with_greedy_degree_fill_in(),
        SuiteId::SpanningTreeConstruction => comparison_of_spanning_tree_construction(),
    }
}

/// The name of a suite.
pub fn suite_name(id: SuiteId) -> (r: String)
    ensures
        r@ == spec_suite_name(id),
{
    match id {
        SuiteId::EdgeWeights => "comparison_of_edge_weights".to_owned(),
        SuiteId::CombinedEdgeWeights => "comparison_of_combined_edge_weights".to_owned(),
        SuiteId::GreedyDegreeFillIn => "comparison_with_greedy_degree_fill_in".to_owned(),
        SuiteId::SpanningTreeConstruction => "comparison_of_spanning_tree_construction".to_owned(),
    }
}

/// All default suites, in the order a full benchmark run exercises them.
pub fn default_suites() -> (r: Vec<SuiteId>)
    ensures
        r@ == seq![
            SuiteId::EdgeWeights,
            SuiteId::CombinedEdgeWeights,
            SuiteId::GreedyDegreeFillIn,
            SuiteId::SpanningTreeConstruction,
        ],
{
    let r = vec![
        SuiteId::EdgeWeights,
        SuiteId::CombinedEdgeWeights,
        SuiteId::GreedyDegreeFillIn,
        SuiteId::SpanningTreeConstruction,
    ];
    proof {
        assert(r@ =~= seq![
            SuiteId::EdgeWeights,
            SuiteId::CombinedEdgeWeights,
            SuiteId::GreedyDegreeFillIn,
            SuiteId::SpanningTreeConstruction,
        ]);
    }
    r
}

/// Every default suite is non-empty, and every identity it references
/// resolves through the registry: it either has a configuration or is the
/// single baseline variant, so no lookup can fail.
pub proof fn lemma_suites_well_formed(id: SuiteId)
    ensures
        spec_suite(id).len() > 0,
        forall|i: int|
            0 <= i < spec_suite(id).len() ==> (spec_configuration(#[trigger] spec_suite(id)[i])
                is Some || spec_suite(id)[i] == HeuristicTypes::GreedyDegreeFillIn),
{
    let s = spec_suite(id);
    assert forall|i: int| 0 <= i < s.len() implies (spec_configuration(#[trigger] s[i]) is Some
        || s[i] == HeuristicTypes::GreedyDegreeFillIn) by {
        crate::heuristics::lemma_registry_consistent(s[i]);
    }
}

} // verus!
