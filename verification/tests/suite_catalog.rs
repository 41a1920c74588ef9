use benchmark_suites::comparison_of_combined_edge_weights;
use benchmark_suites::comparison_of_edge_weights;
use benchmark_suites::comparison_of_spanning_tree_construction;
use benchmark_suites::comparison_with_greedy_degree_fill_in;
use benchmark_suites::heuristic_to_clique_bound;
use benchmark_suites::heuristic_to_spanning_tree_computation_type_and_edge_weight_heuristic;
use benchmark_suites::suites::default_suites;
use benchmark_suites::suites::suite_heuristics;
use benchmark_suites::suites::suite_name;
use benchmark_suites::HeuristicTypes;
use benchmark_suites::SuiteId;

#[test]
fn edge_weight_suite_contents() {
    assert_eq!(
        comparison_of_edge_weights(),
        vec![
            HeuristicTypes::MSTreILeDif,
            HeuristicTypes::MSTreINegIn,
            HeuristicTypes::MSTreIUnion,
            HeuristicTypes::MSTreIDisjU,
        ]
    );
}

#[test]
fn combined_edge_weight_suite_contents() {
    assert_eq!(
        comparison_of_combined_edge_weights(),
        vec![
            HeuristicTypes::MSTreINegIn,
            HeuristicTypes::MSTreINiTLd,
            HeuristicTypes::MSTreILdTNi,
        ]
    );
}

#[test]
fn spanning_tree_construction_suite_contents() {
    assert_eq!(
        comparison_of_spanning_tree_construction(),
        vec![
            HeuristicTypes::MSTreINiTLd,
            HeuristicTypes::FilWhINiTLd,
            HeuristicTypes::FWhUEINiTLd,
            HeuristicTypes::FWBagINonee,
        ]
    );
}

#[test]
fn greedy_comparison_suite_contents() {
    assert_eq!(
        comparison_with_greedy_degree_fill_in(),
        vec![
            HeuristicTypes::FilWhINiTLd,
            HeuristicTypes::GreedyDegreeFillIn,
        ]
    );
}

#[test]
fn default_suites_are_complete_and_ordered() {
    assert_eq!(
        default_suites(),
        vec![
            SuiteId::EdgeWeights,
            SuiteId::CombinedEdgeWeights,
            SuiteId::GreedyDegreeFillIn,
            SuiteId::SpanningTreeConstruction,
        ]
    );
}

#[test]
fn suite_names() {
    assert_eq!(
        suite_name(SuiteId::EdgeWeights),
        "comparison_of_edge_weights"
    );
    assert_eq!(
        suite_name(SuiteId::CombinedEdgeWeights),
        "comparison_of_combined_edge_weights"
    );
    assert_eq!(
        suite_name(SuiteId::GreedyDegreeFillIn),
        "comparison_with_greedy_degree_fill_in"
    );
    assert_eq!(
        suite_name(SuiteId::SpanningTreeConstruction),
        "comparison_of_spanning_tree_construction"
    );
}

#[test]
fn suite_lookup_matches_suite_functions() {
    assert_eq!(
        suite_heuristics(SuiteId::EdgeWeights),
        comparison_of_edge_weights()
    );
    assert_eq!(
        suite_heuristics(SuiteId::CombinedEdgeWeights),
        comparison_of_combined_edge_weights()
    );
    assert_eq!(
        suite_heuristics(SuiteId::GreedyDegreeFillIn),
        comparison_with_greedy_degree_fill_in()
    );
    assert_eq!(
        suite_heuristics(SuiteId::SpanningTreeConstruction),
        comparison_of_spanning_tree_construction()
    );
}

#[test]
fn labels_are_distinct_across_suite_members() {
    let mut labels: Vec<String> = Vec::new();
    for id in default_suites() {
        for h in suite_heuristics(id) {
            let label = h.display_label();
            if !labels.contains(&label) {
                labels.push(label);
            }
        }
    }
    let mut distinct_identities: Vec<HeuristicTypes> = Vec::new();
    for id in default_suites() {
        for h in suite_heuristics(id) {
            if !distinct_identities.contains(&h) {
                distinct_identities.push(h);
            }
        }
    }
    assert_eq!(labels.len(), distinct_identities.len());
}

#[test]
fn suites_are_nonempty_and_resolve_through_registry() {
    for id in default_suites() {
        let members = suite_heuristics(id);
        assert!(!members.is_empty());
        for h in members {
            // Every lookup is total: it returns without panicking, and the
            // configuration is absent only for the baseline variant.
            let config =
                heuristic_to_spanning_tree_computation_type_and_edge_weight_heuristic(&h);
            let _bound = heuristic_to_clique_bound(&h);
            let _label = h.display_label();
            assert_eq!(config.is_none(), h == HeuristicTypes::GreedyDegreeFillIn);
        }
    }
}
