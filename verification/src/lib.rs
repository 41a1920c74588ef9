//! Configuration and result aggregation for comparative benchmarking of
//! graph-treewidth heuristics.
//!
//! The crate maps abstract heuristic identities to concrete algorithm
//! configurations (a spanning-tree construction strategy paired with an
//! edge-weight scoring function, optionally parameterized by a clique-size
//! bound), groups identities into benchmark suites, and turns raw per-trial
//! result rows into block-averaged result rows.

pub mod aggregate;
pub mod digits;
pub mod heuristics;
pub mod suites;

pub use aggregate::assemble_averaged_row;
pub use aggregate::average_header_row;
pub use aggregate::data_blocks;
pub use aggregate::AggregateError;

pub use heuristics::heuristic_to_clique_bound;
pub use heuristics::heuristic_to_spanning_tree_computation_type_and_edge_weight_heuristic;
pub use heuristics::EdgeWeightTypes;
pub use heuristics::HeuristicTypes;
pub use heuristics::PairedScoreFunction;
pub use heuristics::SingleScoreFunction;
pub use heuristics::SpanningTreeComputationType;
pub use suites::comparison_of_combined_edge_weights;
pub use suites::comparison_of_edge_weights;
pub use suites::comparison_of_spanning_tree_construction;
pub use suites::comparison_with_greedy_degree_fill_in;
pub use suites::SuiteId;
