use benchmark_suites::assemble_averaged_row;
use benchmark_suites::average_header_row;
use benchmark_suites::data_blocks;
use benchmark_suites::AggregateError;

fn row(fields: &[&str]) -> Vec<String> {
    fields.iter().map(|f| f.to_string()).collect()
}

/// The arithmetic mean of one block, computed as the benchmark driver does:
/// every field parsed as a 64-bit float, summed, and divided by the block
/// size in double precision.
fn block_mean(block: &[String], k: usize) -> String {
    let mut sum = 0.0f64;
    for value in block {
        sum += value.parse::<f64>().expect("block value must parse as f64");
    }
    (sum / k as f64).to_string()
}

#[test]
fn header_keeps_last_label_of_each_block() {
    let header = row(&["Graph", "Bound", "A", "A", "A", "B", "B", "B"]);
    assert_eq!(
        average_header_row(&header, 3),
        row(&["Graph", "Bound", "A", "B"])
    );
}

#[test]
fn data_blocks_and_means_of_two_configurations() {
    let data = row(&["G", "Bound", "10", "10", "10", "20", "20", "20"]);
    let blocks = data_blocks(&data, 3).expect("trailing length is a multiple of 3");
    assert_eq!(
        blocks,
        vec![row(&["10", "10", "10"]), row(&["20", "20", "20"])]
    );
    let means: Vec<String> = blocks.iter().map(|b| block_mean(b, 3)).collect();
    assert_eq!(means, row(&["10", "20"]));
    assert_eq!(
        assemble_averaged_row(&data, &means),
        row(&["G", "Bound", "10", "20"])
    );
}

#[test]
fn fractional_means() {
    let data = row(&["G", "Runtime", "1", "2", "0.5", "3.5"]);
    let blocks = data_blocks(&data, 2).expect("trailing length is a multiple of 2");
    let means: Vec<String> = blocks.iter().map(|b| block_mean(b, 2)).collect();
    assert_eq!(
        assemble_averaged_row(&data, &means),
        row(&["G", "Runtime", "1.5", "2"])
    );
}

#[test]
fn averaged_rows_have_one_entry_per_block() {
    let header = row(&["g", "c", "x", "x", "y", "y", "z", "z"]);
    assert_eq!(average_header_row(&header, 2).len(), 2 + 6 / 2);
    assert_eq!(average_header_row(&header, 3).len(), 2 + 6 / 3);
    assert_eq!(average_header_row(&header, 6).len(), 2 + 6 / 6);
    let blocks = data_blocks(&row(&["g", "c", "1", "2", "3", "4", "5", "6"]), 2).unwrap();
    assert_eq!(blocks.len(), 3);
    for block in &blocks {
        assert_eq!(block.len(), 2);
    }
}

#[test]
fn block_size_one_keeps_every_field() {
    let header = row(&["g", "c", "A", "B", "C"]);
    assert_eq!(average_header_row(&header, 1), header);
    let data = row(&["g", "c", "4", "8"]);
    let blocks = data_blocks(&data, 1).unwrap();
    assert_eq!(blocks, vec![row(&["4"]), row(&["8"])]);
}

#[test]
fn header_drops_partial_trailing_block() {
    let header = row(&["g", "c", "A", "A", "A", "B"]);
    assert_eq!(average_header_row(&header, 3), row(&["g", "c", "A"]));
}

#[test]
fn header_shorter_than_prefix_is_unchanged() {
    assert_eq!(average_header_row(&row(&["g"]), 3), row(&["g"]));
    assert_eq!(average_header_row(&row(&[]), 3), row(&[]));
}

#[test]
fn data_row_without_prefix_is_rejected() {
    assert_eq!(
        data_blocks(&row(&["g"]), 3),
        Err(AggregateError::MissingLabelPrefix)
    );
    assert_eq!(
        data_blocks(&row(&[]), 2),
        Err(AggregateError::MissingLabelPrefix)
    );
}

#[test]
fn data_row_with_partial_block_is_rejected() {
    assert_eq!(
        data_blocks(&row(&["g", "c", "1", "2", "3", "4"]), 3),
        Err(AggregateError::PartialTrailingBlock)
    );
}

#[test]
fn data_row_with_no_trailing_fields_has_no_blocks() {
    let blocks = data_blocks(&row(&["g", "c"]), 3).unwrap();
    assert!(blocks.is_empty());
}

#[test]
fn raw_rows_are_not_transformed() {
    // The aggregator only borrows the input row: the raw output the driver
    // writes is the input row itself, byte for byte.
    let data = row(&["G", "Bound", "10", "11", "12"]);
    let copy = data.clone();
    let _ = average_header_row(&data, 3);
    let _ = data_blocks(&data, 3);
    assert_eq!(data, copy);
}
