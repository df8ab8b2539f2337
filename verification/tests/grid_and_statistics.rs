use backtester::grid_search::grid_search::GridSearch;
use backtester::grid_search::parameter::Parameter;
use backtester::results_statistics::average_roi::average_return_of_investment;
use backtester::results_statistics::monte_carlo::{monte_carlo_simulation, MonteCarloError};
use backtester::results_statistics::profitable_investment::number_of_profitable_investments;

#[test]
fn axis_zero_to_two_step_one() {
    let p = Parameter::new(0, 2, 1);
    assert_eq!(p.values(), vec![0, 1, 2]);
}

#[test]
fn axis_with_overshooting_step() {
    // 0, 3, 6 <= 7 but 9 is out: count is (7 - 0) / 3 + 1 = 3.
    let p = Parameter::new(0, 7, 3);
    assert_eq!(p.values(), vec![0, 3, 6]);
}

#[test]
fn axis_with_empty_range() {
    let p = Parameter::new(5, 4, 1);
    assert_eq!(p.values(), Vec::<i64>::new());
}

#[test]
fn grid_search_counts_and_order() {
    let search = GridSearch::new(vec![Parameter::new(0, 2, 1), Parameter::new(10, 30, 10)]);
    let results = search.search(|point: &Vec<i64>| point.iter().sum::<i64>());
    // One result per combination, outermost axis major.
    assert_eq!(results.len(), 9);
    let expected_points: Vec<Vec<i64>> = vec![
        vec![0, 10],
        vec![0, 20],
        vec![0, 30],
        vec![1, 10],
        vec![1, 20],
        vec![1, 30],
        vec![2, 10],
        vec![2, 20],
        vec![2, 30],
    ];
    for (i, (point, value)) in results.iter().enumerate() {
        assert_eq!(point, &expected_points[i]);
        assert_eq!(*value, point[0] + point[1]);
    }
}

#[test]
fn grid_search_with_no_axes_has_one_empty_point() {
    let search = GridSearch::new(Vec::new());
    let results = search.search(|_point: &Vec<i64>| 7i64);
    assert_eq!(results.len(), 1);
    assert_eq!(results[0].0, Vec::<i64>::new());
    assert_eq!(results[0].1, 7);
}

#[test]
fn monte_carlo_output_length_and_sums() {
    // Picking all three outcomes leaves only one possible draw: their sum.
    let rois = vec![1i64, 2, 3];
    let outcome = monte_carlo_simulation(&rois, 5, 3).unwrap();
    assert_eq!(outcome.len(), 5);
    for v in outcome {
        assert_eq!(v, 6);
    }
}

#[test]
fn monte_carlo_equal_outcomes_sum_exactly() {
    let rois = vec![5i64, 5, 5, 5];
    let outcome = monte_carlo_simulation(&rois, 10, 2).unwrap();
    assert_eq!(outcome.len(), 10);
    for v in outcome {
        assert_eq!(v, 10);
    }
}

#[test]
fn monte_carlo_rejects_oversized_sample() {
    let rois = vec![1i64, 2];
    assert_eq!(
        monte_carlo_simulation(&rois, 3, 5),
        Err(MonteCarloError::SampleLargerThanPopulation)
    );
}

#[test]
fn average_roi_floors_toward_negative_infinity() {
    assert_eq!(average_return_of_investment(&vec![1, 2, 4]), 2);
    assert_eq!(average_return_of_investment(&vec![-3, 2]), -1);
    assert_eq!(average_return_of_investment(&vec![10]), 10);
}

#[test]
fn profitable_investments_count_strictly_above() {
    let rois = vec![5i64, 10, 15, 25];
    assert_eq!(number_of_profitable_investments(&rois, 10), 2);
    assert_eq!(number_of_profitable_investments(&rois, 0), 4);
    assert_eq!(number_of_profitable_investments(&rois, 100), 0);
}
