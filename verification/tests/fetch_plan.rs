use financial_analysis::stock_data_fetching::{FetchError, FetchPlan, FetchResource};

#[test]
fn plan_fetches_three_resources_then_evaluates() {
    let mut plan = FetchPlan::new();
    assert_eq!(plan.next_resource(), Some(FetchResource::Financials));
    plan.record_success();
    assert_eq!(plan.next_resource(), Some(FetchResource::Information));
    plan.record_success();
    assert_eq!(plan.next_resource(), Some(FetchResource::Quote));
    plan.record_success();
    assert_eq!(plan.next_resource(), None);
    assert!(plan.ready_to_evaluate());
    plan.record_evaluated();
    assert!(!plan.ready_to_evaluate());
    assert_eq!(plan.next_resource(), None);
    assert_eq!(plan.failure_of(), None);
}

#[test]
fn failed_fetch_ends_the_plan_without_retry() {
    let mut plan = FetchPlan::new();
    plan.record_success();
    plan.record_failure(FetchError::Network);
    // The failed symbol is done: nothing further to fetch, nothing to
    // evaluate, and the failure is kept for the symbol's outcome.
    assert_eq!(plan.next_resource(), None);
    assert!(!plan.ready_to_evaluate());
    assert_eq!(plan.failure_of(), Some(FetchError::Network));
}

#[test]
fn shape_error_is_kept_distinct_from_network_error() {
    let mut plan = FetchPlan::new();
    plan.record_failure(FetchError::UpstreamShape);
    assert_eq!(plan.failure_of(), Some(FetchError::UpstreamShape));
}
