use amoeba::merge::sort_responses;
use amoeba::response::DisplayContent;
use amoeba::response::QueryResponse;
use amoeba::response::ResponseAction;

fn item(label: &str, priority: i64) -> QueryResponse {
    QueryResponse::new(
        DisplayContent {
            marker: String::new(),
            primary: label.to_string(),
            secondary: None,
        },
        ResponseAction::NoOp,
        priority,
    )
}

fn labels(items: &[QueryResponse]) -> Vec<&str> {
    items.iter().map(|r| r.display.primary.as_str()).collect()
}

#[test]
fn stable_merge_of_two_providers() {
    // Provider A emits priorities [5, 4, 3] in order, provider B [5, 4]; the
    // items arrive interleaved.  The merged, sorted accumulation keeps
    // arrival order among equal priorities.
    let arrived = vec![
        item("A0", 5),
        item("B0", 5),
        item("A1", 4),
        item("B1", 4),
        item("A2", 3),
    ];
    let sorted = sort_responses(arrived);
    assert_eq!(labels(&sorted), vec!["A0", "B0", "A1", "B1", "A2"]);
    assert_eq!(
        sorted.iter().map(|r| r.priority).collect::<Vec<_>>(),
        vec![5, 5, 4, 4, 3]
    );
}

#[test]
fn stable_merge_when_one_provider_finishes_first() {
    // Same emissions, but all of A arrives before any of B: equal-priority
    // items still keep this arrival order.
    let arrived = vec![
        item("A0", 5),
        item("A1", 4),
        item("A2", 3),
        item("B0", 5),
        item("B1", 4),
    ];
    let sorted = sort_responses(arrived);
    assert_eq!(labels(&sorted), vec!["A0", "B0", "A1", "B1", "A2"]);
}

#[test]
fn sort_is_descending_by_priority() {
    let arrived = vec![item("x", -3), item("y", 10), item("z", 0), item("w", 10)];
    let sorted = sort_responses(arrived);
    assert_eq!(labels(&sorted), vec!["y", "w", "z", "x"]);
}

#[test]
fn sort_of_empty_and_singleton() {
    assert_eq!(sort_responses(Vec::new()).len(), 0);
    let one = sort_responses(vec![item("only", 2)]);
    assert_eq!(labels(&one), vec!["only"]);
}

#[test]
fn resorting_accumulated_list_keeps_stability() {
    // The consumer drains in batches: sorting, appending, and sorting again
    // gives the same list as sorting the whole arrival order once.
    let first_batch = vec![item("A0", 5), item("B0", 5)];
    let mut accumulated = sort_responses(first_batch);
    accumulated.push(item("A1", 4));
    accumulated.push(item("B1", 4));
    accumulated.push(item("A2", 3));
    let sorted = sort_responses(accumulated);
    assert_eq!(labels(&sorted), vec!["A0", "B0", "A1", "B1", "A2"]);
}
