use amoeba::merge::sort_responses;
use amoeba::response::DisplayContent;
use amoeba::response::QueryResponse;
use amoeba::response::ResponseAction;

fn item(label: &str, priority: i64) -> QueryResponse {
    QueryResponse::new(
        DisplayContent {
            marker: String::new(),
            primary: label.to_string(),
            secondary: None,
        },
        ResponseAction::NoOp,
        priority,
    )
}

// With the channel capacity forced down to 1 and two producers holding three
// items each, a producer can only send when the consumer has drained the
// slot; cooperatively suspended producers retry instead of dropping items.
// All six items come through, none lost, none duplicated.
#[test]
fn capacity_one_channel_delivers_every_item() {
    let (snd, rcv) = flume::bounded::<QueryResponse>(1);
    let mut producers: Vec<Vec<QueryResponse>> = vec![
        vec![item("A0", 5), item("A1", 4), item("A2", 3)],
        vec![item("B0", 5), item("B1", 4), item("B2", 3)],
    ];
    producers.iter_mut().for_each(|p| p.reverse());
    let mut delivered = Vec::new();
    let mut turn = 0;
    while producers.iter().any(|p| !p.is_empty()) || !rcv.is_empty() {
        for offset in 0..producers.len() {
            let p = &mut producers[(turn + offset) % 2];
            if let Some(next) = p.pop() {
                match snd.try_send(next) {
                    Ok(()) => {}
                    Err(flume::TrySendError::Full(back)) => p.push(back),
                    Err(flume::TrySendError::Disconnected(_)) => panic!("receiver gone"),
                }
            }
        }
        turn += 1;
        // The consumer drains one item per tick.
        if let Ok(got) = rcv.try_recv() {
            delivered.push(got);
        }
        assert!(turn < 100, "delivery must finish in finite time");
    }
    assert_eq!(delivered.len(), 6);
    let mut names: Vec<String> = delivered.iter().map(|r| r.display.primary.clone()).collect();
    names.sort();
    assert_eq!(names, vec!["A0", "A1", "A2", "B0", "B1", "B2"]);
    let sorted = sort_responses(delivered);
    assert_eq!(
        sorted.iter().map(|r| r.priority).collect::<Vec<_>>(),
        vec![5, 5, 4, 4, 3, 3]
    );
}
