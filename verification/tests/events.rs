use aptos_indexer_processor_example::events::{is_watched, select_events_to_insert, EventModel};

fn event(version: i64, index: i64, indexed_type: &str) -> EventModel {
    EventModel {
        sequence_number: 0,
        creation_number: 0,
        account_address: "0x1".to_string(),
        transaction_version: version,
        transaction_block_height: 7,
        type_: indexed_type.to_string(),
        data: serde_json::Value::Null,
        event_index: index,
        indexed_type: indexed_type.to_string(),
    }
}

fn keys(events: &[EventModel]) -> Vec<(i64, i64)> {
    events.iter().map(|e| (e.transaction_version, e.event_index)).collect()
}

#[test]
fn swap_event_with_type_arguments_is_watched() {
    assert!(is_watched("0x1::liquidity_pool::SwapEvent<0x1::aptos_coin::AptosCoin, 0xabc::coin::USDC>"));
}

#[test]
fn each_marker_alone_is_watched() {
    assert!(is_watched("liquidity_pool::SwapEvent"));
    assert!(is_watched("code::PublishPackage"));
    assert!(is_watched("assets_v1::CoinCreationEvent"));
    assert!(is_watched("assets_v1::prebook_coin"));
}

#[test]
fn marker_inside_longer_type_is_watched() {
    assert!(is_watched("0x1::code::PublishPackage"));
    assert!(is_watched("0xdead::assets_v1::prebook_coins_extra"));
}

#[test]
fn unrelated_types_are_not_watched() {
    assert!(!is_watched("0x1::block::NewBlockEvent"));
    assert!(!is_watched("0x1::account::CoinRegisterEvent"));
    assert!(!is_watched(""));
}

#[test]
fn near_misses_are_not_watched() {
    assert!(!is_watched("liquidity_pool::Swap"));
    assert!(!is_watched("Liquidity_pool::SwapEvent"));
    assert!(!is_watched("liquidity_pool:SwapEvent"));
    assert!(!is_watched("assets_v1::prebook"));
}

#[test]
fn marker_split_across_non_matching_text_is_not_watched() {
    assert!(!is_watched("code::Publish::Package"));
}

#[test]
fn non_ascii_types_are_handled() {
    assert!(is_watched("事件::liquidity_pool::SwapEvent"));
    assert!(!is_watched("事件::块"));
}

#[test]
fn selection_keeps_watched_events_in_order() {
    let batch = vec![
        event(1, 0, "0x1::block::NewBlockEvent"),
        event(1, 1, "0x2::liquidity_pool::SwapEvent<A, B>"),
        event(2, 0, "0x1::code::PublishPackage"),
        event(2, 1, "0x1::transaction_fee::FeeStatement"),
        event(3, 0, "0x3::assets_v1::CoinCreationEvent"),
    ];
    let selected = select_events_to_insert(batch);
    assert_eq!(keys(&selected), vec![(1, 1), (2, 0), (3, 0)]);
}

#[test]
fn selection_of_empty_batch_is_empty() {
    assert!(select_events_to_insert(Vec::new()).is_empty());
}

#[test]
fn selection_of_unwatched_batch_is_empty() {
    let batch = vec![event(1, 0, "0x1::block::NewBlockEvent"), event(1, 1, "0x1::a::B")];
    assert!(select_events_to_insert(batch).is_empty());
}

#[test]
fn selection_keeps_fields_of_selected_events() {
    let selected = select_events_to_insert(vec![event(9, 4, "x::assets_v1::prebook_coin")]);
    assert_eq!(selected.len(), 1);
    assert_eq!(selected[0].transaction_version, 9);
    assert_eq!(selected[0].event_index, 4);
    assert_eq!(selected[0].indexed_type, "x::assets_v1::prebook_coin");
    assert_eq!(selected[0].account_address, "0x1");
    assert_eq!(selected[0].transaction_block_height, 7);
}

#[test]
fn selection_over_chunks_matches_whole_batch() {
    let types = [
        "0x1::code::PublishPackage",
        "0x1::block::NewBlockEvent",
        "0x2::liquidity_pool::SwapEvent",
        "0x1::x::Y",
        "0x3::assets_v1::prebook_coin",
    ];
    let whole: Vec<EventModel> = types.iter().enumerate().map(|(i, t)| event(i as i64, 0, t)).collect();
    let first: Vec<EventModel> = types[..2].iter().enumerate().map(|(i, t)| event(i as i64, 0, t)).collect();
    let second: Vec<EventModel> =
        types[2..].iter().enumerate().map(|(i, t)| event(i as i64 + 2, 0, t)).collect();
    let mut by_chunks = keys(&select_events_to_insert(first));
    by_chunks.extend(keys(&select_events_to_insert(second)));
    assert_eq!(keys(&select_events_to_insert(whole)), by_chunks);
    assert_eq!(by_chunks, vec![(0, 0), (2, 0), (4, 0)]);
}

#[test]
fn selecting_twice_changes_nothing() {
    let batch = vec![
        event(1, 0, "0x2::liquidity_pool::SwapEvent"),
        event(1, 1, "0x1::block::NewBlockEvent"),
        event(1, 2, "0x1::code::PublishPackage"),
    ];
    let once = select_events_to_insert(batch);
    let once_keys = keys(&once);
    let twice = select_events_to_insert(once);
    assert_eq!(keys(&twice), once_keys);
}
