use exchange_feed::common::BasicService;

fn service() -> BasicService {
    BasicService::new(
        String::from("wss://example.test/ws/"),
        String::from("ethusdt@kline_5m"),
        true,
        String::from("Example"),
    )
}

#[test]
fn basic_service_hands_back_what_it_was_given() {
    let service = service();
    assert_eq!(service.base_url(), "wss://example.test/ws/");
    assert_eq!(service.symbol(), "ethusdt@kline_5m");
    assert!(service.enable());
    assert_eq!(service.name(), "Example");
    assert_eq!(service.core_pin(), None);
}

#[test]
fn basic_service_switched_off() {
    let service = BasicService::new(String::new(), String::new(), false, String::new());
    assert!(!service.enable());
    assert_eq!(service.base_url(), "");
    assert_eq!(service.symbol(), "");
    assert_eq!(service.name(), "");
}

#[test]
fn basic_service_pinned_changes_the_core_only() {
    let service = service().pinned(Some(7));
    assert_eq!(service.core_pin(), Some(7));
    assert_eq!(service.base_url(), "wss://example.test/ws/");
    assert_eq!(service.symbol(), "ethusdt@kline_5m");
    assert!(service.enable());
    assert_eq!(service.name(), "Example");
    let unpinned = service.pinned(None);
    assert_eq!(unpinned.core_pin(), None);
}
