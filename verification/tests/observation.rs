use worldline_host::observation::{ObservationBus, ObservationDelivery, ObservationDraft};

#[test]
fn identities_are_fresh_and_ordered() {
    let mut bus = ObservationBus::new();
    let a = bus.subscribe();
    let b = bus.subscribe();
    assert_eq!((a.value(), b.value()), (1, 2));
    assert_eq!(a.describe(), "subscriber-1");
    assert_eq!(bus.subscriber_count(), 2);
    assert!(bus.unsubscribe(a));
    assert!(!bus.unsubscribe(a));
    let c = bus.subscribe();
    assert_eq!(c.value(), 3);
    let ids: Vec<u64> = bus.current_subscribers().iter().map(|s| s.value()).collect();
    assert_eq!(ids, vec![2, 3]);
}

#[test]
fn publishing_records_history_and_names_the_current_subscribers() {
    let mut bus = ObservationBus::new();
    let s = bus.subscribe();
    let draft = ObservationDraft::new("reference-provider".to_string(), "reference.test.fact".to_string(), b"result")
        .with_causation("invocation-1".to_string())
        .with_correlation("corr".to_string());
    let (first, offered) = bus.publish(draft);
    assert_eq!(first.id().value(), 1);
    assert_eq!(first.id().describe(), "observation-1");
    assert_eq!(first.producer(), "reference-provider");
    assert_eq!(first.topic(), "reference.test.fact");
    assert_eq!(first.payload(), b"result");
    assert_eq!(first.causation(), Some("invocation-1"));
    assert_eq!(first.correlation(), Some("corr"));
    assert_eq!(offered, vec![s]);
    bus.unsubscribe(s);
    let (second, offered) = bus.publish(ObservationDraft::new("p".to_string(), "t".to_string(), b""));
    assert_eq!(second.id().value(), 2);
    assert!(offered.is_empty());
    assert_eq!(second.causation(), None);
    let history = bus.history();
    assert_eq!(history.len(), 2);
    assert_eq!(history[0].id().value(), 1);
    assert_eq!(history[1].topic(), "t");
}

#[test]
fn subscriber_failures_are_collected_not_propagated() {
    let mut bus = ObservationBus::new();
    let a = bus.subscribe();
    let b = bus.subscribe();
    let c = bus.subscribe();
    let (_, offered) = bus.publish(ObservationDraft::new("p".to_string(), "t".to_string(), b"x"));
    let delivery = ObservationDelivery::collect(
        &offered,
        vec![Ok(()), Err("deliberate subscriber failure".to_string()), Ok(())],
    );
    assert_eq!(delivery.delivered(), 2);
    assert!(!delivery.is_successful());
    assert_eq!(delivery.failures().len(), 1);
    assert_eq!(delivery.failures()[0].subscriber(), b);
    assert_eq!(delivery.failures()[0].message(), "deliberate subscriber failure");
    let clean = ObservationDelivery::collect(&vec![a, c], vec![Ok(()), Ok(())]);
    assert!(clean.is_successful());
    assert_eq!(clean.delivered(), 2);
    let none = ObservationDelivery::collect(&vec![], vec![]);
    assert_eq!(none.delivered(), 0);
    assert!(none.is_successful());
}

#[test]
fn observation_event_has_its_own_identity_and_producer() {
    let mut bus = ObservationBus::new();
    bus.subscribe();
    let (_, offered) = bus.publish(ObservationDraft::new(
        "reference-provider".to_string(),
        "reference.test.fact".to_string(),
        b"result",
    ));
    let delivery = ObservationDelivery::collect(&offered, vec![Ok(())]);
    let observation = bus.history().pop().expect("published event must exist");
    assert_eq!(delivery.delivered(), 1);
    assert_eq!(observation.id().value(), 1);
    assert_eq!(observation.producer(), "reference-provider");
    assert_eq!(observation.payload(), b"result");
}
