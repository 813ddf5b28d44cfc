use dooropen::pin_handle::{send_signal, InterruptablePin, PinLevel, PinRegistry, PinSignal};
use std::sync::mpsc::{sync_channel, Receiver, SyncSender};

/// A pin without hardware: it keeps the sender it was handed, so that a test
/// can raise the edges itself.
#[derive(Debug)]
struct FakePin {
    id: usize,
    tag: &'static str,
    sender: Option<SyncSender<PinSignal>>,
}

impl FakePin {
    fn new(id: usize) -> Self {
        FakePin { id, tag: "", sender: None }
    }

    fn tagged(id: usize, tag: &'static str) -> Self {
        FakePin { id, tag, sender: None }
    }

    fn edge(&self, level: PinLevel) {
        let sender = self.sender.as_ref().expect("the pin was not registered");
        assert!(send_signal(sender, self.id, level));
    }
}

impl InterruptablePin for FakePin {
    fn pin_id(&self) -> usize {
        self.id
    }

    fn sender(&self) -> Option<SyncSender<PinSignal>> {
        self.sender.clone()
    }

    fn register_signal(&mut self, sender: SyncSender<PinSignal>) {
        self.sender = Some(sender);
    }

    fn get_id(&self) -> usize {
        self.id
    }
}

fn registry() -> (PinRegistry<FakePin>, Receiver<PinSignal>) {
    let (sender, receiver) = sync_channel(20);
    (PinRegistry::new(sender), receiver)
}

/// Writes every signal that waits in the channel, in the order of arrival.
fn drain(registry: &mut PinRegistry<FakePin>, receiver: &Receiver<PinSignal>) {
    while let Ok((pin_id, level)) = receiver.try_recv() {
        registry.set_pin_level(pin_id, level);
    }
}

#[test]
fn door_pin_scenario() {
    let (mut registry, receiver) = registry();
    assert!(registry.register_pin(FakePin::new(3)).is_none());
    assert_eq!(registry.get_pin_level(3), None);

    let pin = registry.remove_pin(3).expect("pin 3 was registered");
    pin.edge(PinLevel::Low);
    drain(&mut registry, &receiver);
    assert_eq!(registry.get_pin_level(3), Some(PinLevel::Low));

    pin.edge(PinLevel::High);
    drain(&mut registry, &receiver);
    assert_eq!(registry.get_pin_level(3), Some(PinLevel::High));
}

#[test]
fn unobserved_lines_have_no_level() {
    let (mut registry, _receiver) = registry();
    assert_eq!(registry.get_pin_level(0), None);
    assert_eq!(registry.get_pin_level(3), None);
    assert_eq!(registry.get_pin_level(usize::MAX), None);

    registry.set_pin_level(3, PinLevel::High);
    registry.set_pin_level(4, PinLevel::Low);
    assert_eq!(registry.get_pin_level(0), None);
    assert_eq!(registry.get_pin_level(2), None);
    assert_eq!(registry.get_pin_level(5), None);
    assert_eq!(registry.get_pin_level(usize::MAX), None);
}

#[test]
fn registration_gives_no_level() {
    let (mut registry, _receiver) = registry();
    for id in 0..8 {
        assert!(registry.register_pin(FakePin::new(id)).is_none());
    }
    for id in 0..8 {
        assert_eq!(registry.get_pin_level(id), None);
    }
}

#[test]
fn level_holds_until_the_next_signal_for_the_line() {
    let (mut registry, _receiver) = registry();
    registry.register_pin(FakePin::new(3));
    registry.register_pin(FakePin::new(4));

    assert_eq!(registry.set_pin_level(3, PinLevel::High), None);
    for _ in 0..5 {
        assert_eq!(registry.get_pin_level(3), Some(PinLevel::High));
    }
    registry.set_pin_level(4, PinLevel::Low);
    registry.set_pin_level(4, PinLevel::High);
    registry.set_pin_level(4, PinLevel::Low);
    registry.register_pin(FakePin::new(5));
    registry.remove_pin(4);
    assert_eq!(registry.get_pin_level(3), Some(PinLevel::High));

    assert_eq!(registry.set_pin_level(3, PinLevel::Low), Some(PinLevel::High));
    assert_eq!(registry.get_pin_level(3), Some(PinLevel::Low));
    assert_eq!(registry.get_pin_level(4), Some(PinLevel::Low));
}

#[test]
fn last_write_wins() {
    let (mut registry, receiver) = registry();
    registry.register_pin(FakePin::new(9));
    let pin = registry.remove_pin(9).expect("pin 9 was registered");

    let levels = [
        PinLevel::High,
        PinLevel::Low,
        PinLevel::Low,
        PinLevel::High,
        PinLevel::High,
        PinLevel::Low,
        PinLevel::High,
    ];
    for level in levels {
        pin.edge(level);
    }
    assert_eq!(registry.get_pin_level(9), None);
    drain(&mut registry, &receiver);
    assert_eq!(registry.get_pin_level(9), Some(PinLevel::High));

    pin.edge(PinLevel::High);
    pin.edge(PinLevel::Low);
    drain(&mut registry, &receiver);
    assert_eq!(registry.get_pin_level(9), Some(PinLevel::Low));
}

#[test]
fn signals_arrive_in_the_order_sent() {
    let (mut registry, receiver) = registry();
    registry.register_pin(FakePin::new(1));
    registry.register_pin(FakePin::new(2));
    let one = registry.remove_pin(1).expect("pin 1 was registered");
    let two = registry.remove_pin(2).expect("pin 2 was registered");

    one.edge(PinLevel::High);
    two.edge(PinLevel::Low);
    one.edge(PinLevel::Low);
    two.edge(PinLevel::High);
    one.edge(PinLevel::High);

    let received: Vec<PinSignal> = receiver.try_iter().collect();
    assert_eq!(
        received,
        vec![
            (1, PinLevel::High),
            (2, PinLevel::Low),
            (1, PinLevel::Low),
            (2, PinLevel::High),
            (1, PinLevel::High),
        ]
    );
    for (pin_id, level) in received {
        registry.set_pin_level(pin_id, level);
    }
    assert_eq!(registry.get_pin_level(1), Some(PinLevel::High));
    assert_eq!(registry.get_pin_level(2), Some(PinLevel::High));
}

#[test]
fn remove_returns_the_pin_once() {
    let (mut registry, _receiver) = registry();
    registry.register_pin(FakePin::tagged(6, "six"));
    registry.set_pin_level(6, PinLevel::Low);

    let pin = registry.remove_pin(6).expect("pin 6 was registered");
    assert_eq!(pin.id, 6);
    assert_eq!(pin.tag, "six");
    assert!(pin.sender.is_some());
    assert!(registry.remove_pin(6).is_none());
    assert!(registry.remove_pin(6).is_none());
    assert_eq!(registry.get_pin_level(6), Some(PinLevel::Low));
}

#[test]
fn remove_of_an_unknown_identifier_returns_nothing() {
    let (mut registry, _receiver) = registry();
    assert!(registry.remove_pin(1).is_none());
    registry.register_pin(FakePin::new(2));
    assert!(registry.remove_pin(1).is_none());
    assert!(registry.remove_pin(3).is_none());
    assert!(registry.remove_pin(2).is_some());
}

#[test]
fn remove_leaves_the_other_pins() {
    let (mut registry, _receiver) = registry();
    registry.register_pin(FakePin::tagged(1, "one"));
    registry.register_pin(FakePin::tagged(2, "two"));
    registry.register_pin(FakePin::tagged(3, "three"));
    assert_eq!(registry.remove_pin(2).expect("pin 2 was registered").tag, "two");
    assert_eq!(registry.remove_pin(1).expect("pin 1 was registered").tag, "one");
    assert_eq!(registry.remove_pin(3).expect("pin 3 was registered").tag, "three");
}

#[test]
fn register_evicts_the_pin_of_the_same_identifier() {
    let (mut registry, _receiver) = registry();
    assert!(registry.register_pin(FakePin::tagged(3, "first")).is_none());
    assert!(registry.register_pin(FakePin::tagged(4, "other")).is_none());

    let evicted = registry
        .register_pin(FakePin::tagged(3, "second"))
        .expect("a pin was registered under 3");
    assert_eq!(evicted.id, 3);
    assert_eq!(evicted.tag, "first");

    let current = registry.remove_pin(3).expect("pin 3 is registered");
    assert_eq!(current.tag, "second");
    assert_eq!(registry.remove_pin(4).expect("pin 4 is registered").tag, "other");
}

#[test]
fn register_keeps_the_level_of_the_line() {
    let (mut registry, _receiver) = registry();
    registry.set_pin_level(3, PinLevel::High);
    assert!(registry.register_pin(FakePin::new(3)).is_none());
    assert_eq!(registry.get_pin_level(3), Some(PinLevel::High));
    assert!(registry.register_pin(FakePin::new(3)).is_some());
    assert_eq!(registry.get_pin_level(3), Some(PinLevel::High));
}

#[test]
fn register_hands_the_pin_a_sender_of_the_registry_channel() {
    let (mut registry, receiver) = registry();
    registry.register_pin(FakePin::new(11));
    registry.register_pin(FakePin::new(12));
    let eleven = registry.remove_pin(11).expect("pin 11 was registered");
    let twelve = registry.remove_pin(12).expect("pin 12 was registered");

    twelve.edge(PinLevel::Low);
    eleven.edge(PinLevel::High);
    assert_eq!(receiver.try_recv(), Ok((12, PinLevel::Low)));
    assert_eq!(receiver.try_recv(), Ok((11, PinLevel::High)));
    assert!(receiver.try_recv().is_err());
}

#[test]
fn set_pin_level_returns_the_previous_level() {
    let (mut registry, _receiver) = registry();
    assert_eq!(registry.set_pin_level(1, PinLevel::Low), None);
    assert_eq!(registry.set_pin_level(1, PinLevel::Low), Some(PinLevel::Low));
    assert_eq!(registry.set_pin_level(1, PinLevel::High), Some(PinLevel::Low));
    assert_eq!(registry.set_pin_level(2, PinLevel::High), None);
}

#[test]
fn a_removed_pin_still_reaches_the_registry() {
    let (mut registry, receiver) = registry();
    registry.register_pin(FakePin::new(3));
    let pin = registry.remove_pin(3).expect("pin 3 was registered");
    pin.edge(PinLevel::High);
    drain(&mut registry, &receiver);
    assert_eq!(registry.get_pin_level(3), Some(PinLevel::High));
    assert!(registry.remove_pin(3).is_none());
}
