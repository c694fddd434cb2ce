use veigo_id::{
    configure, generate, get_global, Field, GeneratorSlot, InMemoryBackend, VeigoConfig, VeigoId,
    VeigoIdError,
};

#[test]
fn test_context_overflow_test_context_overflow() {
    let backend = InMemoryBackend::new();
    let mut config = VeigoConfig::default();
    config.layout[1] = Field::Context { bits: 2 };
    let mut slot: GeneratorSlot<InMemoryBackend> = None;
    configure(&mut slot, Some(config), backend, 1).unwrap();

    let context = 10u128;
    let err = VeigoId::new(&slot, context).unwrap_err();

    match err {
        VeigoIdError::FieldOverflow { field, value, max } => {
            assert_eq!(field, "context");
            assert_eq!(value, 10);
            assert_eq!(max, 3);
        }
        other => panic!("expected FieldOverflow, got {:?}", other),
    }
}

#[test]
fn test_generate_and_decode_test_generate_and_decode() {
    let backend = InMemoryBackend::new();
    let mut slot: GeneratorSlot<InMemoryBackend> = None;
    configure(&mut slot, None, backend, 1).unwrap();

    let context = 42u128;
    let id1 = VeigoId::new(&slot, context).unwrap();
    let parts1 = id1.decode(&slot).unwrap();

    assert_eq!(parts1.context, context);
    assert_eq!(parts1.counter, 0);

    let id2 = VeigoId::new(&slot, context).unwrap();
    let parts2 = id2.decode(&slot).unwrap();

    assert_eq!(parts2.context, context);
    assert_eq!(parts2.counter, 1);
    assert_eq!(
        parts2.timestamp, parts1.timestamp,
        "IDs should share the same timestamp if generated in the same second"
    );
}

#[test]
fn empty_slot_is_not_configured() {
    let slot: GeneratorSlot<InMemoryBackend> = None;
    assert!(matches!(get_global(&slot), Err(VeigoIdError::NotConfigured)));
    assert!(matches!(generate(&slot, 1), Err(VeigoIdError::NotConfigured)));
    assert!(matches!(VeigoId::new(&slot, 1), Err(VeigoIdError::NotConfigured)));
    assert!(matches!(VeigoId(5).decode(&slot), Err(VeigoIdError::NotConfigured)));
}

#[test]
fn slot_is_filled_only_once() {
    let mut slot: GeneratorSlot<InMemoryBackend> = None;
    configure(&mut slot, None, InMemoryBackend::new(), 3).unwrap();
    let again = configure(&mut slot, None, InMemoryBackend::new(), 4);
    assert!(matches!(again, Err(VeigoIdError::AlreadyConfigured)));
    let parts = get_global(&slot).unwrap().decode(generate(&slot, 8).unwrap());
    assert_eq!(parts.node_id, 3);
    assert_eq!(parts.context, 8);
}

#[test]
fn failed_configuration_leaves_slot_empty() {
    let mut slot: GeneratorSlot<InMemoryBackend> = None;
    let r = configure(&mut slot, None, InMemoryBackend::new(), 1024);
    assert!(matches!(
        r,
        Err(VeigoIdError::FieldOverflow { field: "node_id initialization", value: 1024, max: 1023 })
    ));
    assert!(slot.is_none());
    configure(&mut slot, None, InMemoryBackend::new(), 1023).unwrap();
    assert!(slot.is_some());
}
