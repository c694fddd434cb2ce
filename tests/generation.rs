use std::time::{Duration, SystemTime};

use veigo_id::{Field, InMemoryBackend, VeigoConfig, VeigoIdError, VeigoIdGenerator};

fn layout_with(ctx_bits: u8, node_bits: u8, ctr_bits: u8) -> VeigoConfig {
    let used = ctx_bits + node_bits + ctr_bits;
    let ts_bits = 126 - used;
    VeigoConfig {
        epoch: SystemTime::UNIX_EPOCH,
        layout: [
            Field::Timestamp { bits: ts_bits },
            Field::Context { bits: ctx_bits },
            Field::NodeId { bits: node_bits },
            Field::Counter { bits: ctr_bits },
        ],
    }
}

#[test]
fn test_end_to_end_generation() {
    let backend = InMemoryBackend::new();
    let config = VeigoConfig::default();
    let node_id = 100;

    let generator =
        VeigoIdGenerator::new(config, backend, node_id).expect("Should create generator");

    let context_id = 500;
    let id = generator.generate(context_id).expect("Should generate ID");

    let parts = generator.decode(id);

    assert_eq!(parts.context, context_id);
    assert_eq!(parts.node_id, node_id);
    assert_eq!(parts.counter, 0);

    println!("Generated ID: {:?}", id);
}

#[test]
fn test_sequence_increments() {
    let backend = InMemoryBackend::new();
    let config = layout_with(10, 10, 10);

    let generator = VeigoIdGenerator::new(config, backend, 1).unwrap();
    let ctx = 50;

    let id1 = generator.generate(ctx).unwrap();
    let id2 = generator.generate(ctx).unwrap();
    let id3 = generator.generate(ctx).unwrap();

    let p1 = generator.decode(id1);
    let p2 = generator.decode(id2);
    let p3 = generator.decode(id3);

    assert_eq!(p1.counter, 0);
    assert_eq!(p2.counter, 1);
    assert_eq!(p3.counter, 2);
}

#[test]
fn clock_seconds_are_counted_from_the_epoch() {
    let generator = VeigoIdGenerator::new(layout_with(10, 10, 10), InMemoryBackend::new(), 1).unwrap();
    let parts = generator.decode(generator.generate(3).unwrap());
    // 2025-01-01T00:00:00Z in seconds since the Unix epoch.
    assert!(parts.timestamp >= 1_735_689_600);
    assert_eq!(parts.context, 3);
    assert_eq!(parts.node_id, 1);
}

#[test]
fn default_epoch_is_start_of_2025() {
    let config = VeigoConfig::default();
    let secs = config.epoch.duration_since(SystemTime::UNIX_EPOCH).unwrap().as_secs();
    assert_eq!(secs, 1_735_689_600);
    assert_eq!(config.layout[0], Field::Timestamp { bits: 41 });
    assert_eq!(config.layout[1], Field::Context { bits: 60 });
    assert_eq!(config.layout[2], Field::Counter { bits: 16 });
    assert_eq!(config.layout[3], Field::NodeId { bits: 10 });
    assert!(config.validate().is_ok());
}

#[test]
fn default_layout_counts_seconds_since_2025() {
    let generator = VeigoIdGenerator::new(VeigoConfig::default(), InMemoryBackend::new(), 7).unwrap();
    let parts = generator.decode(generator.generate(9).unwrap());
    let since_unix = SystemTime::now().duration_since(SystemTime::UNIX_EPOCH).unwrap().as_secs() as u128;
    assert!(parts.timestamp + 1_735_689_600 <= since_unix);
    assert!(parts.timestamp + 1_735_689_600 + 5 >= since_unix);
}

#[test]
fn epoch_in_the_future_is_clock_skew() {
    let mut config = layout_with(10, 10, 10);
    config.epoch = SystemTime::now() + Duration::from_secs(1_000_000);
    let generator = VeigoIdGenerator::new(config, InMemoryBackend::new(), 1).unwrap();
    assert!(matches!(
        generator.generate(1),
        Err(VeigoIdError::ClockSkew { now: 0, last: 0 })
    ));
    assert!(matches!(
        generator.generate(1024),
        Err(VeigoIdError::FieldOverflow { field: "context", value: 1024, max: 1023 })
    ));
}
