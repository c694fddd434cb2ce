use std::time::SystemTime;

use veigo_id::{
    Field, InMemoryBackend, MemoryState, StateBackend, VeigoConfig, VeigoId, VeigoIdError,
    VeigoIdGenerator,
};

fn ten_bit_config() -> VeigoConfig {
    VeigoConfig {
        epoch: SystemTime::UNIX_EPOCH,
        layout: [
            Field::Timestamp { bits: 96 },
            Field::Context { bits: 10 },
            Field::NodeId { bits: 10 },
            Field::Counter { bits: 10 },
        ],
    }
}

#[test]
fn packing_places_each_field_at_its_shift() {
    let generator = VeigoIdGenerator::new(ten_bit_config(), InMemoryBackend::new(), 1).unwrap();
    let id = generator.encode(5, 3, 2).unwrap();
    assert_eq!(id.0, (5u128 << 30) | (3 << 20) | (1 << 10) | 2);
    assert_eq!(id.0, 5_371_855_874);
}

#[test]
fn decode_undoes_encode() {
    let generator = VeigoIdGenerator::new(VeigoConfig::default(), InMemoryBackend::new(), 1023).unwrap();
    let ts = (1u128 << 41) - 1;
    let ctx = (1u128 << 60) - 1;
    let ctr = 65535;
    let parts = generator.decode(generator.encode(ts, ctx, ctr).unwrap());
    assert_eq!(parts.timestamp, ts);
    assert_eq!(parts.context, ctx);
    assert_eq!(parts.counter, ctr);
    assert_eq!(parts.node_id, 1023);
    let zero = generator.decode(generator.encode(0, 0, 0).unwrap());
    assert_eq!((zero.timestamp, zero.context, zero.counter, zero.node_id), (0, 0, 0, 1023));
}

#[test]
fn encode_refuses_counter_above_its_width() {
    let generator = VeigoIdGenerator::new(ten_bit_config(), InMemoryBackend::new(), 1).unwrap();
    match generator.encode(1, 1, 1024) {
        Err(VeigoIdError::FieldOverflow { field, value, max }) => {
            assert_eq!(field, "counter");
            assert_eq!(value, 1024);
            assert_eq!(max, 1023);
        }
        other => panic!("expected a counter overflow, got {:?}", other),
    }
}

#[test]
fn decode_takes_any_bits() {
    let generator = VeigoIdGenerator::new(ten_bit_config(), InMemoryBackend::new(), 1).unwrap();
    let parts = generator.decode(VeigoId(u128::MAX));
    assert_eq!(parts.timestamp, (1u128 << 96) - 1);
    assert_eq!(parts.context, 1023);
    assert_eq!(parts.node_id, 1023);
    assert_eq!(parts.counter, 1023);
}

#[test]
fn distinct_counters_give_distinct_ids() {
    let generator = VeigoIdGenerator::new(ten_bit_config(), InMemoryBackend::new(), 1).unwrap();
    let mut seen = Vec::new();
    for _ in 0..50 {
        let id = generator.generate_at(4, 100).unwrap();
        assert!(!seen.contains(&id));
        seen.push(id);
    }
    for i in 1..seen.len() {
        assert!(seen[i - 1] < seen[i]);
    }
}

#[test]
fn memory_state_counts_per_context_and_resets() {
    let mut s = MemoryState::new();
    assert_eq!(s.next_sequence(5, 1).unwrap(), 0);
    assert_eq!(s.next_sequence(5, 1).unwrap(), 1);
    assert_eq!(s.next_sequence(5, 1).unwrap(), 2);
    assert_eq!(s.next_sequence(5, 2).unwrap(), 1);
    match s.next_sequence(4, 1) {
        Err(VeigoIdError::ClockSkew { now, last }) => {
            assert_eq!(now, 4);
            assert_eq!(last, 5);
        }
        other => panic!("expected clock skew, got {:?}", other),
    }
    assert_eq!(s.next_sequence(5, 1).unwrap(), 3);
    assert_eq!(s.next_sequence(6, 1).unwrap(), 0);
    assert_eq!(s.next_sequence(6, 2).unwrap(), 1);
    assert_eq!(s.next_sequence(6, 1).unwrap(), 1);
}

#[test]
fn fresh_state_at_second_zero_starts_at_one() {
    let mut s = MemoryState::new();
    assert_eq!(s.next_sequence(0, 9).unwrap(), 1);
}

#[test]
fn in_memory_backend_follows_the_sequence_rules() {
    let b = InMemoryBackend::new();
    assert_eq!(b.next_sequence(10, 1).unwrap(), 0);
    assert_eq!(b.next_sequence(10, 1).unwrap(), 1);
    assert_eq!(b.next_sequence(11, 1).unwrap(), 0);
    assert!(matches!(b.next_sequence(10, 1), Err(VeigoIdError::ClockSkew { now: 10, last: 11 })));
    assert_eq!(b.next_sequence(11, 1).unwrap(), 1);
}

#[test]
fn max_value_is_all_ones() {
    assert_eq!(Field::NodeId { bits: 4 }.max_value(), 15);
    assert_eq!(Field::Counter { bits: 2 }.max_value(), 3);
    assert_eq!(Field::Context { bits: 0 }.max_value(), 0);
    assert_eq!(Field::Timestamp { bits: 127 }.max_value(), (1u128 << 127) - 1);
    assert_eq!(Field::Timestamp { bits: 128 }.max_value(), u128::MAX);
    assert_eq!(Field::Context { bits: 60 }.bits(), 60);
}

#[test]
fn validate_refuses_wide_layouts() {
    let mut config = ten_bit_config();
    config.layout[0] = Field::Timestamp { bits: 98 };
    match config.validate() {
        Err(VeigoIdError::InvalidConfiguration(msg)) => assert!(msg.contains("127")),
        other => panic!("expected invalid configuration, got {:?}", other),
    }
    config.layout[0] = Field::Timestamp { bits: 97 };
    assert!(config.validate().is_ok());
    assert!(matches!(
        VeigoIdGenerator::new(config, InMemoryBackend::new(), 0),
        Ok(_)
    ));
}

#[test]
fn validate_refuses_repeated_kinds() {
    let mut config = ten_bit_config();
    config.layout[3] = Field::Context { bits: 10 };
    match config.validate() {
        Err(VeigoIdError::InvalidConfiguration(msg)) => {
            assert_eq!(msg, "layout must contain exactly one of each field")
        }
        other => panic!("expected invalid configuration, got {:?}", other),
    }
    assert!(matches!(
        VeigoIdGenerator::new(config, InMemoryBackend::new(), 0),
        Err(VeigoIdError::InvalidConfiguration(_))
    ));
}

#[test]
fn ids_convert_and_order_by_raw_value() {
    let a = VeigoId::from(5u128);
    let b: VeigoId = 7u128.into();
    assert_eq!(a.0, 5);
    assert_eq!(u128::from(b), 7);
    assert!(a < b);
    assert_eq!(a, VeigoId(5));
    assert_ne!(a, b);
}
