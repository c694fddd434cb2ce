use std::time::SystemTime;
use vstd::prelude::*;

use crate::errors::{VeigoIdError, FIELD_KINDS, TOO_MANY_BITS};

verus! {

#[verifier::external_type_specification]
#[verifier::external_body]
pub struct ExSystemTime(SystemTime);

/// The four kinds of field that make up an identifier.
#[derive(Debug, Clone, Copy, PartialEq, Eq, Structural)]
pub enum FieldKind {
    Timestamp,
    Context,
    Counter,
    NodeId,
}

/// One field of the layout: its kind and its width in bits.
#[derive(Debug, Clone, Copy, PartialEq, Eq, Structural)]
pub enum Field {
    Timestamp { bits: u8 },
    Context { bits: u8 },
    Counter { bits: u8 },
    NodeId { bits: u8 },
}

/// The largest value `bits` bits can hold, `2^bits - 1`.
pub open spec fn low_mask(bits: u128) -> u128 {
    ((1u128 << bits) - 1) as u128
}

/// Number of bits the identifiers may use: one of the 128 is kept free.
pub const USABLE_BITS: u16 = 127;

impl Field {
    pub open spec fn width(self) -> nat {
        match self {
            Field::Timestamp { bits } => bits as nat,
            Field::Context { bits } => bits as nat,
            Field::Counter { bits } => bits as nat,
            Field::NodeId { bits } => bits as nat,
        }
    }

    pub open spec fn kind(self) -> FieldKind {
        match self {
            Field::Timestamp { .. } => FieldKind::Timestamp,
            Field::Context { .. } => FieldKind::Context,
            Field::Counter { .. } => FieldKind::Counter,
            Field::NodeId { .. } => FieldKind::NodeId,
        }
    }

    /// The largest value of this field: `2^bits - 1`.
    pub open spec fn max_spec(self) -> u128 {
        if self.width() >= 128 {
            u128::MAX
        } else {
            low_mask(self.width() as u128)
        }
    }

    /// The largest value the field can hold.
    pub fn max_value(&self) -> (r: u128)
        requires
            self.width() <= 128,
        ensures
            r == self.max_spec(),
    {
        let bits = self.bits();
        if bits >= 128 {
            u128::MAX
        } else {
            let b = bits as u128;
            assert(1u128 << b >= 1) by (bit_vector)
                requires
                    b < 128,
            ;
            (1u128 << b) - 1
        }
    }

    /// The width of the field in bits.
    pub fn bits(&self) -> (r: u8)
        ensures
            r as nat == self.width(),
    {
        match *self {
            Field::Timestamp { bits } => bits,
            Field::Context { bits } => bits,
            Field::Counter { bits } => bits,
            Field::NodeId { bits } => bits,
        }
    }
}

/// Reference instant and field layout, most significant field first.
#[derive(Debug, Clone, Copy)]
pub struct VeigoConfig {
    pub epoch: SystemTime,
    pub layout: [Field; 4],
}

/// Sum of the widths of all fields of the layout.
pub open spec fn total_width(l: Seq<Field>) -> nat {
    l[0].width() + l[1].width() + l[2].width() + l[3].width()
}

/// No field kind is repeated; with four fields each kind then occurs exactly once.
pub open spec fn distinct_kinds(l: Seq<Field>) -> bool {
    forall|i: int, j: int| 0 <= i < j < 4 ==> l[i].kind() != l[j].kind()
}

/// A layout that fits in the usable bits and holds each kind exactly once.
pub open spec fn valid_layout(l: Seq<Field>) -> bool {
    &&& l.len() == 4
    &&& total_width(l) <= USABLE_BITS
    &&& distinct_kinds(l)
}

/// What validation reports for a layout of four fields.
pub open spec fn validation_outcome(l: Seq<Field>) -> Result<(), VeigoIdError> {
    if total_width(l) > USABLE_BITS {
        Err(VeigoIdError::InvalidConfiguration(TOO_MANY_BITS))
    } else if !distinct_kinds(l) {
        Err(VeigoIdError::InvalidConfiguration(FIELD_KINDS))
    } else {
        Ok(())
    }
}

/// The default layout: 41 timestamp bits, 60 context bits, 16 counter bits
/// and 10 node bits, most significant first.
pub open spec fn default_layout() -> Seq<Field> {
    seq![
        Field::Timestamp { bits: 41 },
        Field::Context { bits: 60 },
        Field::Counter { bits: 16 },
        Field::NodeId { bits: 10 },
    ]
}

/// Seconds from the Unix epoch to 2025-01-01T00:00:00Z, the default epoch.
pub const DEFAULT_EPOCH_UNIX_SECONDS: i64 = 1735689600;

/// Relies on chrono's `DateTime::from_timestamp`, converted into a `SystemTime`:
/// the instant `secs` seconds after the Unix epoch. chrono answers for every
/// second count whose date falls within its years -262143 to 262142.
#[verifier::external_body]
fn instant_from_unix_seconds(secs: i64) -> (r: Option<SystemTime>)
    ensures
        0 <= secs <= 100_000_000_000 ==> r is Some,
{
    chrono::DateTime::from_timestamp(secs, 0).map(|dt| dt.into())
}

impl Default for VeigoConfig {
    /// Epoch 2025-01-01T00:00:00Z and the default layout.
    fn default() -> (r: Self)
        ensures
            r.layout@ == default_layout(),
    {
        let epoch = instant_from_unix_seconds(DEFAULT_EPOCH_UNIX_SECONDS).unwrap();
        let layout = [
            Field::Timestamp { bits: 41 },
            Field::Context { bits: 60 },
            Field::Counter { bits: 16 },
            Field::NodeId { bits: 10 },
        ];
        proof {
            assert(layout@ =~= default_layout());
        }
        VeigoConfig { epoch, layout }
    }
}

impl VeigoConfig {
    /// Checks the layout: the widths must fit in 127 bits, then each kind must occur once.
    pub fn validate(&self) -> (r: Result<(), VeigoIdError>)
        ensures
            r == validation_outcome(self.layout@),
            r is Ok <==> valid_layout(self.layout@),
    {
        let mut total_bits: u16 = 0;
        let mut i: usize = 0;
        while i < 4
            invariant
                0 <= i <= 4,
                total_bits as nat == partial_width(self.layout@, i as int),
                partial_width(self.layout@, i as int) <= 255 * i,
            decreases 4 - i,
        {
            total_bits = total_bits + self.layout[i].bits() as u16;
            i = i + 1;
        }
        proof {
            reveal_with_fuel(partial_width, 5);
        }
        if total_bits > USABLE_BITS {
            return Err(VeigoIdError::InvalidConfiguration(TOO_MANY_BITS));
        }
        let mut seen = (false, false, false, false);
        let mut j: usize = 0;
        while j < 4
            invariant
                0 <= j <= 4,
                total_width(self.layout@) <= USABLE_BITS,
                distinct_kinds_upto(self.layout@, j as int),
                seen.0 <==> kind_seen(self.layout@, j as int, FieldKind::Timestamp),
                seen.1 <==> kind_seen(self.layout@, j as int, FieldKind::Context),
                seen.2 <==> kind_seen(self.layout@, j as int, FieldKind::Counter),
                seen.3 <==> kind_seen(self.layout@, j as int, FieldKind::NodeId),
            decreases 4 - j,
        {
            let fresh = match self.layout[j] {
                Field::Timestamp { .. } => {
                    let f = !seen.0;
                    seen.0 = true;
                    f
                },
                Field::Context { .. } => {
                    let f = !seen.1;
                    seen.1 = true;
                    f
                },
                Field::Counter { .. } => {
                    let f = !seen.2;
                    seen.2 = true;
                    f
                },
                Field::NodeId { .. } => {
                    let f = !seen.3;
                    seen.3 = true;
                    f
                },
            };
            if !fresh {
                proof {
                    let l = self.layout@;
                    let k = l[j as int].kind();
                    assert(kind_seen(l, j as int, k));
                    let i = choose|i: int| 0 <= i < j && l[i].kind() == k;
                    assert(l[i].kind() == l[j as int].kind());
                }
                return Err(VeigoIdError::InvalidConfiguration(FIELD_KINDS));
            }
            j = j + 1;
        }
        Ok(())
    }
}

/// Sum of the widths of the first `n` fields.
pub open spec fn partial_width(l: Seq<Field>, n: int) -> nat
    decreases n,
{
    if n <= 0 {
        0
    } else {
        partial_width(l, n - 1) + l[n - 1].width()
    }
}

/// Some field among the first `n` has kind `k`.
pub open spec fn kind_seen(l: Seq<Field>, n: int, k: FieldKind) -> bool {
    exists|i: int| 0 <= i < n && l[i].kind() == k
}

/// No kind repeats among the first `n` fields.
pub open spec fn distinct_kinds_upto(l: Seq<Field>, n: int) -> bool {
    forall|i: int, j: int| 0 <= i < j < n ==> l[i].kind() != l[j].kind()
}

} // verus!
