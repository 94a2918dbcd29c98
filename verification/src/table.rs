use crate::channel::lookup_in;
use crate::channel::ChannelMap;
use crate::channel::Hit;
use crate::channel::SPSChannelType;
use crate::fbits::dbl_gt_zero;
use crate::fbits::dbl_lt_zero;
use crate::fbits::f_add;
use crate::fbits::f_div;
use crate::fbits::f_mul;
use crate::fbits::f_sub;
use crate::fbits::fadd;
use crate::fbits::fdiv;
use crate::fbits::fmul;
use crate::fbits::fsub;
use crate::fbits::is_gt_zero;
use crate::fbits::is_lt_zero;
use crate::fbits::ANGLE_DIVISOR_BITS;
use crate::fbits::BACK_DIVISOR_BITS;
use crate::fbits::FRONT_DIVISOR_BITS;
use crate::fbits::HALF_BITS;
use crate::fbits::ONE_BITS;
use crate::fbits::PI_BITS;
use crate::fbits::SENTINEL_BITS;
use crate::fields::SPSDataField;
use crate::fields::NUM_FIELDS;
use vstd::prelude::*;
use vstd::string::StringExecFns;

verus! {

/// The growable column store: one column of double bit patterns per schema
/// field, in the schema's order, plus the number of events consumed so far.
/// Between events every column holds exactly `rows` values.
#[derive(Clone, Debug)]
pub struct SPSData {
    pub fields: Vec<Vec<u64>>,
    pub rows: usize,
}

/// What a caller still owes the angle column after an event whose two
/// position estimates came out on one side of each other: the arctangent, in
/// IEEE double arithmetic, of the double whose bits are `quotient`, offset by
/// pi when `negative` holds.
#[derive(Clone, Copy, Debug, PartialEq, Eq, Structural)]
pub struct ThetaRequest {
    pub quotient: u64,
    pub negative: bool,
}

impl SPSData {
    /// The central row-alignment invariant: all fields present, every column
    /// as long as the number of events consumed.
    pub open spec fn wf(self) -> bool {
        &&& self.fields@.len() == NUM_FIELDS
        &&& forall|j: int|
            0 <= j < NUM_FIELDS ==> (#[trigger] self.fields@[j])@.len() == self.rows
    }

    /// The column of one schema field.
    pub open spec fn col(self, f: SPSDataField) -> Seq<u64> {
        self.fields@[f.index_spec()]@
    }

    /// Update the current row's value of one field's column.
    fn set_value(&mut self, field: &SPSDataField, value: u64)
        requires
            old(self).wf(),
            old(self).rows >= 1,
        ensures
            final(self).wf(),
            final(self).rows == old(self).rows,
            final(self).col(*field) == old(self).col(*field).update(
                old(self).rows - 1,
                value,
            ),
            forall|g: SPSDataField|
                g != *field ==> #[trigger] final(self).col(g) == old(self).col(g),
    {
        proof {
            crate::fields::lemma_field_index();
        }
        let i: usize = field.index();
        let column = &mut self.fields[i];
        let n: usize = column.len();
        column[n - 1] = value;
        proof {
            assert forall|g: SPSDataField| g != *field implies #[trigger] self.col(g) == old(
                self,
            ).col(g) by {
                assert(g.index_spec() != i);
            }
        }
    }

    /// Bring every column that is one value short up to the current row
    /// count by appending the sentinel.
    fn push_defaults(&mut self)
        requires
            old(self).fields@.len() == NUM_FIELDS,
            forall|j: int|
                0 <= j < NUM_FIELDS ==> {
                    let n = (#[trigger] old(self).fields@[j])@.len();
                    n == old(self).rows || n + 1 == old(self).rows
                },
        ensures
            final(self).wf(),
            final(self).rows == old(self).rows,
            forall|f: SPSDataField|
                old(self).col(f).len() + 1 == old(self).rows ==> #[trigger] final(self).col(f)
                    == old(self).col(f).push(SENTINEL_BITS),
            forall|f: SPSDataField|
                old(self).col(f).len() == old(self).rows ==> #[trigger] final(self).col(f) == old(
                    self,
                ).col(f),
    {
        let rows = self.rows;
        let mut j: usize = 0;
        while j < NUM_FIELDS
            invariant
                j <= NUM_FIELDS,
                self.rows == old(self).rows,
                self.fields@.len() == NUM_FIELDS,
                forall|jj: int|
                    0 <= jj < j ==> {
                        let b = (#[trigger] old(self).fields@[jj])@;
                        if b.len() + 1 == old(self).rows {
                            self.fields@[jj]@ == b.push(SENTINEL_BITS)
                        } else {
                            self.fields@[jj]@ == b
                        }
                    },
                forall|jj: int|
                    j <= jj < NUM_FIELDS ==> #[trigger] self.fields@[jj] == old(self).fields@[jj],
                forall|jj: int|
                    0 <= jj < NUM_FIELDS ==> {
                        let n = (#[trigger] old(self).fields@[jj])@.len();
                        n == old(self).rows || n + 1 == old(self).rows
                    },
                rows == old(self).rows,
            decreases NUM_FIELDS - j,
        {
            if self.fields[j].len() < rows {
                let column = &mut self.fields[j];
                column.push(SENTINEL_BITS);
            }
            j = j + 1;
        }
        proof {
            crate::fields::lemma_field_index();
            assert forall|jj: int| 0 <= jj < NUM_FIELDS implies (#[trigger] self.fields@[jj])@.len()
                == self.rows by {
                assert((old(self).fields@[jj])@.len() == old(self).rows || (old(
                    self,
                ).fields@[jj])@.len() + 1 == old(self).rows);
            }
            assert forall|f: SPSDataField|
                old(self).col(f).len() + 1 == old(self).rows implies #[trigger] self.col(f) == old(
                self,
            ).col(f).push(SENTINEL_BITS) by {
                assert((old(self).fields@[f.index_spec()])@.len() + 1 == old(self).rows);
            }
            assert forall|f: SPSDataField|
                old(self).col(f).len() == old(self).rows implies #[trigger] self.col(f) == old(
                self,
            ).col(f) by {
                assert((old(self).fields@[f.index_spec()])@.len() == old(self).rows);
            }
        }
    }
}

impl Default for SPSData {
    /// The empty store: all schema fields present, no rows yet.
    fn default() -> (r: SPSData)
        ensures
            r.wf(),
            r.rows == 0,
            forall|f: SPSDataField| #[trigger] r.col(f) == Seq::<u64>::empty(),
    {
        let mut columns: Vec<Vec<u64>> = Vec::new();
        let mut j: usize = 0;
        while j < NUM_FIELDS
            invariant
                j <= NUM_FIELDS,
                columns@.len() == j,
                forall|jj: int| 0 <= jj < j ==> (#[trigger] columns@[jj])@.len() == 0,
            decreases NUM_FIELDS - j,
        {
            columns.push(Vec::new());
            j = j + 1;
        }
        let r = SPSData { fields: columns, rows: 0 };
        proof {
            crate::fields::lemma_field_index();
            assert forall|f: SPSDataField| #[trigger] r.col(f) == Seq::<u64>::empty() by {
                assert(r.col(f).len() == 0);
                assert(r.col(f) =~= Seq::<u64>::empty());
            }
        }
        r
    }
}

/// The last hit of an event that resolves to a given role, if any: with
/// several hits of one role, the last seen is the one whose readings survive.
pub open spec fn last_role_hit(hits: Seq<Hit>, map: ChannelMap, k: SPSChannelType) -> Option<Hit>
    decreases hits.len(),
{
    if hits.len() == 0 {
        None
    } else if lookup_in(map.entries@, hits.last().uuid) == Some(k) {
        Some(hits.last())
    } else {
        last_role_hit(hits.drop_last(), map, k)
    }
}

/// What an event writes into one trio column's current row: the surviving
/// hit's reading, or the sentinel when no hit resolves to the column's role.
pub open spec fn trio_row_value(f: SPSDataField, hits: Seq<Hit>, map: ChannelMap) -> u64 {
    match field_source(f) {
        Some(src) => match last_role_hit(hits, map, src.0) {
            Some(h) => part_of(h, src.1),
            None => SENTINEL_BITS,
        },
        None => SENTINEL_BITS,
    }
}

/// The timestamp captured for one position-sensing role: the surviving hit's
/// timestamp, or the sentinel.
pub open spec fn captured_time(hits: Seq<Hit>, map: ChannelMap, k: SPSChannelType) -> u64 {
    match last_role_hit(hits, map, k) {
        Some(h) => h.timestamp,
        None => SENTINEL_BITS,
    }
}

/// Front-delay-line position estimate, in IEEE double arithmetic on bits:
/// (frontLeft - frontRight) * 0.5 * 1.0 / 2.1.
pub open spec fn front_position(hits: Seq<Hit>, map: ChannelMap) -> u64 {
    f_div(
        f_mul(
            f_mul(
                f_sub(
                    captured_time(hits, map, SPSChannelType::DelayFrontLeft),
                    captured_time(hits, map, SPSChannelType::DelayFrontRight),
                ),
                HALF_BITS,
            ),
            ONE_BITS,
        ),
        FRONT_DIVISOR_BITS,
    )
}

/// Back-delay-line position estimate, in IEEE double arithmetic on bits:
/// (backLeft - backRight) * 0.5 * 1.0 / 1.98.
pub open spec fn back_position(hits: Seq<Hit>, map: ChannelMap) -> u64 {
    f_div(
        f_mul(
            f_mul(
                f_sub(
                    captured_time(hits, map, SPSChannelType::DelayBackLeft),
                    captured_time(hits, map, SPSChannelType::DelayBackRight),
                ),
                HALF_BITS,
            ),
            ONE_BITS,
        ),
        BACK_DIVISOR_BITS,
    )
}

/// Value of the first position estimate's column: computed only when both
/// front timestamps are present, else left at the sentinel.
pub open spec fn x1_value(hits: Seq<Hit>, map: ChannelMap) -> u64 {
    if captured_time(hits, map, SPSChannelType::DelayFrontRight) != SENTINEL_BITS
        && captured_time(hits, map, SPSChannelType::DelayFrontLeft) != SENTINEL_BITS {
        front_position(hits, map)
    } else {
        SENTINEL_BITS
    }
}

/// Value of the second position estimate's column.
pub open spec fn x2_value(hits: Seq<Hit>, map: ChannelMap) -> u64 {
    if captured_time(hits, map, SPSChannelType::DelayBackRight) != SENTINEL_BITS
        && captured_time(hits, map, SPSChannelType::DelayBackLeft) != SENTINEL_BITS {
        back_position(hits, map)
    } else {
        SENTINEL_BITS
    }
}

/// Both position estimates came out and neither collided with the sentinel:
/// the angle and averaged position are derived this row.
pub open spec fn derived_ready(hits: Seq<Hit>, map: ChannelMap) -> bool {
    x1_value(hits, map) != SENTINEL_BITS && x2_value(hits, map) != SENTINEL_BITS
}

/// estimate2 - estimate1, in IEEE double arithmetic on bits.
pub open spec fn diff_value(hits: Seq<Hit>, map: ChannelMap) -> u64 {
    f_sub(x2_value(hits, map), x1_value(hits, map))
}

/// What the ingestion itself writes into the angle column: pi/2 when the two
/// estimates neither exceed nor fall short of each other; otherwise the
/// sentinel, with the arctangent still owed (see `ThetaRequest`).
pub open spec fn theta_row_value(hits: Seq<Hit>, map: ChannelMap) -> u64 {
    if derived_ready(hits, map) && !dbl_gt_zero(diff_value(hits, map)) && !dbl_lt_zero(
        diff_value(hits, map),
    ) {
        f_mul(PI_BITS, HALF_BITS)
    } else {
        SENTINEL_BITS
    }
}

/// The arctangent still owed for the angle column: the quotient diff / 36.0
/// whose arctangent the caller must evaluate, and whether pi is to be added
/// (the estimates' difference came out negative).
pub open spec fn theta_request_value(hits: Seq<Hit>, map: ChannelMap) -> Option<ThetaRequest> {
    if derived_ready(hits, map) && (dbl_gt_zero(diff_value(hits, map)) || dbl_lt_zero(
        diff_value(hits, map),
    )) {
        Some(
            (ThetaRequest {
                quotient: f_div(diff_value(hits, map), ANGLE_DIVISOR_BITS),
                negative: dbl_lt_zero(diff_value(hits, map)),
            }),
        )
    } else {
        None
    }
}

/// Value of the averaged-position column: w0 * estimate1 + w1 * estimate2
/// when both estimates are in and weights are configured; the sentinel when
/// weights are absent (written deliberately) or the estimates are not in.
pub open spec fn xavg_row_value(
    hits: Seq<Hit>,
    map: ChannelMap,
    weights: Option<(u64, u64)>,
) -> u64 {
    if derived_ready(hits, map) {
        match weights {
            Some(w) => f_add(f_mul(w.0, x1_value(hits, map)), f_mul(w.1, x2_value(hits, map))),
            None => SENTINEL_BITS,
        }
    } else {
        SENTINEL_BITS
    }
}

/// The value one event leaves in the current row of each column.
pub open spec fn row_value(
    f: SPSDataField,
    hits: Seq<Hit>,
    map: ChannelMap,
    weights: Option<(u64, u64)>,
) -> u64 {
    match f {
        SPSDataField::X1 => x1_value(hits, map),
        SPSDataField::X2 => x2_value(hits, map),
        SPSDataField::Theta => theta_row_value(hits, map),
        SPSDataField::Xavg => xavg_row_value(hits, map, weights),
        _ => trio_row_value(f, hits, map),
    }
}

/// Overwriting the value just pushed onto a column is the same as having
/// pushed the new value.
proof fn lemma_push_update(s: Seq<u64>, a: u64, b: u64)
    ensures
        s.push(a).update(s.len() as int, b) == s.push(b),
{
    assert(s.push(a).update(s.len() as int, b) =~= s.push(b));
}

/// How one more hit changes the surviving hit of each role: it becomes the
/// survivor of its own role and no other role changes.
proof fn lemma_role_hit_step(hits: Seq<Hit>, map: ChannelMap, i: int)
    requires
        0 <= i < hits.len(),
    ensures
        forall|k: SPSChannelType|
            lookup_in(map.entries@, hits[i].uuid) == Some(k) ==> #[trigger] last_role_hit(
                hits.take(i + 1),
                map,
                k,
            ) == Some(hits[i]),
        forall|k: SPSChannelType|
            lookup_in(map.entries@, hits[i].uuid) != Some(k) ==> #[trigger] last_role_hit(
                hits.take(i + 1),
                map,
                k,
            ) == last_role_hit(hits.take(i), map, k),
{
    assert(hits.take(i + 1).drop_last() =~= hits.take(i));
    assert(hits.take(i + 1).last() == hits[i]);
}

/// The three per-hit readings a trio column can take.
#[derive(Clone, Copy, Debug, PartialEq, Eq, Structural)]
pub enum HitPart {
    Energy,
    Short,
    Time,
}

pub open spec fn part_of(h: Hit, p: HitPart) -> u64 {
    match p {
        HitPart::Energy => h.energy,
        HitPart::Short => h.energy_short,
        HitPart::Time => h.timestamp,
    }
}

/// The column that takes one reading of a role's hits.
pub open spec fn trio_field(k: SPSChannelType, p: HitPart) -> SPSDataField {
    match k {
        SPSChannelType::AnodeFront => match p {
            HitPart::Energy => SPSDataField::AnodeFrontEnergy,
            HitPart::Short => SPSDataField::AnodeFrontShort,
            HitPart::Time => SPSDataField::AnodeFrontTime,
        },
        SPSChannelType::AnodeBack => match p {
            HitPart::Energy => SPSDataField::AnodeBackEnergy,
            HitPart::Short => SPSDataField::AnodeBackShort,
            HitPart::Time => SPSDataField::AnodeBackTime,
        },
        SPSChannelType::ScintLeft => match p {
            HitPart::Energy => SPSDataField::ScintLeftEnergy,
            HitPart::Short => SPSDataField::ScintLeftShort,
            HitPart::Time => SPSDataField::ScintLeftTime,
        },
        SPSChannelType::ScintRight => match p {
            HitPart::Energy => SPSDataField::ScintRightEnergy,
            HitPart::Short => SPSDataField::ScintRightShort,
            HitPart::Time => SPSDataField::ScintRightTime,
        },
        SPSChannelType::Cathode => match p {
            HitPart::Energy => SPSDataField::CathodeEnergy,
            HitPart::Short => SPSDataField::CathodeShort,
            HitPart::Time => SPSDataField::CathodeTime,
        },
        SPSChannelType::DelayFrontLeft => match p {
            HitPart::Energy => SPSDataField::DelayFrontLeftEnergy,
            HitPart::Short => SPSDataField::DelayFrontLeftShort,
            HitPart::Time => SPSDataField::DelayFrontLeftTime,
        },
        SPSChannelType::DelayFrontRight => match p {
            HitPart::Energy => SPSDataField::DelayFrontRightEnergy,
            HitPart::Short => SPSDataField::DelayFrontRightShort,
            HitPart::Time => SPSDataField::DelayFrontRightTime,
        },
        SPSChannelType::DelayBackLeft => match p {
            HitPart::Energy => SPSDataField::DelayBackLeftEnergy,
            HitPart::Short => SPSDataField::DelayBackLeftShort,
            HitPart::Time => SPSDataField::DelayBackLeftTime,
        },
        SPSChannelType::DelayBackRight => match p {
            HitPart::Energy => SPSDataField::DelayBackRightEnergy,
            HitPart::Short => SPSDataField::DelayBackRightShort,
            HitPart::Time => SPSDataField::DelayBackRightTime,
        },
        SPSChannelType::Cebra0 => match p {
            HitPart::Energy => SPSDataField::Cebra0Energy,
            HitPart::Short => SPSDataField::Cebra0Short,
            HitPart::Time => SPSDataField::Cebra0Time,
        },
        SPSChannelType::Cebra1 => match p {
            HitPart::Energy => SPSDataField::Cebra1Energy,
            HitPart::Short => SPSDataField::Cebra1Short,
            HitPart::Time => SPSDataField::Cebra1Time,
        },
        SPSChannelType::Cebra2 => match p {
            HitPart::Energy => SPSDataField::Cebra2Energy,
            HitPart::Short => SPSDataField::Cebra2Short,
            HitPart::Time => SPSDataField::Cebra2Time,
        },
        SPSChannelType::Cebra3 => match p {
            HitPart::Energy => SPSDataField::Cebra3Energy,
            HitPart::Short => SPSDataField::Cebra3Short,
            HitPart::Time => SPSDataField::Cebra3Time,
        },
        SPSChannelType::Cebra4 => match p {
            HitPart::Energy => SPSDataField::Cebra4Energy,
            HitPart::Short => SPSDataField::Cebra4Short,
            HitPart::Time => SPSDataField::Cebra4Time,
        },
        SPSChannelType::Cebra5 => match p {
            HitPart::Energy => SPSDataField::Cebra5Energy,
            HitPart::Short => SPSDataField::Cebra5Short,
            HitPart::Time => SPSDataField::Cebra5Time,
        },
        SPSChannelType::Cebra6 => match p {
            HitPart::Energy => SPSDataField::Cebra6Energy,
            HitPart::Short => SPSDataField::Cebra6Short,
            HitPart::Time => SPSDataField::Cebra6Time,
        },
    }
}

/// The role and reading a column is fed from, if it is a trio column; the
/// four derived columns have no source role.
pub open spec fn field_source(f: SPSDataField) -> Option<(SPSChannelType, HitPart)> {
    match f {
        SPSDataField::AnodeFrontEnergy => Some((SPSChannelType::AnodeFront, HitPart::Energy)),
        SPSDataField::AnodeFrontShort => Some((SPSChannelType::AnodeFront, HitPart::Short)),
        SPSDataField::AnodeFrontTime => Some((SPSChannelType::AnodeFront, HitPart::Time)),
        SPSDataField::AnodeBackEnergy => Some((SPSChannelType::AnodeBack, HitPart::Energy)),
        SPSDataField::AnodeBackShort => Some((SPSChannelType::AnodeBack, HitPart::Short)),
        SPSDataField::AnodeBackTime => Some((SPSChannelType::AnodeBack, HitPart::Time)),
        SPSDataField::ScintLeftEnergy => Some((SPSChannelType::ScintLeft, HitPart::Energy)),
        SPSDataField::ScintLeftShort => Some((SPSChannelType::ScintLeft, HitPart::Short)),
        SPSDataField::ScintLeftTime => Some((SPSChannelType::ScintLeft, HitPart::Time)),
        SPSDataField::ScintRightEnergy => Some((SPSChannelType::ScintRight, HitPart::Energy)),
        SPSDataField::ScintRightShort => Some((SPSChannelType::ScintRight, HitPart::Short)),
        SPSDataField::ScintRightTime => Some((SPSChannelType::ScintRight, HitPart::Time)),
        SPSDataField::CathodeEnergy => Some((SPSChannelType::Cathode, HitPart::Energy)),
        SPSDataField::CathodeShort => Some((SPSChannelType::Cathode, HitPart::Short)),
        SPSDataField::CathodeTime => Some((SPSChannelType::Cathode, HitPart::Time)),
        SPSDataField::DelayFrontLeftEnergy => Some((SPSChannelType::DelayFrontLeft, HitPart::Energy)),
        SPSDataField::DelayFrontLeftShort => Some((SPSChannelType::DelayFrontLeft, HitPart::Short)),
        SPSDataField::DelayFrontLeftTime => Some((SPSChannelType::DelayFrontLeft, HitPart::Time)),
        SPSDataField::DelayFrontRightEnergy => Some((SPSChannelType::DelayFrontRight, HitPart::Energy)),
        SPSDataField::DelayFrontRightShort => Some((SPSChannelType::DelayFrontRight, HitPart::Short)),
        SPSDataField::DelayFrontRightTime => Some((SPSChannelType::DelayFrontRight, HitPart::Time)),
        SPSDataField::DelayBackLeftEnergy => Some((SPSChannelType::DelayBackLeft, HitPart::Energy)),
        SPSDataField::DelayBackLeftShort => Some((SPSChannelType::DelayBackLeft, HitPart::Short)),
        SPSDataField::DelayBackLeftTime => Some((SPSChannelType::DelayBackLeft, HitPart::Time)),
        SPSDataField::DelayBackRightEnergy => Some((SPSChannelType::DelayBackRight, HitPart::Energy)),
        SPSDataField::DelayBackRightShort => Some((SPSChannelType::DelayBackRight, HitPart::Short)),
        SPSDataField::DelayBackRightTime => Some((SPSChannelType::DelayBackRight, HitPart::Time)),
        SPSDataField::Cebra0Energy => Some((SPSChannelType::Cebra0, HitPart::Energy)),
        SPSDataField::Cebra0Short => Some((SPSChannelType::Cebra0, HitPart::Short)),
        SPSDataField::Cebra0Time => Some((SPSChannelType::Cebra0, HitPart::Time)),
        SPSDataField::Cebra1Energy => Some((SPSChannelType::Cebra1, HitPart::Energy)),
        SPSDataField::Cebra1Short => Some((SPSChannelType::Cebra1, HitPart::Short)),
        SPSDataField::Cebra1Time => Some((SPSChannelType::Cebra1, HitPart::Time)),
        SPSDataField::Cebra2Energy => Some((SPSChannelType::Cebra2, HitPart::Energy)),
        SPSDataField::Cebra2Short => Some((SPSChannelType::Cebra2, HitPart::Short)),
        SPSDataField::Cebra2Time => Some((SPSChannelType::Cebra2, HitPart::Time)),
        SPSDataField::Cebra3Energy => Some((SPSChannelType::Cebra3, HitPart::Energy)),
        SPSDataField::Cebra3Short => Some((SPSChannelType::Cebra3, HitPart::Short)),
        SPSDataField::Cebra3Time => Some((SPSChannelType::Cebra3, HitPart::Time)),
        SPSDataField::Cebra4Energy => Some((SPSChannelType::Cebra4, HitPart::Energy)),
        SPSDataField::Cebra4Short => Some((SPSChannelType::Cebra4, HitPart::Short)),
        SPSDataField::Cebra4Time => Some((SPSChannelType::Cebra4, HitPart::Time)),
        SPSDataField::Cebra5Energy => Some((SPSChannelType::Cebra5, HitPart::Energy)),
        SPSDataField::Cebra5Short => Some((SPSChannelType::Cebra5, HitPart::Short)),
        SPSDataField::Cebra5Time => Some((SPSChannelType::Cebra5, HitPart::Time)),
        SPSDataField::Cebra6Energy => Some((SPSChannelType::Cebra6, HitPart::Energy)),
        SPSDataField::Cebra6Short => Some((SPSChannelType::Cebra6, HitPart::Short)),
        SPSDataField::Cebra6Time => Some((SPSChannelType::Cebra6, HitPart::Time)),
        SPSDataField::X1 => None,
        SPSDataField::X2 => None,
        SPSDataField::Xavg => None,
        SPSDataField::Theta => None,
    }
}

/// `trio_field` and `field_source` are inverse: the trio columns and the
/// role/reading pairs correspond one to one.
pub proof fn lemma_field_source()
    ensures
        forall|f: SPSDataField|
            (#[trigger] field_source(f)) matches Some(src) ==> f == trio_field(src.0, src.1),
        forall|k: SPSChannelType, p: HitPart|
            #[trigger] field_source(trio_field(k, p)) == Some((k, p)),
{
}

impl SPSData {
    /// Overwrite the current row's trio of one role with a hit's readings.
    fn record_hit(&mut self, k: SPSChannelType, h: &Hit)
        requires
            old(self).wf(),
            old(self).rows >= 1,
        ensures
            final(self).wf(),
            final(self).rows == old(self).rows,
            forall|f: SPSDataField|
                (#[trigger] field_source(f)) matches Some(src) ==> (src.0 == k
                    ==> final(self).col(f) == old(self).col(f).update(
                    old(self).rows - 1,
                    part_of(*h, src.1),
                )),
            forall|f: SPSDataField|
                !(field_source(f) matches Some(src) && src.0 == k)
                    ==> #[trigger] final(self).col(f) == old(self).col(f),
    {
        proof {
            lemma_field_source();
        }
        match k {
            SPSChannelType::ScintLeft => {
                self.set_value(&SPSDataField::ScintLeftEnergy, h.energy);
                self.set_value(&SPSDataField::ScintLeftShort, h.energy_short);
                self.set_value(&SPSDataField::ScintLeftTime, h.timestamp);
            },
            SPSChannelType::ScintRight => {
                self.set_value(&SPSDataField::ScintRightEnergy, h.energy);
                self.set_value(&SPSDataField::ScintRightShort, h.energy_short);
                self.set_value(&SPSDataField::ScintRightTime, h.timestamp);
            },
            SPSChannelType::Cathode => {
                self.set_value(&SPSDataField::CathodeEnergy, h.energy);
                self.set_value(&SPSDataField::CathodeShort, h.energy_short);
                self.set_value(&SPSDataField::CathodeTime, h.timestamp);
            },
            SPSChannelType::DelayFrontRight => {
                self.set_value(&SPSDataField::DelayFrontRightEnergy, h.energy);
                self.set_value(&SPSDataField::DelayFrontRightShort, h.energy_short);
                self.set_value(&SPSDataField::DelayFrontRightTime, h.timestamp);
            },
            SPSChannelType::DelayFrontLeft => {
                self.set_value(&SPSDataField::DelayFrontLeftEnergy, h.energy);
                self.set_value(&SPSDataField::DelayFrontLeftShort, h.energy_short);
                self.set_value(&SPSDataField::DelayFrontLeftTime, h.timestamp);
            },
            SPSChannelType::DelayBackRight => {
                self.set_value(&SPSDataField::DelayBackRightEnergy, h.energy);
                self.set_value(&SPSDataField::DelayBackRightShort, h.energy_short);
                self.set_value(&SPSDataField::DelayBackRightTime, h.timestamp);
            },
            SPSChannelType::DelayBackLeft => {
                self.set_value(&SPSDataField::DelayBackLeftEnergy, h.energy);
                self.set_value(&SPSDataField::DelayBackLeftShort, h.energy_short);
                self.set_value(&SPSDataField::DelayBackLeftTime, h.timestamp);
            },
            SPSChannelType::AnodeFront => {
                self.set_value(&SPSDataField::AnodeFrontEnergy, h.energy);
                self.set_value(&SPSDataField::AnodeFrontShort, h.energy_short);
                self.set_value(&SPSDataField::AnodeFrontTime, h.timestamp);
            },
            SPSChannelType::AnodeBack => {
                self.set_value(&SPSDataField::AnodeBackEnergy, h.energy);
                self.set_value(&SPSDataField::AnodeBackShort, h.energy_short);
                self.set_value(&SPSDataField::AnodeBackTime, h.timestamp);
            },
            SPSChannelType::Cebra0 => {
                self.set_value(&SPSDataField::Cebra0Energy, h.energy);
                self.set_value(&SPSDataField::Cebra0Short, h.energy_short);
                self.set_value(&SPSDataField::Cebra0Time, h.timestamp);
            },
            SPSChannelType::Cebra1 => {
                self.set_value(&SPSDataField::Cebra1Energy, h.energy);
                self.set_value(&SPSDataField::Cebra1Short, h.energy_short);
                self.set_value(&SPSDataField::Cebra1Time, h.timestamp);
            },
            SPSChannelType::Cebra2 => {
                self.set_value(&SPSDataField::Cebra2Energy, h.energy);
                self.set_value(&SPSDataField::Cebra2Short, h.energy_short);
                self.set_value(&SPSDataField::Cebra2Time, h.timestamp);
            },
            SPSChannelType::Cebra3 => {
                self.set_value(&SPSDataField::Cebra3Energy, h.energy);
                self.set_value(&SPSDataField::Cebra3Short, h.energy_short);
                self.set_value(&SPSDataField::Cebra3Time, h.timestamp);
            },
            SPSChannelType::Cebra4 => {
                self.set_value(&SPSDataField::Cebra4Energy, h.energy);
                self.set_value(&SPSDataField::Cebra4Short, h.energy_short);
                self.set_value(&SPSDataField::Cebra4Time, h.timestamp);
            },
            SPSChannelType::Cebra5 => {
                self.set_value(&SPSDataField::Cebra5Energy, h.energy);
                self.set_value(&SPSDataField::Cebra5Short, h.energy_short);
                self.set_value(&SPSDataField::Cebra5Time, h.timestamp);
            },
            SPSChannelType::Cebra6 => {
                self.set_value(&SPSDataField::Cebra6Energy, h.energy);
                self.set_value(&SPSDataField::Cebra6Short, h.energy_short);
                self.set_value(&SPSDataField::Cebra6Time, h.timestamp);
            },
        }
    }

    /// Consume one event: add a row, route every hit with a role to that
    /// role's column trio (last hit of a role wins), and derive the position
    /// estimates and, where the estimates allow, the averaged position and
    /// the angle. When the estimates' difference comes out strictly positive
    /// or strictly negative, the angle needs an arctangent, which this store
    /// cannot evaluate: the returned request says which one, and the caller
    /// settles it with `set_theta`; until then the angle stays at the
    /// sentinel.
    pub fn append_event(
        &mut self,
        event: Vec<Hit>,
        map: &ChannelMap,
        weights: Option<(u64, u64)>,
    ) -> (r: Option<ThetaRequest>)
        requires
            old(self).wf(),
            old(self).rows < usize::MAX,
        ensures
            final(self).wf(),
            final(self).rows == old(self).rows + 1,
            forall|f: SPSDataField|
                #[trigger] final(self).col(f) == old(self).col(f).push(
                    row_value(f, event@, *map, weights),
                ),
            r == theta_request_value(event@, *map),
    {
        proof {
            crate::fields::lemma_field_index();
            lemma_field_source();
        }
        self.rows = self.rows + 1;
        self.push_defaults();

        let mut dfl_time: u64 = SENTINEL_BITS;
        let mut dfr_time: u64 = SENTINEL_BITS;
        let mut dbl_time: u64 = SENTINEL_BITS;
        let mut dbr_time: u64 = SENTINEL_BITS;

        let mut idx: usize = 0;
        proof {
            assert(event@.take(0) =~= Seq::<Hit>::empty());
        }
        while idx < event.len()
            invariant
                self.wf(),
                self.rows == old(self).rows + 1,
                old(self).wf(),
                idx <= event@.len(),
                forall|f: SPSDataField|
                    #[trigger] self.col(f) == old(self).col(f).push(
                        trio_row_value(f, event@.take(idx as int), *map),
                    ),
                dfl_time == captured_time(
                    event@.take(idx as int),
                    *map,
                    SPSChannelType::DelayFrontLeft,
                ),
                dfr_time == captured_time(
                    event@.take(idx as int),
                    *map,
                    SPSChannelType::DelayFrontRight,
                ),
                dbl_time == captured_time(
                    event@.take(idx as int),
                    *map,
                    SPSChannelType::DelayBackLeft,
                ),
                dbr_time == captured_time(
                    event@.take(idx as int),
                    *map,
                    SPSChannelType::DelayBackRight,
                ),
            decreases event@.len() - idx,
        {
            let hit = event[idx];
            proof {
                lemma_role_hit_step(event@, *map, idx as int);
            }
            match map.lookup(hit.uuid) {
                Some(k) => {
                    self.record_hit(k, &hit);
                    if k == SPSChannelType::DelayFrontLeft {
                        dfl_time = hit.timestamp;
                    } else if k == SPSChannelType::DelayFrontRight {
                        dfr_time = hit.timestamp;
                    } else if k == SPSChannelType::DelayBackLeft {
                        dbl_time = hit.timestamp;
                    } else if k == SPSChannelType::DelayBackRight {
                        dbr_time = hit.timestamp;
                    }
                    proof {
                        lemma_field_source();
                        assert forall|f: SPSDataField| #[trigger] self.col(f) == old(self).col(
                            f,
                        ).push(trio_row_value(f, event@.take(idx as int + 1), *map)) by {
                            lemma_push_update(
                                old(self).col(f),
                                trio_row_value(f, event@.take(idx as int), *map),
                                trio_row_value(f, event@.take(idx as int + 1), *map),
                            );
                        }
                    }
                }
                None => {
                    proof {
                        assert forall|f: SPSDataField| #[trigger] self.col(f) == old(self).col(
                            f,
                        ).push(trio_row_value(f, event@.take(idx as int + 1), *map)) by {
                            assert(trio_row_value(f, event@.take(idx as int + 1), *map)
                                == trio_row_value(f, event@.take(idx as int), *map));
                        }
                    }
                }
            }
            idx = idx + 1;
        }
        proof {
            assert(event@.take(event@.len() as int) =~= event@);
        }

        let mut x1: u64 = SENTINEL_BITS;
        let mut x2: u64 = SENTINEL_BITS;
        if dfr_time != SENTINEL_BITS && dfl_time != SENTINEL_BITS {
            x1 = fdiv(
                fmul(fmul(fsub(dfl_time, dfr_time), HALF_BITS), ONE_BITS),
                FRONT_DIVISOR_BITS,
            );
            self.set_value(&SPSDataField::X1, x1);
        }
        if dbr_time != SENTINEL_BITS && dbl_time != SENTINEL_BITS {
            x2 = fdiv(
                fmul(fmul(fsub(dbl_time, dbr_time), HALF_BITS), ONE_BITS),
                BACK_DIVISOR_BITS,
            );
            self.set_value(&SPSDataField::X2, x2);
        }

        let mut req: Option<ThetaRequest> = None;
        if x1 != SENTINEL_BITS && x2 != SENTINEL_BITS {
            let diff = fsub(x2, x1);
            if is_gt_zero(diff) {
                req = Some(ThetaRequest { quotient: fdiv(diff, ANGLE_DIVISOR_BITS), negative: false });
            } else if is_lt_zero(diff) {
                req = Some(ThetaRequest { quotient: fdiv(diff, ANGLE_DIVISOR_BITS), negative: true });
            } else {
                let half_pi = fmul(PI_BITS, HALF_BITS);
                self.set_value(&SPSDataField::Theta, half_pi);
            }
            match weights {
                Some(w) => {
                    let avg = fadd(fmul(w.0, x1), fmul(w.1, x2));
                    self.set_value(&SPSDataField::Xavg, avg);
                },
                None => {
                    self.set_value(&SPSDataField::Xavg, SENTINEL_BITS);
                },
            }
        }

        proof {
            assert(x1 == x1_value(event@, *map));
            assert(x2 == x2_value(event@, *map));
            assert forall|f: SPSDataField| #[trigger] self.col(f) == old(self).col(f).push(
                row_value(f, event@, *map, weights),
            ) by {
                lemma_push_update(
                    old(self).col(f),
                    trio_row_value(f, event@, *map),
                    row_value(f, event@, *map, weights),
                );
            }
        }
        req
    }

    /// Settle the arctangent owed by the last event: write the angle column's
    /// current row with the supplied arctangent bits, offset by pi in IEEE
    /// double arithmetic when the request says the difference was negative.
    pub fn set_theta(&mut self, req: &ThetaRequest, atan_bits: u64)
        requires
            old(self).wf(),
            old(self).rows >= 1,
        ensures
            final(self).wf(),
            final(self).rows == old(self).rows,
            final(self).col(SPSDataField::Theta) == old(self).col(SPSDataField::Theta).update(
                old(self).rows - 1,
                if req.negative {
                    f_add(PI_BITS, atan_bits)
                } else {
                    atan_bits
                },
            ),
            forall|g: SPSDataField|
                g != SPSDataField::Theta ==> #[trigger] final(self).col(g) == old(self).col(g),
    {
        let value = if req.negative {
            fadd(PI_BITS, atan_bits)
        } else {
            atan_bits
        };
        self.set_value(&SPSDataField::Theta, value);
    }

    /// Consume the store and hand back, in schema order, each field's stable
    /// string identity paired with its column of double bit patterns: the
    /// one-way handoff to the external table sink.
    pub fn into_named_columns(self) -> (r: Vec<(String, Vec<u64>)>)
        requires
            self.wf(),
        ensures
            r@.len() == NUM_FIELDS,
            forall|i: int|
                0 <= i < NUM_FIELDS ==> (#[trigger] r@[i]).0@ == SPSDataField::field_at(
                    i,
                ).name_spec(),
            forall|i: int|
                0 <= i < NUM_FIELDS ==> (#[trigger] r@[i]).1@ == self.col(
                    SPSDataField::field_at(i),
                ),
    {
        proof {
            crate::fields::lemma_field_index();
        }
        let ghost orig = self;
        let mut columns = self.fields;
        let mut r: Vec<(String, Vec<u64>)> = Vec::new();
        let mut i: usize = 0;
        while i < NUM_FIELDS
            invariant
                i <= NUM_FIELDS,
                columns@ =~= orig.fields@.skip(i as int),
                orig.fields@.len() == NUM_FIELDS,
                r@.len() == i,
                forall|j: int|
                    0 <= j < i ==> (#[trigger] r@[j]).0@ == SPSDataField::field_at(j).name_spec(),
                forall|j: int| 0 <= j < i ==> (#[trigger] r@[j]).1@ == orig.fields@[j]@,
            decreases NUM_FIELDS - i,
        {
            let f = SPSDataField::from_index(i);
            let name = String::from_str(f.name());
            let column = columns.remove(0);
            proof {
                assert(column == orig.fields@.skip(i as int)[0]);
                assert(column == orig.fields@[i as int]);
                assert(columns@ =~= orig.fields@.skip(i as int + 1));
            }
            r.push((name, column));
            i = i + 1;
        }
        proof {
            assert forall|i: int|
                0 <= i < NUM_FIELDS implies (#[trigger] r@[i]).1@ == orig.col(
                SPSDataField::field_at(i),
            ) by {
                assert(SPSDataField::field_at(i).index_spec() == i);
            }
        }
        r
    }
}



/// One trio column's contents after a whole run of events consumed in order.
pub open spec fn run_col(
    f: SPSDataField,
    events: Seq<Seq<Hit>>,
    map: ChannelMap,
    weights: Option<(u64, u64)>,
) -> Seq<u64>
    decreases events.len(),
{
    if events.len() == 0 {
        Seq::empty()
    } else {
        run_col(f, events.drop_last(), map, weights).push(
            row_value(f, events.last(), map, weights),
        )
    }
}

/// A channel role never present in any event of a run leaves each of its
/// columns holding exactly one sentinel per event.
pub proof fn lemma_default_population(
    f: SPSDataField,
    events: Seq<Seq<Hit>>,
    map: ChannelMap,
    weights: Option<(u64, u64)>,
    k: SPSChannelType,
    p: HitPart,
)
    requires
        field_source(f) == Some((k, p)),
        forall|i: int| 0 <= i < events.len() ==> last_role_hit(#[trigger] events[i], map, k).is_none(),
    ensures
        run_col(f, events, map, weights).len() == events.len(),
        forall|i: int|
            0 <= i < events.len() ==> #[trigger] run_col(f, events, map, weights)[i]
                == SENTINEL_BITS,
    decreases events.len(),
{
    if events.len() > 0 {
        assert forall|i: int|
            0 <= i < events.drop_last().len() implies last_role_hit(
            #[trigger] events.drop_last()[i],
            map,
            k,
        ).is_none() by {
            assert(events.drop_last()[i] == events[i]);
        }
        lemma_default_population(f, events.drop_last(), map, weights, k, p);
        assert(events.last() == events[events.len() - 1]);
        assert(row_value(f, events.last(), map, weights) == SENTINEL_BITS);
    }
}

/// Within one event, the last hit that resolves to a role decides all three
/// of that role's readings.
pub proof fn lemma_last_hit_wins(hits: Seq<Hit>, map: ChannelMap, k: SPSChannelType, j: int)
    requires
        0 <= j < hits.len(),
        lookup_in(map.entries@, hits[j].uuid) == Some(k),
        forall|m: int|
            j < m < hits.len() ==> lookup_in(map.entries@, (#[trigger] hits[m]).uuid) != Some(k),
    ensures
        last_role_hit(hits, map, k) == Some(hits[j]),
        forall|p: HitPart|
            trio_row_value(#[trigger] trio_field(k, p), hits, map) == part_of(hits[j], p),
    decreases hits.len(),
{
    lemma_field_source();
    if j == hits.len() - 1 {
    } else {
        assert(lookup_in(map.entries@, hits.last().uuid) != Some(k));
        assert forall|m: int|
            j < m < hits.drop_last().len() implies lookup_in(
            map.entries@,
            (#[trigger] hits.drop_last()[m]).uuid,
        ) != Some(k) by {
            assert(hits.drop_last()[m] == hits[m]);
        }
        assert(hits.drop_last()[j] == hits[j]);
        lemma_last_hit_wins(hits.drop_last(), map, k, j);
    }
}

/// A hit whose identity resolves to no role never affects what the event
/// writes: every column's row value, and the owed arctangent, are as if the
/// hit were absent.
pub proof fn lemma_unmapped_skip(
    hits: Seq<Hit>,
    map: ChannelMap,
    weights: Option<(u64, u64)>,
    p: int,
)
    requires
        0 <= p < hits.len(),
        lookup_in(map.entries@, hits[p].uuid).is_none(),
    ensures
        forall|k: SPSChannelType| #[trigger] last_role_hit(hits, map, k) == last_role_hit(
            hits.remove(p),
            map,
            k,
        ),
        forall|f: SPSDataField| #[trigger] row_value(f, hits, map, weights) == row_value(
            f,
            hits.remove(p),
            map,
            weights,
        ),
        theta_request_value(hits, map) == theta_request_value(hits.remove(p), map),
    decreases hits.len(),
{
    if p == hits.len() - 1 {
        assert(hits.remove(p) =~= hits.drop_last());
        assert(lookup_in(map.entries@, hits.last().uuid).is_none());
    } else {
        let t = hits.remove(p);
        assert(t.len() == hits.len() - 1);
        assert(t[t.len() - 1] == hits[hits.len() - 1]);
        assert(t.last() == hits.last());
        assert(t.drop_last() =~= hits.drop_last().remove(p));
        assert(hits.drop_last()[p] == hits[p]);
        lemma_unmapped_skip(hits.drop_last(), map, weights, p);
        assert forall|k: SPSChannelType| #[trigger] last_role_hit(hits, map, k) == last_role_hit(
            hits.remove(p),
            map,
            k,
        ) by {
            if lookup_in(map.entries@, hits.last().uuid) == Some(k) {
            } else {
                assert(last_role_hit(hits, map, k) == last_role_hit(hits.drop_last(), map, k));
                assert(last_role_hit(t, map, k) == last_role_hit(t.drop_last(), map, k));
            }
        }
    }
}

/// An event with a front pair but no complete back pair leaves the second
/// estimate, the angle and the averaged position at the sentinel, and owes
/// no arctangent.
pub proof fn lemma_missing_pair(hits: Seq<Hit>, map: ChannelMap, weights: Option<(u64, u64)>)
    requires
        captured_time(hits, map, SPSChannelType::DelayBackLeft) == SENTINEL_BITS
            || captured_time(hits, map, SPSChannelType::DelayBackRight) == SENTINEL_BITS,
    ensures
        row_value(SPSDataField::X2, hits, map, weights) == SENTINEL_BITS,
        row_value(SPSDataField::Theta, hits, map, weights) == SENTINEL_BITS,
        row_value(SPSDataField::Xavg, hits, map, weights) == SENTINEL_BITS,
        theta_request_value(hits, map).is_none(),
{
}

/// An event with no hits still yields a full row: every column's new value
/// is the sentinel, and no arctangent is owed.
pub proof fn lemma_empty_event(map: ChannelMap, weights: Option<(u64, u64)>)
    ensures
        forall|f: SPSDataField| #[trigger] row_value(f, Seq::<Hit>::empty(), map, weights)
            == SENTINEL_BITS,
        theta_request_value(Seq::<Hit>::empty(), map).is_none(),
{
}

} // verus!
