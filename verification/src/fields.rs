use vstd::prelude::*;

verus! {

/// Number of columns in the fixed output schema.
pub const NUM_FIELDS: usize = 52;

/// One named column of the fixed output schema: an energy, short-gate
/// energy or timestamp reading for each physical channel role, plus the
/// derived position estimates, averaged position and angle.
#[derive(Clone, Copy, Debug, Hash, PartialEq, Eq, PartialOrd, Ord, Structural)]
pub enum SPSDataField {
    AnodeFrontEnergy,
    AnodeFrontShort,
    AnodeFrontTime,
    AnodeBackEnergy,
    AnodeBackShort,
    AnodeBackTime,
    ScintLeftEnergy,
    ScintLeftShort,
    ScintLeftTime,
    ScintRightEnergy,
    ScintRightShort,
    ScintRightTime,
    CathodeEnergy,
    CathodeShort,
    CathodeTime,
    DelayFrontLeftEnergy,
    DelayFrontLeftShort,
    DelayFrontLeftTime,
    DelayFrontRightEnergy,
    DelayFrontRightShort,
    DelayFrontRightTime,
    DelayBackLeftEnergy,
    DelayBackLeftShort,
    DelayBackLeftTime,
    DelayBackRightEnergy,
    DelayBackRightShort,
    DelayBackRightTime,
    X1,
    X2,
    Xavg,
    Theta,
    Cebra0Energy,
    Cebra1Energy,
    Cebra2Energy,
    Cebra3Energy,
    Cebra4Energy,
    Cebra5Energy,
    Cebra6Energy,
    Cebra0Short,
    Cebra1Short,
    Cebra2Short,
    Cebra3Short,
    Cebra4Short,
    Cebra5Short,
    Cebra6Short,
    Cebra0Time,
    Cebra1Time,
    Cebra2Time,
    Cebra3Time,
    Cebra4Time,
    Cebra5Time,
    Cebra6Time,
}

impl SPSDataField {
    /// Position of this field in the schema's total order.
    pub open spec fn index_spec(self) -> int {
        match self {
            SPSDataField::AnodeFrontEnergy => 0,
            SPSDataField::AnodeFrontShort => 1,
            SPSDataField::AnodeFrontTime => 2,
            SPSDataField::AnodeBackEnergy => 3,
            SPSDataField::AnodeBackShort => 4,
            SPSDataField::AnodeBackTime => 5,
            SPSDataField::ScintLeftEnergy => 6,
            SPSDataField::ScintLeftShort => 7,
            SPSDataField::ScintLeftTime => 8,
            SPSDataField::ScintRightEnergy => 9,
            SPSDataField::ScintRightShort => 10,
            SPSDataField::ScintRightTime => 11,
            SPSDataField::CathodeEnergy => 12,
            SPSDataField::CathodeShort => 13,
            SPSDataField::CathodeTime => 14,
            SPSDataField::DelayFrontLeftEnergy => 15,
            SPSDataField::DelayFrontLeftShort => 16,
            SPSDataField::DelayFrontLeftTime => 17,
            SPSDataField::DelayFrontRightEnergy => 18,
            SPSDataField::DelayFrontRightShort => 19,
            SPSDataField::DelayFrontRightTime => 20,
            SPSDataField::DelayBackLeftEnergy => 21,
            SPSDataField::DelayBackLeftShort => 22,
            SPSDataField::DelayBackLeftTime => 23,
            SPSDataField::DelayBackRightEnergy => 24,
            SPSDataField::DelayBackRightShort => 25,
            SPSDataField::DelayBackRightTime => 26,
            SPSDataField::X1 => 27,
            SPSDataField::X2 => 28,
            SPSDataField::Xavg => 29,
            SPSDataField::Theta => 30,
            SPSDataField::Cebra0Energy => 31,
            SPSDataField::Cebra1Energy => 32,
            SPSDataField::Cebra2Energy => 33,
            SPSDataField::Cebra3Energy => 34,
            SPSDataField::Cebra4Energy => 35,
            SPSDataField::Cebra5Energy => 36,
            SPSDataField::Cebra6Energy => 37,
            SPSDataField::Cebra0Short => 38,
            SPSDataField::Cebra1Short => 39,
            SPSDataField::Cebra2Short => 40,
            SPSDataField::Cebra3Short => 41,
            SPSDataField::Cebra4Short => 42,
            SPSDataField::Cebra5Short => 43,
            SPSDataField::Cebra6Short => 44,
            SPSDataField::Cebra0Time => 45,
            SPSDataField::Cebra1Time => 46,
            SPSDataField::Cebra2Time => 47,
            SPSDataField::Cebra3Time => 48,
            SPSDataField::Cebra4Time => 49,
            SPSDataField::Cebra5Time => 50,
            SPSDataField::Cebra6Time => 51,
        }
    }

    /// Stable string identity of this field, used as the external column name.
    pub open spec fn name_spec(self) -> Seq<char> {
        match self {
            SPSDataField::AnodeFrontEnergy => "AnodeFrontEnergy"@,
            SPSDataField::AnodeFrontShort => "AnodeFrontShort"@,
            SPSDataField::AnodeFrontTime => "AnodeFrontTime"@,
            SPSDataField::AnodeBackEnergy => "AnodeBackEnergy"@,
            SPSDataField::AnodeBackShort => "AnodeBackShort"@,
            SPSDataField::AnodeBackTime => "AnodeBackTime"@,
            SPSDataField::ScintLeftEnergy => "ScintLeftEnergy"@,
            SPSDataField::ScintLeftShort => "ScintLeftShort"@,
            SPSDataField::ScintLeftTime => "ScintLeftTime"@,
            SPSDataField::ScintRightEnergy => "ScintRightEnergy"@,
            SPSDataField::ScintRightShort => "ScintRightShort"@,
            SPSDataField::ScintRightTime => "ScintRightTime"@,
            SPSDataField::CathodeEnergy => "CathodeEnergy"@,
            SPSDataField::CathodeShort => "CathodeShort"@,
            SPSDataField::CathodeTime => "CathodeTime"@,
            SPSDataField::DelayFrontLeftEnergy => "DelayFrontLeftEnergy"@,
            SPSDataField::DelayFrontLeftShort => "DelayFrontLeftShort"@,
            SPSDataField::DelayFrontLeftTime => "DelayFrontLeftTime"@,
            SPSDataField::DelayFrontRightEnergy => "DelayFrontRightEnergy"@,
            SPSDataField::DelayFrontRightShort => "DelayFrontRightShort"@,
            SPSDataField::DelayFrontRightTime => "DelayFrontRightTime"@,
            SPSDataField::DelayBackLeftEnergy => "DelayBackLeftEnergy"@,
            SPSDataField::DelayBackLeftShort => "DelayBackLeftShort"@,
            SPSDataField::DelayBackLeftTime => "DelayBackLeftTime"@,
            SPSDataField::DelayBackRightEnergy => "DelayBackRightEnergy"@,
            SPSDataField::DelayBackRightShort => "DelayBackRightShort"@,
            SPSDataField::DelayBackRightTime => "DelayBackRightTime"@,
            SPSDataField::X1 => "X1"@,
            SPSDataField::X2 => "X2"@,
            SPSDataField::Xavg => "Xavg"@,
            SPSDataField::Theta => "Theta"@,
            SPSDataField::Cebra0Energy => "Cebra0Energy"@,
            SPSDataField::Cebra1Energy => "Cebra1Energy"@,
            SPSDataField::Cebra2Energy => "Cebra2Energy"@,
            SPSDataField::Cebra3Energy => "Cebra3Energy"@,
            SPSDataField::Cebra4Energy => "Cebra4Energy"@,
            SPSDataField::Cebra5Energy => "Cebra5Energy"@,
            SPSDataField::Cebra6Energy => "Cebra6Energy"@,
            SPSDataField::Cebra0Short => "Cebra0Short"@,
            SPSDataField::Cebra1Short => "Cebra1Short"@,
            SPSDataField::Cebra2Short => "Cebra2Short"@,
            SPSDataField::Cebra3Short => "Cebra3Short"@,
            SPSDataField::Cebra4Short => "Cebra4Short"@,
            SPSDataField::Cebra5Short => "Cebra5Short"@,
            SPSDataField::Cebra6Short => "Cebra6Short"@,
            SPSDataField::Cebra0Time => "Cebra0Time"@,
            SPSDataField::Cebra1Time => "Cebra1Time"@,
            SPSDataField::Cebra2Time => "Cebra2Time"@,
            SPSDataField::Cebra3Time => "Cebra3Time"@,
            SPSDataField::Cebra4Time => "Cebra4Time"@,
            SPSDataField::Cebra5Time => "Cebra5Time"@,
            SPSDataField::Cebra6Time => "Cebra6Time"@,
        }
    }

    pub fn index(&self) -> (i: usize)
        ensures
            i == self.index_spec(),
    {
        match self {
            SPSDataField::AnodeFrontEnergy => 0,
            SPSDataField::AnodeFrontShort => 1,
            SPSDataField::AnodeFrontTime => 2,
            SPSDataField::AnodeBackEnergy => 3,
            SPSDataField::AnodeBackShort => 4,
            SPSDataField::AnodeBackTime => 5,
            SPSDataField::ScintLeftEnergy => 6,
            SPSDataField::ScintLeftShort => 7,
            SPSDataField::ScintLeftTime => 8,
            SPSDataField::ScintRightEnergy => 9,
            SPSDataField::ScintRightShort => 10,
            SPSDataField::ScintRightTime => 11,
            SPSDataField::CathodeEnergy => 12,
            SPSDataField::CathodeShort => 13,
            SPSDataField::CathodeTime => 14,
            SPSDataField::DelayFrontLeftEnergy => 15,
            SPSDataField::DelayFrontLeftShort => 16,
            SPSDataField::DelayFrontLeftTime => 17,
            SPSDataField::DelayFrontRightEnergy => 18,
            SPSDataField::DelayFrontRightShort => 19,
            SPSDataField::DelayFrontRightTime => 20,
            SPSDataField::DelayBackLeftEnergy => 21,
            SPSDataField::DelayBackLeftShort => 22,
            SPSDataField::DelayBackLeftTime => 23,
            SPSDataField::DelayBackRightEnergy => 24,
            SPSDataField::DelayBackRightShort => 25,
            SPSDataField::DelayBackRightTime => 26,
            SPSDataField::X1 => 27,
            SPSDataField::X2 => 28,
            SPSDataField::Xavg => 29,
            SPSDataField::Theta => 30,
            SPSDataField::Cebra0Energy => 31,
            SPSDataField::Cebra1Energy => 32,
            SPSDataField::Cebra2Energy => 33,
            SPSDataField::Cebra3Energy => 34,
            SPSDataField::Cebra4Energy => 35,
            SPSDataField::Cebra5Energy => 36,
            SPSDataField::Cebra6Energy => 37,
            SPSDataField::Cebra0Short => 38,
            SPSDataField::Cebra1Short => 39,
            SPSDataField::Cebra2Short => 40,
            SPSDataField::Cebra3Short => 41,
            SPSDataField::Cebra4Short => 42,
            SPSDataField::Cebra5Short => 43,
            SPSDataField::Cebra6Short => 44,
            SPSDataField::Cebra0Time => 45,
            SPSDataField::Cebra1Time => 46,
            SPSDataField::Cebra2Time => 47,
            SPSDataField::Cebra3Time => 48,
            SPSDataField::Cebra4Time => 49,
            SPSDataField::Cebra5Time => 50,
            SPSDataField::Cebra6Time => 51,
        }
    }

    pub fn name(&self) -> (s: &'static str)
        ensures
            s@ == self.name_spec(),
    {
        match self {
            SPSDataField::AnodeFrontEnergy => "AnodeFrontEnergy",
            SPSDataField::AnodeFrontShort => "AnodeFrontShort",
            SPSDataField::AnodeFrontTime => "AnodeFrontTime",
            SPSDataField::AnodeBackEnergy => "AnodeBackEnergy",
            SPSDataField::AnodeBackShort => "AnodeBackShort",
            SPSDataField::AnodeBackTime => "AnodeBackTime",
            SPSDataField::ScintLeftEnergy => "ScintLeftEnergy",
            SPSDataField::ScintLeftShort => "ScintLeftShort",
            SPSDataField::ScintLeftTime => "ScintLeftTime",
            SPSDataField::ScintRightEnergy => "ScintRightEnergy",
            SPSDataField::ScintRightShort => "ScintRightShort",
            SPSDataField::ScintRightTime => "ScintRightTime",
            SPSDataField::CathodeEnergy => "CathodeEnergy",
            SPSDataField::CathodeShort => "CathodeShort",
            SPSDataField::CathodeTime => "CathodeTime",
            SPSDataField::DelayFrontLeftEnergy => "DelayFrontLeftEnergy",
            SPSDataField::DelayFrontLeftShort => "DelayFrontLeftShort",
            SPSDataField::DelayFrontLeftTime => "DelayFrontLeftTime",
            SPSDataField::DelayFrontRightEnergy => "DelayFrontRightEnergy",
            SPSDataField::DelayFrontRightShort => "DelayFrontRightShort",
            SPSDataField::DelayFrontRightTime => "DelayFrontRightTime",
            SPSDataField::DelayBackLeftEnergy => "DelayBackLeftEnergy",
            SPSDataField::DelayBackLeftShort => "DelayBackLeftShort",
            SPSDataField::DelayBackLeftTime => "DelayBackLeftTime",
            SPSDataField::DelayBackRightEnergy => "DelayBackRightEnergy",
            SPSDataField::DelayBackRightShort => "DelayBackRightShort",
            SPSDataField::DelayBackRightTime => "DelayBackRightTime",
            SPSDataField::X1 => "X1",
            SPSDataField::X2 => "X2",
            SPSDataField::Xavg => "Xavg",
            SPSDataField::Theta => "Theta",
            SPSDataField::Cebra0Energy => "Cebra0Energy",
            SPSDataField::Cebra1Energy => "Cebra1Energy",
            SPSDataField::Cebra2Energy => "Cebra2Energy",
            SPSDataField::Cebra3Energy => "Cebra3Energy",
            SPSDataField::Cebra4Energy => "Cebra4Energy",
            SPSDataField::Cebra5Energy => "Cebra5Energy",
            SPSDataField::Cebra6Energy => "Cebra6Energy",
            SPSDataField::Cebra0Short => "Cebra0Short",
            SPSDataField::Cebra1Short => "Cebra1Short",
            SPSDataField::Cebra2Short => "Cebra2Short",
            SPSDataField::Cebra3Short => "Cebra3Short",
            SPSDataField::Cebra4Short => "Cebra4Short",
            SPSDataField::Cebra5Short => "Cebra5Short",
            SPSDataField::Cebra6Short => "Cebra6Short",
            SPSDataField::Cebra0Time => "Cebra0Time",
            SPSDataField::Cebra1Time => "Cebra1Time",
            SPSDataField::Cebra2Time => "Cebra2Time",
            SPSDataField::Cebra3Time => "Cebra3Time",
            SPSDataField::Cebra4Time => "Cebra4Time",
            SPSDataField::Cebra5Time => "Cebra5Time",
            SPSDataField::Cebra6Time => "Cebra6Time",
        }
    }

    /// The field standing at a given position of the schema order.
    pub open spec fn field_at(i: int) -> SPSDataField {
        if i == 0 {
            SPSDataField::AnodeFrontEnergy
        } else if i == 1 {
            SPSDataField::AnodeFrontShort
        } else if i == 2 {
            SPSDataField::AnodeFrontTime
        } else if i == 3 {
            SPSDataField::AnodeBackEnergy
        } else if i == 4 {
            SPSDataField::AnodeBackShort
        } else if i == 5 {
            SPSDataField::AnodeBackTime
        } else if i == 6 {
            SPSDataField::ScintLeftEnergy
        } else if i == 7 {
            SPSDataField::ScintLeftShort
        } else if i == 8 {
            SPSDataField::ScintLeftTime
        } else if i == 9 {
            SPSDataField::ScintRightEnergy
        } else if i == 10 {
            SPSDataField::ScintRightShort
        } else if i == 11 {
            SPSDataField::ScintRightTime
        } else if i == 12 {
            SPSDataField::CathodeEnergy
        } else if i == 13 {
            SPSDataField::CathodeShort
        } else if i == 14 {
            SPSDataField::CathodeTime
        } else if i == 15 {
            SPSDataField::DelayFrontLeftEnergy
        } else if i == 16 {
            SPSDataField::DelayFrontLeftShort
        } else if i == 17 {
            SPSDataField::DelayFrontLeftTime
        } else if i == 18 {
            SPSDataField::DelayFrontRightEnergy
        } else if i == 19 {
            SPSDataField::DelayFrontRightShort
        } else if i == 20 {
            SPSDataField::DelayFrontRightTime
        } else if i == 21 {
            SPSDataField::DelayBackLeftEnergy
        } else if i == 22 {
            SPSDataField::DelayBackLeftShort
        } else if i == 23 {
            SPSDataField::DelayBackLeftTime
        } else if i == 24 {
            SPSDataField::DelayBackRightEnergy
        } else if i == 25 {
            SPSDataField::DelayBackRightShort
        } else if i == 26 {
            SPSDataField::DelayBackRightTime
        } else if i == 27 {
            SPSDataField::X1
        } else if i == 28 {
            SPSDataField::X2
        } else if i == 29 {
            SPSDataField::Xavg
        } else if i == 30 {
            SPSDataField::Theta
        } else if i == 31 {
            SPSDataField::Cebra0Energy
        } else if i == 32 {
            SPSDataField::Cebra1Energy
        } else if i == 33 {
            SPSDataField::Cebra2Energy
        } else if i == 34 {
            SPSDataField::Cebra3Energy
        } else if i == 35 {
            SPSDataField::Cebra4Energy
        } else if i == 36 {
            SPSDataField::Cebra5Energy
        } else if i == 37 {
            SPSDataField::Cebra6Energy
        } else if i == 38 {
            SPSDataField::Cebra0Short
        } else if i == 39 {
            SPSDataField::Cebra1Short
        } else if i == 40 {
            SPSDataField::Cebra2Short
        } else if i == 41 {
            SPSDataField::Cebra3Short
        } else if i == 42 {
            SPSDataField::Cebra4Short
        } else if i == 43 {
            SPSDataField::Cebra5Short
        } else if i == 44 {
            SPSDataField::Cebra6Short
        } else if i == 45 {
            SPSDataField::Cebra0Time
        } else if i == 46 {
            SPSDataField::Cebra1Time
        } else if i == 47 {
            SPSDataField::Cebra2Time
        } else if i == 48 {
            SPSDataField::Cebra3Time
        } else if i == 49 {
            SPSDataField::Cebra4Time
        } else if i == 50 {
            SPSDataField::Cebra5Time
        } else {
            SPSDataField::Cebra6Time
        }
    }

    pub fn from_index(i: usize) -> (f: SPSDataField)
        requires
            i < NUM_FIELDS,
        ensures
            f == SPSDataField::field_at(i as int),
    {
        if i == 0 {
            SPSDataField::AnodeFrontEnergy
        } else if i == 1 {
            SPSDataField::AnodeFrontShort
        } else if i == 2 {
            SPSDataField::AnodeFrontTime
        } else if i == 3 {
            SPSDataField::AnodeBackEnergy
        } else if i == 4 {
            SPSDataField::AnodeBackShort
        } else if i == 5 {
            SPSDataField::AnodeBackTime
        } else if i == 6 {
            SPSDataField::ScintLeftEnergy
        } else if i == 7 {
            SPSDataField::ScintLeftShort
        } else if i == 8 {
            SPSDataField::ScintLeftTime
        } else if i == 9 {
            SPSDataField::ScintRightEnergy
        } else if i == 10 {
            SPSDataField::ScintRightShort
        } else if i == 11 {
            SPSDataField::ScintRightTime
        } else if i == 12 {
            SPSDataField::CathodeEnergy
        } else if i == 13 {
            SPSDataField::CathodeShort
        } else if i == 14 {
            SPSDataField::CathodeTime
        } else if i == 15 {
            SPSDataField::DelayFrontLeftEnergy
        } else if i == 16 {
            SPSDataField::DelayFrontLeftShort
        } else if i == 17 {
            SPSDataField::DelayFrontLeftTime
        } else if i == 18 {
            SPSDataField::DelayFrontRightEnergy
        } else if i == 19 {
            SPSDataField::DelayFrontRightShort
        } else if i == 20 {
            SPSDataField::DelayFrontRightTime
        } else if i == 21 {
            SPSDataField::DelayBackLeftEnergy
        } else if i == 22 {
            SPSDataField::DelayBackLeftShort
        } else if i == 23 {
            SPSDataField::DelayBackLeftTime
        } else if i == 24 {
            SPSDataField::DelayBackRightEnergy
        } else if i == 25 {
            SPSDataField::DelayBackRightShort
        } else if i == 26 {
            SPSDataField::DelayBackRightTime
        } else if i == 27 {
            SPSDataField::X1
        } else if i == 28 {
            SPSDataField::X2
        } else if i == 29 {
            SPSDataField::Xavg
        } else if i == 30 {
            SPSDataField::Theta
        } else if i == 31 {
            SPSDataField::Cebra0Energy
        } else if i == 32 {
            SPSDataField::Cebra1Energy
        } else if i == 33 {
            SPSDataField::Cebra2Energy
        } else if i == 34 {
            SPSDataField::Cebra3Energy
        } else if i == 35 {
            SPSDataField::Cebra4Energy
        } else if i == 36 {
            SPSDataField::Cebra5Energy
        } else if i == 37 {
            SPSDataField::Cebra6Energy
        } else if i == 38 {
            SPSDataField::Cebra0Short
        } else if i == 39 {
            SPSDataField::Cebra1Short
        } else if i == 40 {
            SPSDataField::Cebra2Short
        } else if i == 41 {
            SPSDataField::Cebra3Short
        } else if i == 42 {
            SPSDataField::Cebra4Short
        } else if i == 43 {
            SPSDataField::Cebra5Short
        } else if i == 44 {
            SPSDataField::Cebra6Short
        } else if i == 45 {
            SPSDataField::Cebra0Time
        } else if i == 46 {
            SPSDataField::Cebra1Time
        } else if i == 47 {
            SPSDataField::Cebra2Time
        } else if i == 48 {
            SPSDataField::Cebra3Time
        } else if i == 49 {
            SPSDataField::Cebra4Time
        } else if i == 50 {
            SPSDataField::Cebra5Time
        } else {
            SPSDataField::Cebra6Time
        }
    }

    /// The complete, fixed, ordered list of schema fields; the order is the
    /// schema's total order and never changes within or across runs.
    pub fn get_field_vec() -> (v: Vec<SPSDataField>)
        ensures
            v@.len() == NUM_FIELDS,
            forall |i: int| 0 <= i < NUM_FIELDS ==> #[trigger] v@[i] == SPSDataField::field_at(i),
    {
        let mut v: Vec<SPSDataField> = Vec::new();
        let mut i: usize = 0;
        while i < NUM_FIELDS
            invariant
                i <= NUM_FIELDS,
                v@.len() == i,
                forall |j: int| 0 <= j < i ==> #[trigger] v@[j] == SPSDataField::field_at(j),
            decreases NUM_FIELDS - i,
        {
            v.push(SPSDataField::from_index(i));
            i = i + 1;
        }
        v
    }
}

/// Every field stands at the position its index gives, so indices below
/// `NUM_FIELDS` enumerate the schema exactly once.
pub proof fn lemma_field_index()
    ensures
        forall |f: SPSDataField| 0 <= #[trigger] f.index_spec() < NUM_FIELDS,
        forall |f: SPSDataField| SPSDataField::field_at(#[trigger] f.index_spec()) == f,
        forall |i: int| 0 <= i < NUM_FIELDS ==> #[trigger] SPSDataField::field_at(i).index_spec() == i,
{
}

} // verus!
