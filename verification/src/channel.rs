use vstd::prelude::*;

verus! {

/// Physics role of a digitizer channel: which detector element it reads out.
/// A hit is routed to the column trio of its role; channels whose identity
/// resolves to no role are skipped.
#[derive(Clone, Copy, Debug, PartialEq, Eq, Structural)]
pub enum SPSChannelType {
    AnodeFront,
    AnodeBack,
    ScintLeft,
    ScintRight,
    Cathode,
    DelayFrontLeft,
    DelayFrontRight,
    DelayBackLeft,
    DelayBackRight,
    Cebra0,
    Cebra1,
    Cebra2,
    Cebra3,
    Cebra4,
    Cebra5,
    Cebra6,
}

/// One digitizer reading within an event. The energy, short-gate energy and
/// timestamp are carried as the bit patterns of IEEE-754 doubles.
#[derive(Clone, Copy, Debug, PartialEq, Eq, Structural)]
pub struct Hit {
    pub uuid: u64,
    pub energy: u64,
    pub energy_short: u64,
    pub timestamp: u64,
}

/// One row of the channel-identity-to-role table.
#[derive(Clone, Copy, Debug, PartialEq, Eq, Structural)]
pub struct ChannelEntry {
    pub uuid: u64,
    pub channel_type: SPSChannelType,
}

/// The channel-identity-to-role table, queried once per hit and never
/// mutated. The first entry carrying an identity decides its role.
#[derive(Clone, Debug)]
pub struct ChannelMap {
    pub entries: Vec<ChannelEntry>,
}

/// Role of an identity under a table: the first entry with that identity,
/// front to back.
pub open spec fn lookup_in(entries: Seq<ChannelEntry>, uuid: u64) -> Option<SPSChannelType>
    decreases entries.len(),
{
    if entries.len() == 0 {
        None
    } else if entries[0].uuid == uuid {
        Some(entries[0].channel_type)
    } else {
        lookup_in(entries.drop_first(), uuid)
    }
}

impl ChannelMap {
    pub open spec fn lookup_spec(self, uuid: u64) -> Option<SPSChannelType> {
        lookup_in(self.entries@, uuid)
    }

    /// Resolve a channel identity to its role, if the table has one for it.
    pub fn lookup(&self, uuid: u64) -> (r: Option<SPSChannelType>)
        ensures
            r == self.lookup_spec(uuid),
    {
        let mut i: usize = 0;
        proof {
            assert(self.entries@.skip(0) =~= self.entries@);
        }
        while i < self.entries.len()
            invariant
                i <= self.entries@.len(),
                lookup_in(self.entries@, uuid) == lookup_in(self.entries@.skip(i as int), uuid),
            decreases self.entries@.len() - i,
        {
            let e = self.entries[i];
            proof {
                assert(self.entries@.skip(i as int)[0] == self.entries@[i as int]);
                assert(self.entries@.skip(i as int).drop_first() =~= self.entries@.skip(
                    i as int + 1,
                ));
            }
            if e.uuid == uuid {
                return Some(e.channel_type);
            }
            i = i + 1;
        }
        proof {
            assert(self.entries@.skip(self.entries@.len() as int).len() == 0);
        }
        None
    }
}

} // verus!
