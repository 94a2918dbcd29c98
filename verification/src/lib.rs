//! Column-oriented event builder for a spectrograph's digitizer stream.
//!
//! Each physical trigger yields one unordered collection of per-channel hits;
//! the builder routes every hit to the columns of its channel role, derives
//! the focal-plane position estimates and scattering angle from the delay-line
//! timestamps, and keeps every column of the fixed schema the same length as
//! the number of events seen.
//!
//! Floating-point readings are carried as the `u64` bit patterns of IEEE-754
//! doubles, so the routing and bookkeeping logic can be verified while the
//! arithmetic itself runs in IEEE software arithmetic behind trusted wrappers.

pub mod channel;
pub mod fbits;
pub mod fields;
pub mod table;

pub use channel::ChannelEntry;
pub use channel::ChannelMap;
pub use channel::Hit;
pub use channel::SPSChannelType;
pub use fbits::SENTINEL_BITS;
pub use fields::SPSDataField;
pub use fields::NUM_FIELDS;
pub use table::SPSData;
pub use table::ThetaRequest;
