//! Landing gear control and interface units (LGCIU) of an Airbus aircraft:
//! weight on wheels, the gear extension and retraction cycle, lever locking,
//! fault monitoring and the master/slave changeover between the two units.
pub mod gear_state;
pub mod landing_gear;
pub mod sensors;
pub mod shared;
pub mod lgciu;
pub mod coordinator;
pub mod lgciu_set;
