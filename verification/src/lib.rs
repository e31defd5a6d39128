//! The SkiBoot motion-sensing boot: the wire formats its sensor firmware and
//! its host viewer share over Bluetooth, and the decisions both of them make.
pub mod codec;
pub mod gps;
pub mod host;
pub mod imu;
pub mod imu_conf;
pub mod le;
pub mod loader;
pub mod status;
pub mod text;
pub mod uuids;
pub mod viewer;
