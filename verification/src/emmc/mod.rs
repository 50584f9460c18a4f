//! Card bookkeeping of the eMMC host controller.
pub mod aux;
pub mod block;
pub mod bringup;
pub mod card;
pub mod clock;
pub mod config;
pub mod csd;
pub mod err;
pub mod freq;
pub mod host;
pub mod init;
pub mod partition;
pub mod pio;
pub mod sdhci;
pub mod speed;
