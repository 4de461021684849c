//! Register-level driver core for the SD/eMMC host controller of the RK3568.
//!
//! The crate has two layers. [`sdhci_reg::Reg`] names every register of the
//! controller and every field in it, and turns each named operation into
//! loads and stores of the right width at the right address.
//! [`sdhci::SDHCI`] strings those operations into the bring-up sequence and
//! into the issue of a single command.
//!
//! The hardware is reached through small traits ([`mmio::Mmio`],
//! [`sdhci::ClockTree`], [`sdhci::Delay`], [`sdhci::Diagnostics`]) that carry
//! no promise about what the hardware answers. What is proved is what the
//! driver does: each handle keeps a ghost record of the accesses it has
//! issued, and every contract states exactly which accesses a call adds to
//! it, whatever values the hardware gave back. Where the part behind a trait
//! keeps a record of its own, the handle's record is tied to it: what a
//! contract says was issued, the part has seen.
//!
//! [`sim`] holds a model of a register window and a simulated window that
//! follows it, to run the driver without the hardware; [`bits`] holds the
//! arithmetic of bit fields.
pub mod bits;
pub mod mmio;
pub mod sdhci;
pub mod sdhci_cmd;
pub mod sdhci_reg;
pub mod sim;
