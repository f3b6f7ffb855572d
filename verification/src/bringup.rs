//! The bring-up sequencer.
//!
//! Bring-up turns the unconfigured peripheral set into the composite device
//! handle. The hardware actions themselves (register writes, bus claims) are
//! performed by platform code; what this module owns is the order, which is
//! where the design decisions live: the watchdogs are disarmed before any
//! bus is configured, and the backlight is driven low before the display is
//! touched and high only once the display is initialized and oriented.
//!
//! `bring_up_order` is the fixed sequence; `BringUpSequencer` hands the
//! steps out one at a time to the platform loop that executes them. The
//! ordering invariants are proved of the sequence itself.

use vstd::prelude::*;
use vstd::assert_seqs_equal;

verus! {

/// Baud rate of the diagnostic serial bus, in hertz.
pub const SERIAL_BAUD_HZ: u32 = 115200;

/// Data bits per serial frame.
pub const SERIAL_DATA_BITS: u8 = 8;

/// Stop bits per serial frame.
pub const SERIAL_STOP_BITS: u8 = 1;

/// Clock frequency of the display bus, in hertz.
pub const SPI_FREQUENCY_HZ: u32 = 80_000_000;

/// Data mode of the display bus: clock polarity and phase both zero.
pub const SPI_MODE: u8 = 0;

/// Clock frequency of the power-management bus, in hertz.
pub const I2C_FREQUENCY_HZ: u32 = 400_000;

/// Horizontal resolution of the panel, in pixels.
pub const DISPLAY_WIDTH: u16 = 240;

/// Vertical resolution of the panel, in pixels.
pub const DISPLAY_HEIGHT: u16 = 320;

/// One step of the bring-up sequence, at the granularity at which ordering
/// matters. Platform code performs each step's hardware action; every
/// fallible step is fatal, so a step is only ever followed by its successor.
#[derive(Clone, Copy, Debug, PartialEq, Eq, Structural)]
pub enum BringUpStep {
    /// Split the peripheral-ownership token into disjoint sub-domains.
    SplitPeripherals,
    /// Configure the system clock from the auto-detected crystal frequency
    /// and freeze it into an immutable descriptor.
    ConfigureClock,
    /// Disarm the watchdog that came with the frozen clock configuration.
    DisarmClockWatchdog,
    /// Disarm the watchdog of the first general-purpose timer block.
    DisarmTimer0Watchdog,
    /// Disarm the watchdog of the second general-purpose timer block.
    DisarmTimer1Watchdog,
    /// Claim the pin domain and partition the pins by role.
    ClaimPins,
    /// Configure the diagnostic serial bus; its result is discarded by
    /// design.
    ConfigureSerial,
    /// Drive the backlight pin low so no uninitialized frame is visible.
    BacklightOff,
    /// Construct the display bus driver over its three role pins.
    ConfigureSpi,
    /// Construct the power-management bus driver over its two role pins.
    ConfigureI2c,
    /// Construct the power-management-unit driver and run its hardware
    /// initialization; this precedes every other access to the unit.
    InitPmu,
    /// Wrap the display bus and the data/command pin into the command
    /// interface, with an inert pin standing in for the tied-active line.
    BuildDisplayInterface,
    /// Construct the display driver at the panel's native resolution.
    InitDisplay,
    /// Set the display orientation to portrait, before any drawing.
    SetOrientation,
    /// Drive the backlight pin high: the panel now shows only initialized
    /// content.
    BacklightOn,
    /// Aggregate the display driver and the power-management-unit driver
    /// into the device handle.
    AssembleHandle,
}

/// The fixed order of the bring-up steps.
pub open spec fn bring_up_order() -> Seq<BringUpStep> {
    seq![
        BringUpStep::SplitPeripherals,
        BringUpStep::ConfigureClock,
        BringUpStep::DisarmClockWatchdog,
        BringUpStep::DisarmTimer0Watchdog,
        BringUpStep::DisarmTimer1Watchdog,
        BringUpStep::ClaimPins,
        BringUpStep::ConfigureSerial,
        BringUpStep::BacklightOff,
        BringUpStep::ConfigureSpi,
        BringUpStep::ConfigureI2c,
        BringUpStep::InitPmu,
        BringUpStep::BuildDisplayInterface,
        BringUpStep::InitDisplay,
        BringUpStep::SetOrientation,
        BringUpStep::BacklightOn,
        BringUpStep::AssembleHandle,
    ]
}

/// Whether a step disarms one of the hardware watchdogs.
pub open spec fn is_watchdog_disarm(step: BringUpStep) -> bool {
    ||| step == BringUpStep::DisarmClockWatchdog
    ||| step == BringUpStep::DisarmTimer0Watchdog
    ||| step == BringUpStep::DisarmTimer1Watchdog
}

/// Whether a step configures one of the buses (serial, display, or
/// power-management).
pub open spec fn is_bus_configuration(step: BringUpStep) -> bool {
    ||| step == BringUpStep::ConfigureSerial
    ||| step == BringUpStep::ConfigureSpi
    ||| step == BringUpStep::ConfigureI2c
}

/// The bring-up steps, in the order platform code must perform them.
pub fn bring_up_plan() -> (steps: Vec<BringUpStep>)
    ensures
        steps@ == bring_up_order(),
{
    let mut steps: Vec<BringUpStep> = Vec::new();
    steps.push(BringUpStep::SplitPeripherals);
    steps.push(BringUpStep::ConfigureClock);
    steps.push(BringUpStep::DisarmClockWatchdog);
    steps.push(BringUpStep::DisarmTimer0Watchdog);
    steps.push(BringUpStep::DisarmTimer1Watchdog);
    steps.push(BringUpStep::ClaimPins);
    steps.push(BringUpStep::ConfigureSerial);
    steps.push(BringUpStep::BacklightOff);
    steps.push(BringUpStep::ConfigureSpi);
    steps.push(BringUpStep::ConfigureI2c);
    steps.push(BringUpStep::InitPmu);
    steps.push(BringUpStep::BuildDisplayInterface);
    steps.push(BringUpStep::InitDisplay);
    steps.push(BringUpStep::SetOrientation);
    steps.push(BringUpStep::BacklightOn);
    steps.push(BringUpStep::AssembleHandle);
    proof {
        assert_seqs_equal!(steps@ == bring_up_order());
    }
    steps
}

/// Every watchdog disarm happens strictly before any bus configuration,
/// and the sequence does contain the disarms and the bus configurations.
pub proof fn lemma_watchdogs_disarmed_before_buses(i: int, j: int)
    requires
        0 <= i < bring_up_order().len(),
        0 <= j < bring_up_order().len(),
        is_watchdog_disarm(bring_up_order()[i]),
        is_bus_configuration(bring_up_order()[j]),
    ensures
        i < j,
        bring_up_order().contains(BringUpStep::DisarmClockWatchdog),
        bring_up_order().contains(BringUpStep::DisarmTimer0Watchdog),
        bring_up_order().contains(BringUpStep::DisarmTimer1Watchdog),
        bring_up_order().contains(BringUpStep::ConfigureSerial),
        bring_up_order().contains(BringUpStep::ConfigureSpi),
        bring_up_order().contains(BringUpStep::ConfigureI2c),
{
    assert(is_watchdog_disarm(bring_up_order()[i]) ==> i <= 4);
    assert(is_bus_configuration(bring_up_order()[j]) ==> j >= 6);
    assert(bring_up_order()[2] == BringUpStep::DisarmClockWatchdog);
    assert(bring_up_order()[3] == BringUpStep::DisarmTimer0Watchdog);
    assert(bring_up_order()[4] == BringUpStep::DisarmTimer1Watchdog);
    assert(bring_up_order()[6] == BringUpStep::ConfigureSerial);
    assert(bring_up_order()[8] == BringUpStep::ConfigureSpi);
    assert(bring_up_order()[9] == BringUpStep::ConfigureI2c);
}

/// The backlight is driven low strictly before the display orientation is
/// set, and driven high strictly after; each of the three steps occurs in
/// the sequence.
pub proof fn lemma_backlight_brackets_display_setup(i: int, j: int, k: int)
    requires
        0 <= i < bring_up_order().len(),
        0 <= j < bring_up_order().len(),
        0 <= k < bring_up_order().len(),
        bring_up_order()[i] == BringUpStep::BacklightOff,
        bring_up_order()[j] == BringUpStep::SetOrientation,
        bring_up_order()[k] == BringUpStep::BacklightOn,
    ensures
        i < j < k,
        bring_up_order().contains(BringUpStep::BacklightOff),
        bring_up_order().contains(BringUpStep::SetOrientation),
        bring_up_order().contains(BringUpStep::BacklightOn),
{
    assert(bring_up_order()[7] == BringUpStep::BacklightOff);
    assert(bring_up_order()[13] == BringUpStep::SetOrientation);
    assert(bring_up_order()[14] == BringUpStep::BacklightOn);
}

/// Hands the bring-up steps out one at a time, in the fixed order. Platform
/// code drives it in a loop: perform the step's hardware action, then ask
/// for the next step; a `None` means bring-up is complete.
pub struct BringUpSequencer {
    next: usize,
}

impl BringUpSequencer {
    /// How many steps the sequencer has already handed out.
    pub closed spec fn emitted(self) -> int {
        self.next as int
    }

    /// The sequencer hands out steps as long as some remain.
    pub closed spec fn well_formed(self) -> bool {
        self.next <= bring_up_order().len()
    }

    /// A fresh sequencer, with the whole sequence still to hand out.
    pub fn new() -> (s: Self)
        ensures
            s.well_formed(),
            s.emitted() == 0,
    {
        BringUpSequencer { next: 0 }
    }

    /// The next step to perform, or `None` once the sequence is complete.
    pub fn advance(&mut self) -> (step: Option<BringUpStep>)
        requires
            old(self).well_formed(),
        ensures
            final(self).well_formed(),
            old(self).emitted() < bring_up_order().len() ==> {
                &&& step == Some(bring_up_order()[old(self).emitted()])
                &&& final(self).emitted() == old(self).emitted() + 1
            },
            old(self).emitted() == bring_up_order().len() ==> {
                &&& step is None
                &&& final(self).emitted() == old(self).emitted()
            },
    {
        let plan = bring_up_plan();
        if self.next < plan.len() {
            let step = plan[self.next];
            self.next = self.next + 1;
            Some(step)
        } else {
            None
        }
    }
}

} // verus!
