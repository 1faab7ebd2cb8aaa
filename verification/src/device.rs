//! Handles on Zephyr devices (ADC, CAN, LED strip, sensor, SPI).
//!
//! A handle holds the address of the driver's `struct device`; the driver calls made
//! through it live with the caller. What the library decides is who gets a handle: each
//! devicetree instance comes with a one-shot [`Unique`] claim, and only its first claim
//! yields a handle.
use vstd::prelude::*;

verus! {

/// The one-shot claim that guards a devicetree device instance.
pub struct Unique {
    claimed: bool,
}

impl View for Unique {
    type V = bool;

    /// Whether the claim has been used.
    closed spec fn view(&self) -> bool {
        self.claimed
    }
}

impl Unique {
    /// A claim not used yet.
    pub fn new() -> (u: Unique)
        ensures
            u@ == false,
    {
        Unique { claimed: false }
    }

    /// Uses the claim: true the first time, false ever after.
    pub fn once(&mut self) -> (first: bool)
        ensures
            first == !old(self)@,
            final(self)@ == true,
    {
        let first = !self.claimed;
        self.claimed = true;
        first
    }
}

/// Claiming a device instance whose claim is in state `claimed`: the claim afterwards, and
/// the device address of the handle made, if any.
pub open spec fn claim_device(claimed: bool, device: usize) -> (bool, Option<usize>) {
    (true, if claimed { None } else { Some(device) })
}

/// A claim yields at most one handle: once a handle was made through it, every later
/// claim of any device through the same claim yields none.
pub proof fn lemma_claim_once(claimed: bool, first: usize, second: usize)
    ensures
        claim_device(claim_device(claimed, first).0, second).1 == None::<usize>,
        claim_device(false, first).1 == Some(first),
{
}

/// Handle on an ADC controller.
pub struct Adc {
    device: usize,
}

impl Adc {
    /// Address of the driver's `struct device`.
    pub closed spec fn address(&self) -> usize {
        self.device
    }

    /// Makes the handle for the devicetree instance at `device`, guarded by its claim:
    /// a handle the first time, `None` once the claim is used.
    pub fn new(unique: &mut Unique, device: usize) -> (h: Option<Adc>)
        ensures
            final(unique)@ == claim_device(old(unique)@, device).0,
            h matches Some(d) ==> claim_device(old(unique)@, device).1 == Some(d.address()),
            h is None ==> claim_device(old(unique)@, device).1 == None::<usize>,
    {
        if !unique.once() {
            return None;
        }
        Some(Adc { device })
    }

    /// Address of the driver's `struct device`, for the driver calls.
    pub fn device(&self) -> (d: usize)
        ensures
            d == self.address(),
    {
        self.device
    }
}

/// Handle on a CAN controller.
pub struct Can {
    device: usize,
}

impl Can {
    /// Address of the driver's `struct device`.
    pub closed spec fn address(&self) -> usize {
        self.device
    }

    /// Makes the handle for the devicetree instance at `device`, guarded by its claim:
    /// a handle the first time, `None` once the claim is used.
    pub fn new(unique: &mut Unique, device: usize) -> (h: Option<Can>)
        ensures
            final(unique)@ == claim_device(old(unique)@, device).0,
            h matches Some(d) ==> claim_device(old(unique)@, device).1 == Some(d.address()),
            h is None ==> claim_device(old(unique)@, device).1 == None::<usize>,
    {
        if !unique.once() {
            return None;
        }
        Some(Can { device })
    }

    /// Address of the driver's `struct device`, for the driver calls.
    pub fn device(&self) -> (d: usize)
        ensures
            d == self.address(),
    {
        self.device
    }
}

/// Handle on a WS2812-style LED strip (`led_strip` subsystem).
pub struct LedStrip {
    device: usize,
}

impl LedStrip {
    /// Address of the driver's `struct device`.
    pub closed spec fn address(&self) -> usize {
        self.device
    }

    /// Makes the handle for the devicetree instance at `device`, guarded by its claim:
    /// a handle the first time, `None` once the claim is used.
    pub fn new(unique: &mut Unique, device: usize) -> (h: Option<LedStrip>)
        ensures
            final(unique)@ == claim_device(old(unique)@, device).0,
            h matches Some(d) ==> claim_device(old(unique)@, device).1 == Some(d.address()),
            h is None ==> claim_device(old(unique)@, device).1 == None::<usize>,
    {
        if !unique.once() {
            return None;
        }
        Some(LedStrip { device })
    }

    /// Makes a handle from a device address without using the instance's claim, so it
    /// can be made again and again (as for on-demand self-tests).
    pub fn from_device(device: usize) -> (h: LedStrip)
        ensures
            h.address() == device,
    {
        LedStrip { device }
    }

    /// Address of the driver's `struct device`, for the driver calls.
    pub fn device(&self) -> (d: usize)
        ensures
            d == self.address(),
    {
        self.device
    }
}

/// Handle on a device of the `sensor` subsystem.
pub struct Sensor {
    device: usize,
}

impl Sensor {
    /// Address of the driver's `struct device`.
    pub closed spec fn address(&self) -> usize {
        self.device
    }

    /// Makes the handle for the devicetree instance at `device`, guarded by its claim:
    /// a handle the first time, `None` once the claim is used.
    pub fn new(unique: &mut Unique, device: usize) -> (h: Option<Sensor>)
        ensures
            final(unique)@ == claim_device(old(unique)@, device).0,
            h matches Some(d) ==> claim_device(old(unique)@, device).1 == Some(d.address()),
            h is None ==> claim_device(old(unique)@, device).1 == None::<usize>,
    {
        if !unique.once() {
            return None;
        }
        Some(Sensor { device })
    }

    /// Makes a handle from a device address without using the instance's claim, so it
    /// can be made again and again (as for on-demand self-tests).
    pub fn from_device(device: usize) -> (h: Sensor)
        ensures
            h.address() == device,
    {
        Sensor { device }
    }

    /// Address of the driver's `struct device`, for the driver calls.
    pub fn device(&self) -> (d: usize)
        ensures
            d == self.address(),
    {
        self.device
    }
}

/// Handle on an SPI controller; peripherals on the bus are addressed by the
/// `slave`/`cs` fields of the `spi_config` of each transfer.
pub struct Spi {
    device: usize,
}

impl Spi {
    /// Address of the driver's `struct device`.
    pub closed spec fn address(&self) -> usize {
        self.device
    }

    /// Makes the handle for the devicetree instance at `device`, guarded by its claim:
    /// a handle the first time, `None` once the claim is used.
    pub fn new(unique: &mut Unique, device: usize) -> (h: Option<Spi>)
        ensures
            final(unique)@ == claim_device(old(unique)@, device).0,
            h matches Some(d) ==> claim_device(old(unique)@, device).1 == Some(d.address()),
            h is None ==> claim_device(old(unique)@, device).1 == None::<usize>,
    {
        if !unique.once() {
            return None;
        }
        Some(Spi { device })
    }

    /// Makes a handle from a device address without using the instance's claim, so it
    /// can be made again and again (as for on-demand self-tests).
    pub fn from_device(device: usize) -> (h: Spi)
        ensures
            h.address() == device,
    {
        Spi { device }
    }

    /// Address of the driver's `struct device`, for the driver calls.
    pub fn device(&self) -> (d: usize)
        ensures
            d == self.address(),
    {
        self.device
    }
}

} // verus!
