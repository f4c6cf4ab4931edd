use vstd::prelude::*;

verus! {

/// What the USB interrupt handler decides to do on one invocation.
#[derive(Clone, Copy, PartialEq, Eq, Structural, Debug)]
pub enum IrqAction {
    /// Both singletons are present: drive the device's protocol-servicing
    /// step, handing it the HID class.
    PollDevice,
    /// At least one singleton is absent: do nothing. A defensive no-op, not
    /// an error.
    NoOp,
}

/// Whether the report-push path may proceed.
#[derive(Clone, Copy, PartialEq, Eq, Structural, Debug)]
pub enum PushGate {
    /// The HID class is present: hand it the report.
    Deliver,
    /// The HID class was never installed: the producer must fail loudly,
    /// since it only runs after bring-up.
    NotInitialized,
}

/// The peripheral singleton store: one guarded container for the bus
/// allocator, the HID class and the USB device, shared by the foreground
/// loop and the interrupt handler.
///
/// Each slot is written exactly once, at boot, and the interrupt line is
/// armed only afterwards: `wf` says that an armed store is fully populated,
/// so the interrupt handler never observes a partially initialized store.
/// On hardware, every access to the populated slots must additionally sit
/// inside a critical section that masks the interrupt, since both contexts
/// call mutating methods on the same objects; that discipline belongs to the
/// surrounding program.
pub struct Peripherals<B, H, D> {
    pub bus: Option<B>,
    pub hid: Option<H>,
    pub device: Option<D>,
    pub armed: bool,
}

impl<B, H, D> Peripherals<B, H, D> {
    /// Bring-up is complete: all three singletons are installed.
    pub open spec fn ready(self) -> bool {
        self.bus is Some && self.hid is Some && self.device is Some
    }

    /// The interrupt line is only ever armed once the store is fully
    /// populated.
    pub open spec fn wf(self) -> bool {
        self.armed ==> self.ready()
    }

    /// What the interrupt handler does on a store in this state.
    pub open spec fn irq_action_spec(self) -> IrqAction {
        if self.hid is Some && self.device is Some {
            IrqAction::PollDevice
        } else {
            IrqAction::NoOp
        }
    }

    /// The empty store that exists before bring-up.
    pub fn new() -> (s: Self)
        ensures
            s.bus is None,
            s.hid is None,
            s.device is None,
            !s.armed,
            s.wf(),
    {
        Peripherals { bus: None, hid: None, device: None, armed: false }
    }

    /// Bring-up step: store the bus allocator, which from here on owns the
    /// transceiver abstraction. Runs once, before the class and device are
    /// constructed over it and before the interrupt line is armed.
    pub fn install_bus(&mut self, bus: B)
        requires
            old(self).bus is None,
            !old(self).armed,
        ensures
            final(self).bus == Some(bus),
            final(self).hid == old(self).hid,
            final(self).device == old(self).device,
            !final(self).armed,
            final(self).wf(),
    {
        self.bus = Some(bus);
    }

    /// Bring-up step: store the HID class and the USB device together, as
    /// one unit. Both are constructed over the stored bus allocator, so the
    /// bus must already be installed; the interrupt line must not be armed
    /// yet, since arming first would be a use-before-initialization hazard.
    pub fn install_class_and_device(&mut self, hid: H, device: D)
        requires
            old(self).bus is Some,
            old(self).hid is None,
            old(self).device is None,
            !old(self).armed,
        ensures
            final(self).bus == old(self).bus,
            final(self).hid == Some(hid),
            final(self).device == Some(device),
            !final(self).armed,
            final(self).ready(),
            final(self).wf(),
    {
        self.hid = Some(hid);
        self.device = Some(device);
    }

    /// Bring-up step: unmask the USB hardware interrupt. Storage strictly
    /// precedes unmasking: this demands a fully populated store, so the
    /// handler can never fire on a partially initialized one.
    pub fn arm_interrupts(&mut self)
        requires
            old(self).ready(),
            !old(self).armed,
        ensures
            final(self).bus == old(self).bus,
            final(self).hid == old(self).hid,
            final(self).device == old(self).device,
            final(self).armed,
            final(self).wf(),
    {
        self.armed = true;
    }

    /// The interrupt handler's decision: poll the device only if both the
    /// device and the HID class are present, otherwise do nothing.
    pub fn poll_action(&self) -> (a: IrqAction)
        ensures
            a == self.irq_action_spec(),
    {
        match (&self.device, &self.hid) {
            (Some(_), Some(_)) => IrqAction::PollDevice,
            _ => IrqAction::NoOp,
        }
    }

    /// The producer's guard before pushing a report: deliver if the HID
    /// class is present, otherwise report the store as uninitialized.
    pub fn push_gate(&self) -> (g: PushGate)
        ensures
            (g == PushGate::Deliver) <==> self.hid is Some,
    {
        match &self.hid {
            Some(_) => PushGate::Deliver,
            None => PushGate::NotInitialized,
        }
    }
}

/// Law: an interrupt that fires before bring-up completes observes an
/// absent singleton and performs no operation.
pub proof fn lemma_interrupt_before_bringup<B, H, D>(s: Peripherals<B, H, D>)
    requires
        s.hid is None || s.device is None,
    ensures
        s.irq_action_spec() == IrqAction::NoOp,
{
}

/// Law: once the interrupt line is armed, the handler always finds the
/// store fully populated and polls the device — it never sees the store
/// half-built.
pub proof fn lemma_armed_interrupt_polls<B, H, D>(s: Peripherals<B, H, D>)
    requires
        s.wf(),
        s.armed,
    ensures
        s.irq_action_spec() == IrqAction::PollDevice,
{
}

} // verus!
