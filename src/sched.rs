//! Interrupt-bound and periodic tasks over the shared resources, with
//! priority-ceiling locking.
use vstd::prelude::*;
use crate::transport::{
    bridge, poll_nfc, poll_usb, service, Apps, AppsModel, Iso14443, TransportModel, UsbClasses,
};

verus! {

/// Interval after which a periodic task resubmits itself, in milliseconds.
pub const REFRESH_MILLISECS: u64 = 50;

/// Static priority of the periodic tasks.
pub const PERIODIC_PRIORITY: u8 = 1;

/// Static priority of the tasks bound to interrupt lines.
pub const INTERRUPT_PRIORITY: u8 = 2;

/// Ceiling of the shared resources: the highest priority of a task using them.
pub const RESOURCE_CEILING: u8 = 2;

/// Abstract state of the resources shared between tasks.
pub ghost struct SharedModel {
    pub apps: AppsModel,
    pub usb: Option<TransportModel>,
    pub nfc: Option<TransportModel>,
}

/// The resources shared between tasks once scheduling has started.
pub struct Shared {
    pub apps: Apps,
    pub usb: Option<UsbClasses>,
    pub nfc: Option<Iso14443>,
}

impl View for Shared {
    type V = SharedModel;

    open spec fn view(&self) -> SharedModel {
        SharedModel {
            apps: self.apps@,
            usb: match self.usb {
                Some(t) => Some(t@),
                None => None,
            },
            nfc: match self.nfc {
                Some(t) => Some(t@),
                None => None,
            },
        }
    }
}

/// Effect of the bridge on the USB class set, if there is one.
pub open spec fn usb_step(s: SharedModel) -> SharedModel {
    match s.usb {
        Some(t) => SharedModel {
            usb: Some(bridge(t, s.apps.usb).0),
            apps: AppsModel { usb: bridge(t, s.apps.usb).1, ..s.apps },
            ..s
        },
        None => s,
    }
}

/// Effect of the bridge on the NFC transceiver, if there is one.
pub open spec fn nfc_step(s: SharedModel) -> SharedModel {
    match s.nfc {
        Some(t) => SharedModel {
            nfc: Some(bridge(t, s.apps.nfc).0),
            apps: AppsModel { nfc: bridge(t, s.apps.nfc).1, ..s.apps },
            ..s
        },
        None => s,
    }
}

/// Effect of one periodic tick on the shared resources.
pub open spec fn tick_effect(s: SharedModel) -> SharedModel {
    nfc_step(usb_step(s))
}

pub open spec fn usb_irq_effect(s: SharedModel) -> SharedModel {
    match s.usb {
        Some(t) => SharedModel { usb: Some(service(t)), ..s },
        None => s,
    }
}

pub open spec fn nfc_irq_effect(s: SharedModel) -> SharedModel {
    match s.nfc {
        Some(t) => SharedModel { nfc: Some(service(t)), ..s },
        None => s,
    }
}

/// Outcome of a periodic task's resubmission.
#[derive(Clone, Copy, Debug, PartialEq, Eq, Structural)]
pub enum Tick {
    /// Next run at this time, in milliseconds.
    Scheduled(u64),
    /// The queue had no room, or the time would overflow: this tick is lost.
    Missed,
}

pub open spec fn spec_resubmit(now: u64, queue_has_room: bool) -> Tick {
    if queue_has_room && now as int + REFRESH_MILLISECS <= u64::MAX {
        Tick::Scheduled((now + REFRESH_MILLISECS) as u64)
    } else {
        Tick::Missed
    }
}

/// Schedules the next run one interval after `now`, the completion time of
/// this run.
pub fn resubmit(now: u64, queue_has_room: bool) -> (r: Tick)
    ensures
        r == spec_resubmit(now, queue_has_room),
{
    if queue_has_room && now <= u64::MAX - REFRESH_MILLISECS {
        Tick::Scheduled(now + REFRESH_MILLISECS)
    } else {
        Tick::Missed
    }
}

/// The processor's current interrupt-mask priority.
pub struct Cpu {
    pub mask: u8,
}

impl Cpu {
    /// Whether an interrupt of priority `p` may run now.
    pub fn preempts(&self, p: u8) -> (r: bool)
        ensures
            r == (p > self.mask),
    {
        p > self.mask
    }

    /// Takes the lock of a resource: raises the mask to its ceiling, if it is
    /// lower, and returns the mask to restore.
    pub fn lock(&mut self, ceiling: u8) -> (prev: u8)
        ensures
            prev == old(self).mask,
            final(self).mask == if old(self).mask < ceiling {
                ceiling
            } else {
                old(self).mask
            },
    {
        let prev = self.mask;
        if self.mask < ceiling {
            self.mask = ceiling;
        }
        prev
    }

    /// Releases a lock taken by `lock`.
    pub fn unlock(&mut self, prev: u8)
        ensures
            final(self).mask == prev,
    {
        self.mask = prev;
    }
}

fn bridge_all(shared: &mut Shared)
    ensures
        final(shared)@ == tick_effect(old(shared)@),
{
    if let Some(usb) = shared.usb.as_mut() {
        poll_usb(usb, &mut shared.apps);
    }
    if let Some(nfc) = shared.nfc.as_mut() {
        poll_nfc(nfc, &mut shared.apps);
    }
}

/// Periodic task: under the resources' lock, pumps each present transport
/// into the dispatcher, then resubmits itself.
pub fn refresh(shared: &mut Shared, cpu: &mut Cpu, now: u64, queue_has_room: bool) -> (r: Tick)
    ensures
        final(shared)@ == tick_effect(old(shared)@),
        final(cpu).mask == old(cpu).mask,
        r == spec_resubmit(now, queue_has_room),
{
    let prev = cpu.lock(RESOURCE_CEILING);
    bridge_all(shared);
    cpu.unlock(prev);
    resubmit(now, queue_has_room)
}

/// Periodic task spawned at boot: pumps both transports and resubmits
/// itself.
pub fn poll(shared: &mut Shared, cpu: &mut Cpu, now: u64, queue_has_room: bool) -> (r: Tick)
    ensures
        final(shared)@ == tick_effect(old(shared)@),
        final(cpu).mask == old(cpu).mask,
        r == spec_resubmit(now, queue_has_room),
{
    let prev = cpu.lock(RESOURCE_CEILING);
    bridge_all(shared);
    cpu.unlock(prev);
    resubmit(now, queue_has_room)
}

/// Interrupt task of the USB clock-request line: services the class set,
/// if there is one.
pub fn usb1_needclk(shared: &mut Shared)
    ensures
        final(shared)@ == usb_irq_effect(old(shared)@),
{
    if let Some(usb) = shared.usb.as_mut() {
        usb.poll();
    }
}

/// Interrupt task of the USB controller line: services the class set, if
/// there is one.
pub fn usb1(shared: &mut Shared)
    ensures
        final(shared)@ == usb_irq_effect(old(shared)@),
{
    if let Some(usb) = shared.usb.as_mut() {
        usb.poll();
    }
}

/// Interrupt task of the NFC pin line: services the transceiver, if there is
/// one.
pub fn pin_int0(shared: &mut Shared)
    ensures
        final(shared)@ == nfc_irq_effect(old(shared)@),
{
    if let Some(nfc) = shared.nfc.as_mut() {
        nfc.poll();
    }
}

/// Every task on an absent transport leaves the shared state untouched.
pub proof fn lemma_absent_transport_noop(s: SharedModel)
    ensures
        s.usb is None ==> usb_irq_effect(s) == s && usb_step(s) == s,
        s.nfc is None ==> nfc_irq_effect(s) == s && nfc_step(s) == s,
        s.usb is None && s.nfc is None ==> tick_effect(s) == s,
{
}

/// The interrupt lines that have a task bound to them.
#[derive(Clone, Copy, Debug, PartialEq, Eq, Structural)]
pub enum Interrupt {
    Usb1NeedClk,
    Usb1,
    PinInt0,
}

pub open spec fn interrupt_effect(irq: Interrupt, s: SharedModel) -> SharedModel {
    match irq {
        Interrupt::Usb1NeedClk => usb_irq_effect(s),
        Interrupt::Usb1 => usb_irq_effect(s),
        Interrupt::PinInt0 => nfc_irq_effect(s),
    }
}

/// Runs the task bound to `irq`.
pub fn dispatch(shared: &mut Shared, irq: Interrupt)
    ensures
        final(shared)@ == interrupt_effect(irq, old(shared)@),
{
    match irq {
        Interrupt::Usb1NeedClk => usb1_needclk(shared),
        Interrupt::Usb1 => usb1(shared),
        Interrupt::PinInt0 => pin_int0(shared),
    }
}

/// At a step boundary: runs a pending interrupt if it outranks the mask,
/// and returns whether it is still pending.
fn step_boundary(shared: &mut Shared, cpu: &Cpu, irq: Interrupt, pending: bool) -> (still: bool)
    ensures
        pending && INTERRUPT_PRIORITY > cpu.mask ==> !still && final(shared)@ == interrupt_effect(
            irq,
            old(shared)@,
        ),
        !(pending && INTERRUPT_PRIORITY > cpu.mask) ==> still == pending && final(shared)@ == old(
            shared,
        )@,
{
    if pending && cpu.preempts(INTERRUPT_PRIORITY) {
        dispatch(shared, irq);
        false
    } else {
        pending
    }
}

/// Runs `refresh` from the periodic priority while the line `irq` is raised
/// before step `fire_at` of its body (0: before the lock is taken; 1 to 3:
/// inside the critical section; later: after it). The scheduler runs the
/// interrupt task at the first step boundary where it outranks the mask.
/// The result is always one of the two serial orders, never a mix.
pub fn refresh_preempted(
    shared: &mut Shared,
    cpu: &mut Cpu,
    irq: Interrupt,
    fire_at: u8,
    now: u64,
    queue_has_room: bool,
) -> (r: Tick)
    requires
        old(cpu).mask == PERIODIC_PRIORITY,
    ensures
        fire_at == 0 ==> final(shared)@ == tick_effect(interrupt_effect(irq, old(shared)@)),
        fire_at > 0 ==> final(shared)@ == interrupt_effect(irq, tick_effect(old(shared)@)),
        final(cpu).mask == PERIODIC_PRIORITY,
        r == spec_resubmit(now, queue_has_room),
{
    let pending = step_boundary(shared, cpu, irq, fire_at == 0);
    let prev = cpu.lock(RESOURCE_CEILING);
    let pending = step_boundary(shared, cpu, irq, pending || fire_at == 1);
    if let Some(usb) = shared.usb.as_mut() {
        poll_usb(usb, &mut shared.apps);
    }
    let pending = step_boundary(shared, cpu, irq, pending || fire_at == 2);
    if let Some(nfc) = shared.nfc.as_mut() {
        poll_nfc(nfc, &mut shared.apps);
    }
    let pending = step_boundary(shared, cpu, irq, pending || fire_at == 3);
    cpu.unlock(prev);
    let _ = step_boundary(shared, cpu, irq, pending || fire_at > 3);
    resubmit(now, queue_has_room)
}

} // verus!
