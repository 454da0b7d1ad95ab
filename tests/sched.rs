use solo2_runtime::sched::{
    poll, refresh, refresh_preempted, resubmit, usb1, usb1_needclk, Cpu, Interrupt, Shared, Tick,
};
use solo2_runtime::transport::{poll_nfc, poll_usb, Apps, Transport};

fn device() -> Shared {
    Shared { apps: Apps::new(), usb: Some(Transport::new()), nfc: Some(Transport::new()) }
}

#[test]
fn resubmission_is_from_completion_time() {
    assert_eq!(resubmit(100, true), Tick::Scheduled(150));
    assert_eq!(resubmit(7, true), Tick::Scheduled(57));
    assert_eq!(resubmit(100, false), Tick::Missed);
    assert_eq!(resubmit(u64::MAX - 10, true), Tick::Missed);
    assert_eq!(resubmit(u64::MAX - 50, true), Tick::Scheduled(u64::MAX));
}

#[test]
fn usb_bytes_flow_to_dispatcher_and_back() {
    let mut s = device();
    let mut cpu = Cpu { mask: 1 };
    s.usb.as_mut().unwrap().deliver(1);
    s.usb.as_mut().unwrap().deliver(2);
    refresh(&mut s, &mut cpu, 0, true);
    assert_eq!(s.apps.usb.take_requests(), Vec::<u8>::new());
    usb1(&mut s);
    assert_eq!(refresh(&mut s, &mut cpu, 50, true), Tick::Scheduled(100));
    assert_eq!(cpu.mask, 1);
    assert_eq!(s.apps.usb.take_requests(), vec![1, 2]);
    s.apps.usb.reply(9);
    poll(&mut s, &mut cpu, 100, true);
    assert_eq!(s.usb.as_mut().unwrap().take_outgoing(), vec![9]);
    assert_eq!(s.apps.nfc.take_requests(), Vec::<u8>::new());
}

#[test]
fn nfc_bytes_flow_to_dispatcher() {
    let mut s = device();
    let nfc = s.nfc.as_mut().unwrap();
    nfc.deliver(7);
    nfc.poll();
    poll_nfc(nfc, &mut s.apps);
    assert_eq!(s.apps.nfc.take_requests(), vec![7]);
    assert_eq!(s.apps.usb.take_requests(), Vec::<u8>::new());
}

#[test]
fn needclk_line_services_usb() {
    let mut s = device();
    s.usb.as_mut().unwrap().deliver(3);
    usb1_needclk(&mut s);
    poll_usb(s.usb.as_mut().unwrap(), &mut s.apps);
    assert_eq!(s.apps.usb.take_requests(), vec![3]);
}

#[test]
fn polls_on_absent_transports_are_noops() {
    let mut s = Shared { apps: Apps::new(), usb: None, nfc: None };
    let mut cpu = Cpu { mask: 1 };
    s.apps.usb.reply(5);
    usb1(&mut s);
    usb1_needclk(&mut s);
    solo2_runtime::sched::pin_int0(&mut s);
    refresh(&mut s, &mut cpu, 0, true);
    poll(&mut s, &mut cpu, 0, true);
    assert!(s.usb.is_none());
    assert!(s.nfc.is_none());
    assert_eq!(s.apps.usb.take_requests(), Vec::<u8>::new());
    s.apps.usb.reply(6);
    let mut with_usb = Shared { apps: s.apps, usb: Some(Transport::new()), nfc: None };
    refresh(&mut with_usb, &mut cpu, 0, true);
    assert_eq!(with_usb.usb.as_mut().unwrap().take_outgoing(), vec![5, 6]);
}

#[test]
fn lock_raises_to_ceiling_and_restores() {
    let mut cpu = Cpu { mask: 1 };
    assert!(cpu.preempts(2));
    let prev = cpu.lock(2);
    assert_eq!(prev, 1);
    assert_eq!(cpu.mask, 2);
    assert!(!cpu.preempts(2));
    cpu.unlock(prev);
    assert_eq!(cpu.mask, 1);
    let mut high = Cpu { mask: 3 };
    assert_eq!(high.lock(2), 3);
    assert_eq!(high.mask, 3);
}

#[test]
fn interrupt_during_refresh_is_serialized() {
    for fire_at in 0..6u8 {
        let mut s = device();
        let mut cpu = Cpu { mask: 1 };
        s.usb.as_mut().unwrap().deliver(4);
        let t = refresh_preempted(&mut s, &mut cpu, Interrupt::Usb1, fire_at, 10, true);
        assert_eq!(t, Tick::Scheduled(60));
        assert_eq!(cpu.mask, 1);
        let reached = s.apps.usb.take_requests();
        if fire_at == 0 {
            // interrupt first, then the whole tick
            assert_eq!(reached, vec![4]);
        } else {
            // the whole tick first; the serviced byte waits for the next one
            assert_eq!(reached, Vec::<u8>::new());
            poll_usb(s.usb.as_mut().unwrap(), &mut s.apps);
            assert_eq!(s.apps.usb.take_requests(), vec![4]);
        }
    }
}

#[test]
fn nfc_interrupt_during_refresh_is_serialized() {
    let mut s = device();
    let mut cpu = Cpu { mask: 1 };
    s.nfc.as_mut().unwrap().deliver(8);
    refresh_preempted(&mut s, &mut cpu, Interrupt::PinInt0, 2, 0, false);
    assert_eq!(s.apps.nfc.take_requests(), Vec::<u8>::new());
    refresh_preempted(&mut s, &mut cpu, Interrupt::Usb1NeedClk, 0, 0, false);
    assert_eq!(s.apps.nfc.take_requests(), vec![8]);
}
