use coop_kernel::banked::{mode_get_lr_sp, mode_set_lr_sp, mode_switch, BankedRegs};
use coop_kernel::cs::Cs;
use coop_kernel::psr::{Mode, PSR};

#[test]
fn mode_field_round_trip() {
    let modes = [
        (Mode::User, 0x10),
        (Mode::FIQ, 0x11),
        (Mode::IRQ, 0x12),
        (Mode::Supervisor, 0x13),
        (Mode::Abort, 0x17),
        (Mode::Undefined, 0x1b),
        (Mode::System, 0x1f),
    ];
    for (m, v) in modes {
        assert_eq!(m.bits(), v);
        assert_eq!(Mode::from_bits(v), Some(m));
    }
    assert_eq!(Mode::from_bits(0x14), None);
    assert_eq!(Mode::from_bits(0), None);
}

#[test]
fn status_fields() {
    let p = PSR(0x6000_00d3);
    assert_eq!(p.mode(), Some(Mode::Supervisor));
    assert!(p.irq_disable());
    assert!(p.fiq_disable());
    assert!(!p.thumb());
    assert!(p.zero());
    assert!(p.carry());
    assert!(!p.negative());
    assert!(!p.overflow());
    let u = p.with_mode(Mode::User);
    assert_eq!(u.0, 0x6000_00d0);
    assert_eq!(u.mode(), Some(Mode::User));
    assert_eq!(PSR(0x14).mode(), None);
    assert_eq!(PSR(0x10).with_irq_disable(true).0, 0x90);
    assert_eq!(PSR(0xd0).with_irq_disable(false).0, 0x50);
    assert_eq!(PSR(0x10).with_fiq_disable(true).0, 0x50);
    assert_eq!(PSR(0x30).with_thumb(false).0, 0x10);
}

#[test]
fn critical_section_masks_and_restores() {
    let (inside, token) = Cs::acquire(PSR(0x6000_0010));
    assert_eq!(inside.0, 0x6000_00d0);
    assert!(inside.irq_disable() && inside.fiq_disable());
    assert_eq!(token, 0x6000_0010);
    assert_eq!(Cs::release(token).0, 0x6000_0010);
}

#[test]
fn critical_section_nesting_restores_outermost() {
    let start = PSR(0x0000_0053);
    let mut cpsr = start;
    let mut tokens = Vec::new();
    for _ in 0..5 {
        let (next, token) = Cs::acquire(cpsr);
        tokens.push(token);
        cpsr = next;
        assert!(cpsr.irq_disable() && cpsr.fiq_disable());
    }
    while let Some(token) = tokens.pop() {
        cpsr = Cs::release(token);
    }
    assert_eq!(cpsr, start);
    assert!(!cpsr.irq_disable());
    assert!(cpsr.fiq_disable());
}

#[test]
fn banked_pairs() {
    let r = mode_get_lr_sp([0x8000, 0x1234]);
    assert_eq!(r.sp, 0x8000);
    assert_eq!(r.lr, 0x1234);
    assert_eq!(mode_set_lr_sp(BankedRegs::new(0x1234, 0x8000)), [0x8000, 0x1234]);
    let b = BankedRegs::new(7, 9);
    assert_eq!(b.set(), [9, 7]);
    assert_eq!(BankedRegs::get(b.set()), b);
}

#[test]
fn scoped_mode_switch_restores() {
    let s = mode_switch(0x6000_00d3, Mode::IRQ);
    assert_eq!(s.enter, 0x6000_0012);
    assert_eq!(s.restore, 0x6000_00d3);
}
