use psicasbi::frame::TrapFrame;
use psicasbi::sbi::base::{make_ver, machine_id_reply, probe_extension};
use psicasbi::sbi::firmware::xv6_k210::{console_puts, is_ext_reply, timer_reply, PutsCursor};
use psicasbi::csr::{CsrBit, CsrOp};
use psicasbi::sbi::legacy::{getchar_reply, ipi_targets, timer_irq_after_set, timer_irq_ops, unsupported_reply, TimerIrq};
use psicasbi::sbi::{
    apply_reply, handler, request_csr_ops, LegacyRequest, MachineIdCsr, SbiConfig, SbiRequest, SbiRet,
    ERR_FAILED, ERR_INVALID_PARAM, ERR_NOT_SUPPORTED, SUCCESS,
};

fn frame(a0: i64, a1: i64, a6: i64, a7: i64) -> TrapFrame {
    TrapFrame {
        ra: 1, sp: 2, gp: 3, tp: 4, t0: 5, t1: 6, t2: 7, s0: 8, s1: 9,
        a0, a1, a2: 12, a3: 13, a4: 14, a5: 15, a6, a7,
        s2: 18, s3: 19, s4: 20, s5: 21, s6: 22, s7: 23, s8: 24, s9: 25, s10: 26, s11: 27,
        t3: 28, t4: 29, t5: 30, t6: 31,
    }
}

fn cfg() -> SbiConfig {
    SbiConfig { spec_major: 0, spec_minor: 2, impl_id: 0x7, impl_major: 1, impl_minor: 3 }
}

#[test]
fn version_layout() {
    assert_eq!(make_ver(0, 2), 2);
    assert_eq!(make_ver(1, 3), 0x0100_0003);
    // out-of-range fields are cut to 7 and 24 bits
    assert_eq!(make_ver(0x81, 0x0100_0002), 0x0100_0002);
    assert_eq!(make_ver(0xff, 0xff_ffff), 0x7fff_ffff);
}

#[test]
fn base_extension_answers() {
    assert_eq!(handler(&frame(0, 0, 0, 0x10), &cfg()), SbiRequest::Reply(SbiRet(SUCCESS, 2)));
    assert_eq!(handler(&frame(0, 0, 1, 0x10), &cfg()), SbiRequest::Reply(SbiRet(SUCCESS, 7)));
    assert_eq!(handler(&frame(0, 0, 2, 0x10), &cfg()), SbiRequest::Reply(SbiRet(SUCCESS, 0x0100_0003)));
    assert_eq!(handler(&frame(0x10, 0, 3, 0x10), &cfg()), SbiRequest::Reply(SbiRet(SUCCESS, 0x10)));
    assert_eq!(handler(&frame(8, 0, 3, 0x10), &cfg()), SbiRequest::Reply(SbiRet(SUCCESS, 8)));
    assert_eq!(handler(&frame(0x5449_4d45, 0, 3, 0x10), &cfg()), SbiRequest::Reply(SbiRet(ERR_FAILED, 0)));
    assert_eq!(handler(&frame(0, 0, 4, 0x10), &cfg()), SbiRequest::ReadMachineId(MachineIdCsr::Vendor));
    assert_eq!(handler(&frame(0, 0, 5, 0x10), &cfg()), SbiRequest::ReadMachineId(MachineIdCsr::Arch));
    assert_eq!(handler(&frame(0, 0, 6, 0x10), &cfg()), SbiRequest::ReadMachineId(MachineIdCsr::Impl));
    assert_eq!(handler(&frame(0, 0, 7, 0x10), &cfg()), SbiRequest::Reply(SbiRet(ERR_NOT_SUPPORTED, 0)));
    assert_eq!(machine_id_reply(Some(0x489)), SbiRet(SUCCESS, 0x489));
    assert_eq!(machine_id_reply(None), SbiRet(SUCCESS, 0));
}

#[test]
fn probing() {
    for ext in [0x10, 0, 1, 2, 3, 4, 8] {
        assert!(probe_extension(ext));
    }
    for ext in [5, 6, 7, 9, 0x5449_4d45, 0x0073_5049, 0x0a00_0210, -1] {
        assert!(!probe_extension(ext));
    }
}

#[test]
fn legacy_calls_are_decoded() {
    assert_eq!(handler(&frame(1234, 0, 0, 0), &cfg()), SbiRequest::Legacy(LegacyRequest::SetTimer { stime_value: 1234 }));
    assert_eq!(handler(&frame(0x141, 0, 0, 1), &cfg()), SbiRequest::Legacy(LegacyRequest::ConsolePutchar { c: 0x41 }));
    assert_eq!(handler(&frame(0, 0, 0, 2), &cfg()), SbiRequest::Legacy(LegacyRequest::ConsoleGetchar));
    assert_eq!(handler(&frame(0, 0, 0, 3), &cfg()), SbiRequest::Legacy(LegacyRequest::ClearIpi));
    assert_eq!(handler(&frame(0x8000, 0, 0, 4), &cfg()), SbiRequest::Legacy(LegacyRequest::SendIpi { hart_mask_addr: 0x8000 }));
    assert_eq!(handler(&frame(0, 0, 0, 8), &cfg()), SbiRequest::Legacy(LegacyRequest::Shutdown));
    assert_eq!(handler(&frame(0, 0, 0, 5), &cfg()), SbiRequest::Legacy(LegacyRequest::Unsupported { eid: 5 }));
    assert_eq!(handler(&frame(0, 0, 0, 0x0f), &cfg()), SbiRequest::Legacy(LegacyRequest::Unsupported { eid: 0x0f }));
}

#[test]
fn legacy_replies() {
    let mut tf = frame(0, 99, 0, 2);
    getchar_reply(&mut tf, 0xff);
    assert_eq!(tf.a0, -1);
    assert_eq!(tf.a1, 99);
    getchar_reply(&mut tf, b'x');
    assert_eq!(tf.a0, 0x78);
    getchar_reply(&mut tf, 0x80);
    assert_eq!(tf.a0, -128);
    unsupported_reply(&mut tf);
    assert_eq!(tf.a0, ERR_NOT_SUPPORTED);
    assert_eq!(tf.a7, 2);
    assert_eq!(timer_irq_after_set(true), TimerIrq::Forward);
    assert_eq!(timer_irq_after_set(false), TimerIrq::Arm);
}

#[test]
fn legacy_ipi_mask() {
    assert_eq!(ipi_targets(0), Vec::<usize>::new());
    assert_eq!(ipi_targets(0b10), vec![1]);
    assert_eq!(ipi_targets(0b111), vec![0, 1]);
    assert_eq!(ipi_targets(0b100), Vec::<usize>::new());
}

#[test]
fn time_extension() {
    assert_eq!(
        handler(&frame(5000, 0, 0, 0x5449_4d45), &cfg()),
        SbiRequest::SetTimer { stime_value: 5000, reply: SbiRet(SUCCESS, 0) }
    );
    assert_eq!(handler(&frame(5000, 0, 1, 0x5449_4d45), &cfg()), SbiRequest::Reply(SbiRet(ERR_NOT_SUPPORTED, 0)));
}

#[test]
fn ipi_extension() {
    let ipi = 0x0073_5049;
    assert_eq!(handler(&frame(0b11, 0, 0, ipi), &cfg()), SbiRequest::SendIpi { harts: vec![0, 1], reply: SbiRet(SUCCESS, 0) });
    assert_eq!(handler(&frame(0b10, 0, 0, ipi), &cfg()), SbiRequest::SendIpi { harts: vec![1], reply: SbiRet(SUCCESS, 0) });
    assert_eq!(handler(&frame(0b100, 0, 0, ipi), &cfg()), SbiRequest::Reply(SbiRet(ERR_INVALID_PARAM, 0)));
    assert_eq!(handler(&frame(0b1, 3, 0, ipi), &cfg()), SbiRequest::Reply(SbiRet(ERR_INVALID_PARAM, 0)));
    // with base 1 only one mask bit is valid; it signals hart 0
    assert_eq!(handler(&frame(0b1, 1, 0, ipi), &cfg()), SbiRequest::SendIpi { harts: vec![0], reply: SbiRet(SUCCESS, 0) });
    assert_eq!(handler(&frame(0b10, 1, 0, ipi), &cfg()), SbiRequest::Reply(SbiRet(ERR_INVALID_PARAM, 0)));
    assert_eq!(handler(&frame(0, 2, 0, ipi), &cfg()), SbiRequest::SendIpi { harts: vec![], reply: SbiRet(SUCCESS, 0) });
    assert_eq!(handler(&frame(1, 2, 0, ipi), &cfg()), SbiRequest::Reply(SbiRet(ERR_INVALID_PARAM, 0)));
    assert_eq!(handler(&frame(0b11, 0, 1, ipi), &cfg()), SbiRequest::Reply(SbiRet(ERR_NOT_SUPPORTED, 0)));
}

#[test]
fn vendor_firmware_and_unknown() {
    assert_eq!(handler(&frame(0, 0, 0, 0x0900_0001), &cfg()), SbiRequest::Reply(SbiRet(ERR_NOT_SUPPORTED, 0)));
    assert_eq!(handler(&frame(0, 0, 0, 0x0a00_0001), &cfg()), SbiRequest::Reply(SbiRet(ERR_NOT_SUPPORTED, 0)));
    assert_eq!(
        handler(&frame(0, 0, 0, 0x1234_5678), &cfg()),
        SbiRequest::UnknownExtension { eid: 0x1234_5678, reply: SbiRet(ERR_NOT_SUPPORTED, 0) }
    );
    assert_eq!(
        handler(&frame(0, 0, 0, 0x11), &cfg()),
        SbiRequest::UnknownExtension { eid: 0x11, reply: SbiRet(ERR_NOT_SUPPORTED, 0) }
    );
    let xv6 = 0x0a00_0210;
    assert_eq!(handler(&frame(0, 0, 0, xv6), &cfg()), SbiRequest::EnableExternal { reply: SbiRet(SUCCESS, 0) });
    assert_eq!(handler(&frame(0, 0, 1, xv6), &cfg()), SbiRequest::QueryExternal);
    assert_eq!(handler(&frame(0x8020_0000, 12, 0x10, xv6), &cfg()), SbiRequest::Puts { addr: 0x8020_0000, n: 12 });
    assert_eq!(handler(&frame(0, 0, 0x20, xv6), &cfg()), SbiRequest::ReadTimer);
    assert_eq!(handler(&frame(0, 0, 2, xv6), &cfg()), SbiRequest::Reply(SbiRet(ERR_NOT_SUPPORTED, 0)));
    assert_eq!(is_ext_reply(true), SbiRet(SUCCESS, 0));
    assert_eq!(is_ext_reply(false), SbiRet(SUCCESS, 1));
    assert_eq!(timer_reply(123_456), SbiRet(SUCCESS, 123_456));
}

#[test]
fn reply_touches_only_a0_a1() {
    let mut tf = frame(0, 0, 3, 0x10);
    apply_reply(&mut tf, SbiRet(ERR_NOT_SUPPORTED, 42));
    assert_eq!(tf.a0, ERR_NOT_SUPPORTED);
    assert_eq!(tf.a1, 42);
    assert_eq!(tf.a6, 3);
    assert_eq!(tf.a7, 0x10);
    assert_eq!(tf.ra, 1);
    assert_eq!(tf.t6, 31);
}

#[test]
fn xv6_puts() {
    let (out, ret) = console_puts(b"hello\0world", 100);
    assert_eq!(out, b"hello".to_vec());
    assert_eq!(ret, SbiRet(SUCCESS, 5));
    let (out, ret) = console_puts(b"hello\0world", 3);
    assert_eq!(out, b"hel".to_vec());
    assert_eq!(ret, SbiRet(SUCCESS, 3));
    let (out, ret) = console_puts(b"\0", 10);
    assert!(out.is_empty());
    assert_eq!(ret, SbiRet(SUCCESS, 0));
    let (out, ret) = console_puts(b"abc", 10);
    assert_eq!(out, b"abc".to_vec());
    assert_eq!(ret, SbiRet(SUCCESS, 3));
    let (out, ret) = console_puts(b"", 0);
    assert!(out.is_empty());
    assert_eq!(ret, SbiRet(SUCCESS, 0));
}

#[test]
fn puts_cursor_steps() {
    let mut c = PutsCursor::new(4);
    assert!(c.wants_byte());
    assert_eq!(c.byte_addr(0x1000), 0x1000);
    assert!(c.feed(b'a'));
    assert_eq!(c.byte_addr(0x1000), 0x1001);
    assert_eq!(c.byte_addr(usize::MAX), 0);
    assert!(c.wants_byte());
    assert!(!c.feed(0));
    assert!(!c.wants_byte());
    assert_eq!(c.reply(), SbiRet(SUCCESS, 1));
}

#[test]
fn interrupt_bits_of_requests() {
    let set_timer = handler(&frame(5000, 0, 0, 0x5449_4d45), &cfg());
    assert_eq!(request_csr_ops(&set_timer), vec![CsrOp::ClearBit(CsrBit::Stip), CsrOp::SetBit(CsrBit::Mtie)]);
    let set_ext = handler(&frame(0, 0, 0, 0x0a00_0210), &cfg());
    assert_eq!(request_csr_ops(&set_ext), vec![CsrOp::SetBit(CsrBit::Meie), CsrOp::SetBit(CsrBit::Mtie)]);
    let clear = handler(&frame(0, 0, 0, 3), &cfg());
    assert_eq!(request_csr_ops(&clear), vec![CsrOp::ClearBit(CsrBit::Ssip)]);
    let shutdown = handler(&frame(0, 0, 0, 8), &cfg());
    assert_eq!(
        request_csr_ops(&shutdown),
        vec![CsrOp::ClearBit(CsrBit::Mie), CsrOp::ClearBit(CsrBit::Sie), CsrOp::ClearBit(CsrBit::Uie)]
    );
    let probe = handler(&frame(0x10, 0, 3, 0x10), &cfg());
    assert!(request_csr_ops(&probe).is_empty());
    assert_eq!(timer_irq_ops(TimerIrq::Forward), vec![CsrOp::SetBit(CsrBit::Stip), CsrOp::ClearBit(CsrBit::Mtie)]);
    assert_eq!(timer_irq_ops(TimerIrq::Arm), vec![CsrOp::ClearBit(CsrBit::Stip), CsrOp::SetBit(CsrBit::Mtie)]);
}
