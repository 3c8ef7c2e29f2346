use psicasbi::clint::{clear_ipi, send_ipi, set_timer, MTIME_ADDR};
use psicasbi::console::Stdout;
use psicasbi::frame::TrapFrame;
use psicasbi::misa::{extensions, mxl, Mxl};
use psicasbi::mmio::MmioWrite;
use psicasbi::sbt::{writable_rd, classify, extract_inst, set_rd, sptbr_bits, sv39_mstatus, translation, OldSpecInst, Translation};
use psicasbi::sysctl::calculate_pll_config;
use psicasbi::csr::{CsrBit, CsrOp};
use psicasbi::trap::{csr_ops, init_csr_ops, decode_mcause, next_mepc, trap_handler, Exception, Interrupt, Trap, TrapAction, TrapConfig};
use psicasbi::uart::{encode_char, Uart, UarthsWrite, NS16550a};

fn frame() -> TrapFrame {
    TrapFrame {
        ra: 1, sp: 2, gp: 3, tp: 4, t0: 5, t1: 6, t2: 7, s0: 8, s1: 9,
        a0: 10, a1: 11, a2: 12, a3: 13, a4: 14, a5: 15, a6: 16, a7: 17,
        s2: 18, s3: 19, s4: 20, s5: 21, s6: 22, s7: 23, s8: 24, s9: 25, s10: 26, s11: 27,
        t3: 28, t4: 29, t5: 30, t6: 31,
    }
}

#[test]
fn pll_configurations() {
    assert_eq!(calculate_pll_config(26_000_000, 390_000_000), (1, 4, 60));
    // 64 = 4 * 16 reaches 26 MHz exactly
    assert_eq!(calculate_pll_config(26_000_000, 26_000_000), (4, 16, 64));
    // the largest fitting product is 256 = 16 * 16
    assert_eq!(calculate_pll_config(26_000_000, 1_000_000), (16, 16, 9));
    assert_eq!(calculate_pll_config(256, 63), (16, 16, 63));
    // 17 fits but is no product of factors up to 16: 16 is taken
    assert_eq!(calculate_pll_config(26_000_000, 95_000_000), (1, 16, 58));
    // above the PLL's range: nr * od is 1 and nf is capped
    assert_eq!(calculate_pll_config(26_000_000, 2_000_000_000), (1, 1, 64));
    assert_eq!(calculate_pll_config(1, 0), (16, 16, 0));
}

#[test]
fn clint_writes() {
    assert_eq!(send_ipi(1), MmioWrite::U32 { addr: 0x0200_0004, word: 1 });
    assert_eq!(clear_ipi(0), MmioWrite::U32 { addr: 0x0200_0000, word: 0 });
    assert_eq!(set_timer(1, 5), MmioWrite::U64 { addr: 0x0200_4008, double: 5 });
    assert_eq!(set_timer(0, u64::MAX), MmioWrite::U64 { addr: 0x0200_4000, double: u64::MAX });
    assert_eq!(MTIME_ADDR, 0x0200_bff8);
}

#[test]
fn old_spec_instructions() {
    assert_eq!(extract_inst(0x0073, 0x1200), 0x1200_0073);
    assert_eq!(classify(0x1200_0073), OldSpecInst::SfenceVma);
    assert_eq!(classify(0x1205_0073), OldSpecInst::SfenceVma); // sfence.vma a0
    assert_eq!(classify(0xC010_2573), OldSpecInst::Rdtime { rd: 10 });
    assert_eq!(classify(0xC010_22F3), OldSpecInst::Rdtime { rd: 5 });
    assert_eq!(classify(0x0000_0073), OldSpecInst::Other); // ecall
    assert_eq!(sptbr_bits(u64::MAX), 0x3F_FFFF_FFFF);
    assert_eq!(sptbr_bits(0x8000_0000_0008_0123), 0x8_0123);
    assert_eq!(sv39_mstatus(0), 0x0900_0000);
    assert_eq!(sv39_mstatus(u64::MAX), 0xFFFF_FFFF_E9FF_FFFF);
    assert_eq!(sv39_mstatus(0x1F00_0008), 0x0900_0008);
}

#[test]
fn rdtime_writes_only_rd() {
    let mut tf = frame();
    assert_eq!(translation(0xC010_2573, &mut tf, 0, 0, 777), Translation::Rdtime);
    assert_eq!(tf.a0, 777);
    assert_eq!(tf.a1, 11);
    assert_eq!(tf.t0, 5);
    let mut tf = frame();
    assert_eq!(translation(0xC010_2FF3, &mut tf, 0, 0, 9), Translation::Rdtime);
    assert_eq!(tf.t6, 9);
    let mut tf = frame();
    assert_eq!(
        translation(0x1200_0073, &mut tf, 0x8000_0000_0008_0123, 0, 9),
        Translation::Sfence { sptbr: 0x8_0123, mstatus: 0x0900_0000 }
    );
    assert_eq!(tf.a0, 10);
    assert_eq!(translation(0x0000_0013, &mut tf, 0, 0, 9), Translation::Unhandled);
    assert_eq!(tf.t6, 31);
}

#[test]
fn set_rd_each_register() {
    for (rd, expect) in [(5u8, 0), (6, 1), (7, 2), (10, 3), (17, 10), (28, 11), (31, 14)] {
        let mut tf = frame();
        set_rd(&mut tf, rd, 1000);
        let regs = [tf.t0, tf.t1, tf.t2, tf.a0, tf.a1, tf.a2, tf.a3, tf.a4, tf.a5, tf.a6, tf.a7, tf.t3, tf.t4, tf.t5, tf.t6];
        for (i, v) in regs.iter().enumerate() {
            if i == expect {
                assert_eq!(*v, 1000);
            } else {
                assert_ne!(*v, 1000);
            }
        }
        assert_eq!(tf.ra, 1);
        assert_eq!(tf.s11, 27);
    }
}

#[test]
fn mcause_decoding_and_routing() {
    let cfg = TrapConfig { soft_extern: false, old_spec: false };
    let k210 = TrapConfig { soft_extern: true, old_spec: true };
    let irq = 1u64 << 63;
    assert_eq!(decode_mcause(9), Trap::Exception(Exception::SupervisorEnvCall));
    assert_eq!(decode_mcause(2), Trap::Exception(Exception::IllegalInstruction));
    assert_eq!(decode_mcause(10), Trap::Exception(Exception::Unknown));
    assert_eq!(decode_mcause(irq | 7), Trap::Interrupt(Interrupt::MachineTimer));
    assert_eq!(decode_mcause(irq | 3), Trap::Interrupt(Interrupt::MachineSoft));
    assert_eq!(decode_mcause(irq | 11), Trap::Interrupt(Interrupt::MachineExternal));
    assert_eq!(decode_mcause(irq | 2), Trap::Interrupt(Interrupt::Unknown));
    assert_eq!(trap_handler(decode_mcause(9), &cfg), TrapAction::SbiCall);
    assert_eq!(trap_handler(decode_mcause(irq | 7), &cfg), TrapAction::ForwardTimer);
    assert_eq!(trap_handler(decode_mcause(irq | 3), &cfg), TrapAction::ForwardSoft);
    assert_eq!(trap_handler(decode_mcause(irq | 11), &cfg), TrapAction::Ignore);
    assert_eq!(trap_handler(decode_mcause(irq | 11), &k210), TrapAction::ForwardExternalAsSoft);
    assert_eq!(trap_handler(decode_mcause(2), &cfg), TrapAction::Fatal);
    assert_eq!(trap_handler(decode_mcause(2), &k210), TrapAction::EmulateInstruction);
    assert_eq!(trap_handler(decode_mcause(8), &k210), TrapAction::Fatal);
    assert_eq!(next_mepc(0x8020_0000), 0x8020_0004);
    assert_eq!(next_mepc(usize::MAX - 1), 2);
}

#[test]
fn ns16550a_setup_and_status() {
    let (_dev, writes) = NS16550a::init();
    assert_eq!(
        writes,
        vec![
            MmioWrite::U8 { addr: 0x1000_0003, byte: 0x80 },
            MmioWrite::U8 { addr: 0x1000_0000, byte: 6 },
            MmioWrite::U8 { addr: 0x1000_0001, byte: 0 },
            MmioWrite::U8 { addr: 0x1000_0003, byte: 3 },
            MmioWrite::U8 { addr: 0x1000_0001, byte: 1 },
            MmioWrite::U8 { addr: 0x1000_0002, byte: 7 },
        ]
    );
    assert!(NS16550a::recv_ready(0x61));
    assert!(!NS16550a::recv_ready(0x60));
    assert!(NS16550a::trans_empty(0x60));
    assert!(!NS16550a::trans_empty(0x21));
}

#[test]
fn utf8_output() {
    assert_eq!(encode_char('A'), vec![0x41]);
    assert_eq!(encode_char('é'), vec![0xC3, 0xA9]);
    assert_eq!(encode_char('€'), vec![0xE2, 0x82, 0xAC]);
    assert_eq!(encode_char('😀'), vec![0xF0, 0x9F, 0x98, 0x80]);
    let dev = NS16550a;
    assert_eq!(dev.write_str("hé€"), "hé€".as_bytes().to_vec());
    let k210 = Uart;
    assert_eq!(k210.write_str("hé€"), "hé€".as_bytes().to_vec());
    assert_eq!(dev.write_str(""), Vec::<u8>::new());
}

#[test]
fn console_truncates_characters() {
    let out = Stdout;
    assert_eq!(out.write_str("ok\n"), b"ok\n".to_vec());
    assert_eq!(out.write_str("é"), vec![0xE9]);
    assert_eq!(out.write_str("€"), vec![0xAC]);
    assert_eq!(out.write_str("abc"), NS16550a.write_str("abc"));
}

#[test]
fn uarths_registers() {
    let (_dev, writes) = Uart::init();
    assert_eq!(
        writes,
        vec![
            UarthsWrite::Div { div: 3384 },
            UarthsWrite::Ie { txwm: false, rxwm: true },
            UarthsWrite::RxCtrl { rxcnt: 0, rxen: true },
            UarthsWrite::TxCtrl { txcnt: 0, txen: true },
        ]
    );
    assert_eq!(Uart::getchar_from(0x8000_0041), 0xff);
    assert_eq!(Uart::getchar_from(0x0000_0141), 0x41);
    assert!(Uart::txdata_full(0x8000_0000));
    assert!(!Uart::txdata_full(0x7fff_ffff));
}

#[test]
fn misa_report() {
    let bits: u64 = (2 << 62) | (1 << 0) | (1 << 2) | (1 << 8) | (1 << 12) | (1 << 18) | (1 << 20);
    assert_eq!(mxl(bits), Mxl::Xlen64);
    assert_eq!(mxl(1 << 62), Mxl::Xlen32);
    assert_eq!(mxl(3 << 62), Mxl::Xlen128);
    assert_eq!(extensions(bits), vec!['A', 'C', 'I', 'M', 'S', 'U']);
    assert_eq!(extensions(1 << 62), Vec::<char>::new());
    assert_eq!(extensions(1 << 26), Vec::<char>::new());
}

#[test]
fn rdtime_targets() {
    let ok: Vec<u8> = (0u8..32).filter(|r| writable_rd(*r)).collect();
    assert_eq!(ok, vec![5, 6, 7, 10, 11, 12, 13, 14, 15, 16, 17, 28, 29, 30, 31]);
}

#[test]
fn interrupt_bits_of_traps() {
    assert_eq!(csr_ops(TrapAction::ForwardTimer), vec![CsrOp::SetBit(CsrBit::Stip), CsrOp::ClearBit(CsrBit::Mtie)]);
    assert_eq!(csr_ops(TrapAction::ForwardSoft), vec![CsrOp::SetBit(CsrBit::Ssip)]);
    assert_eq!(
        csr_ops(TrapAction::ForwardExternalAsSoft),
        vec![CsrOp::ClearBit(CsrBit::Meie), CsrOp::ClearBit(CsrBit::Mtie), CsrOp::SetBit(CsrBit::Ssip)]
    );
    assert!(csr_ops(TrapAction::SbiCall).is_empty());
    assert!(csr_ops(TrapAction::Ignore).is_empty());
    assert_eq!(init_csr_ops(), vec![CsrOp::SetBit(CsrBit::Meie), CsrOp::SetBit(CsrBit::Msie)]);
}

#[test]
fn register_image_of_rdtime() {
    let mut tf = frame();
    set_rd(&mut tf, 28, u64::MAX);
    assert_eq!(tf.t3, -1);
    assert_eq!(translation(0xC010_2573, &mut tf, 0, 0, 1u64 << 63), Translation::Rdtime);
    assert_eq!(tf.a0, i64::MIN);
}
