# psicasbi

A RISC-V SBI firmware for the Kendryte K210 and QEMU's virt board, split in two:

- `src/` is the verified library: decoding and dispatch of SBI calls (Base,
  legacy, TIME, IPI, the xv6-k210 firmware extension), routing of M-mode traps,
  emulation of `sfence.vma` and `rdtime` for 1.9.1-spec cores, the CLINT,
  NS16550a and UARTHS register values, UTF-8 console output and the K210 PLL
  parameter search. Every public function carries a contract proved by Verus.
- `app/` is the firmware around it: the entry point, the trap vectors, the
  CSR and MMIO accesses, and the global UART and SYSCTL instances. It performs
  the operations that the library's requests name and hands back what the
  hardware answered.
