# rvkernel

The verified core of a small RISC-V (S-mode, OpenSBI) kernel for QEMU
`virt`, the Allwinner D1 and the SiFive FU740.

`src/` computes, with Verus contracts, the SBI calls the kernel issues
(`sbi`, `io`), the register programs of the UART (`uart`) and of the PLIC
(`plic`), the decoding of traps (`trap`), the timer
deadline and tick counter (`timer`), the board memory layouts (`consts`) and
the boot-time computations (`init`). `mmio` holds the register-access
requests they return.

`app/` performs those requests on the hardware (`ecall`, CSR and volatile
MMIO accesses), prints, and holds the trap entry, the order of the
interrupt setup and the boot sequence.
