//! Memory layout of the boards the kernel runs on.
use vstd::prelude::*;

verus! {

/// The boards the kernel is built for.
#[derive(Clone, Copy, Debug, PartialEq, Eq, Structural)]
pub enum Board {
    /// Allwinner D1.
    D1,
    /// SiFive FU740.
    Fu740,
    /// QEMU `virt` machine (128 MiB of DRAM, OpenSBI below the kernel).
    QemuVirt,
}

/// Physical memory and device addresses of a board.
#[derive(Clone, Copy, Debug, PartialEq, Eq, Structural)]
pub struct MemoryLayout {
    pub physical_memory_end: usize,
    pub kernel_begin_paddr: usize,
    pub kernel_begin_vaddr: usize,
    pub plic_base: usize,
    pub uart_base: usize,
}

/// The layout of each board.
pub open spec fn layout_of(board: Board) -> MemoryLayout {
    match board {
        Board::D1 => MemoryLayout {
            physical_memory_end: 0x5002_0000,
            kernel_begin_paddr: 0x4002_0000,
            kernel_begin_vaddr: 0x4002_0000,
            plic_base: 0x1000_0000,
            uart_base: 0x0250_0000,
        },
        Board::Fu740 => MemoryLayout {
            physical_memory_end: 0x9000_0000,
            kernel_begin_paddr: 0x8020_0000,
            kernel_begin_vaddr: 0x8020_0000,
            plic_base: 0x0c00_0000,
            uart_base: 0x1001_0000,
        },
        Board::QemuVirt => MemoryLayout {
            physical_memory_end: 0x8800_0000,
            kernel_begin_paddr: 0x8020_0000,
            kernel_begin_vaddr: 0x8020_0000,
            plic_base: 0x0c00_0000,
            uart_base: 0x1000_0000,
        },
    }
}

/// The layout of `board`.
pub fn layout(board: Board) -> (r: MemoryLayout)
    ensures
        r == layout_of(board),
        board == Board::D1 ==> r.physical_memory_end == 0x5002_0000 && r.kernel_begin_paddr
            == 0x4002_0000 && r.kernel_begin_vaddr == 0x4002_0000 && r.plic_base == 0x1000_0000
            && r.uart_base == 0x0250_0000,
        board == Board::Fu740 ==> r.physical_memory_end == 0x9000_0000 && r.kernel_begin_paddr
            == 0x8020_0000 && r.kernel_begin_vaddr == 0x8020_0000 && r.plic_base == 0x0c00_0000
            && r.uart_base == 0x1001_0000,
        board == Board::QemuVirt ==> r.physical_memory_end == 0x8800_0000 && r.kernel_begin_paddr
            == 0x8020_0000 && r.kernel_begin_vaddr == 0x8020_0000 && r.plic_base == 0x0c00_0000
            && r.uart_base == 0x1000_0000,
{
    match board {
        Board::D1 => MemoryLayout {
            physical_memory_end: 0x5002_0000,
            kernel_begin_paddr: 0x4002_0000,
            kernel_begin_vaddr: 0x4002_0000,
            plic_base: 0x1000_0000,
            uart_base: 0x0250_0000,
        },
        Board::Fu740 => MemoryLayout {
            physical_memory_end: 0x9000_0000,
            kernel_begin_paddr: 0x8020_0000,
            kernel_begin_vaddr: 0x8020_0000,
            plic_base: 0x0c00_0000,
            uart_base: 0x1001_0000,
        },
        Board::QemuVirt => MemoryLayout {
            physical_memory_end: 0x8800_0000,
            kernel_begin_paddr: 0x8020_0000,
            kernel_begin_vaddr: 0x8020_0000,
            plic_base: 0x0c00_0000,
            uart_base: 0x1000_0000,
        },
    }
}

/// The boards' memory: the D1 has 256 MiB of DRAM from 0x4000_0000 with
/// the kernel 128 KiB in, the FU740 and QEMU virt have DRAM from
/// 0x8000_0000 (256 MiB and 128 MiB) with the kernel 2 MiB in, after the
/// firmware; the FU740 and QEMU virt PLICs are at 0x0c00_0000.
pub proof fn lemma_layout_sizes(board: Board)
    ensures
        board == Board::D1 ==> layout_of(board).physical_memory_end - layout_of(board).kernel_begin_paddr
            == 0x1000_0000 && layout_of(board).kernel_begin_paddr == 0x4000_0000 + 0x2_0000,
        board == Board::Fu740 ==> layout_of(board).physical_memory_end == 0x8000_0000
            + 0x1000_0000 && layout_of(board).kernel_begin_paddr == 0x8000_0000 + 0x20_0000
            && layout_of(board).plic_base == 0x0c00_0000,
        board == Board::QemuVirt ==> layout_of(board).physical_memory_end == 0x8000_0000
            + 0x800_0000 && layout_of(board).kernel_begin_paddr == 0x8000_0000 + 0x20_0000
            && layout_of(board).plic_base == 0x0c00_0000,
{
}

/// On every board the kernel is mapped at its physical address and ends
/// below the end of physical memory.
pub proof fn lemma_layouts_identity_mapped(board: Board)
    ensures
        layout_of(board).kernel_begin_vaddr == layout_of(board).kernel_begin_paddr,
        layout_of(board).kernel_begin_paddr < layout_of(board).physical_memory_end,
{
}

} // verus!
