//! The device interfaces the desktop draws through, and the address
//! translation that the virtio drivers ask of the kernel.
use vstd::prelude::*;

verus! {

/// A display: it owns a frame buffer that the desktop draws into, shows it
/// when flushed, and draws the mouse cursor.
pub trait GPUDevice: Send + Sync {
    /// Moves or redraws the mouse cursor.
    fn update_cursor(&self);

    /// The frame buffer of the display.
    fn get_frame_buffer(&self) -> &mut [u8];

    /// Shows what the frame buffer holds.
    fn flush(&self);
}

/// The kernel address at which the physical address `paddr` is reached:
/// the kernel maps physical memory at the same addresses.
pub fn virtio_phys_to_virt(paddr: usize) -> (vaddr: usize)
    ensures
        vaddr == paddr,
{
    paddr
}

} // verus!
