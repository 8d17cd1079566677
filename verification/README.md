# rcore_gui

The desktop of a small RISC-V teaching kernel, with its behaviour stated in
Verus contracts and proved.

* `src/` is the verified library:
  * `geometry`, `draw`, `gui`: widgets (panels, bars, images, buttons, the desktop
    icon grid, windows) forming a tree; painting a widget yields the list of
    drawing operations for it and everything it holds, in order.
  * `cursor`: the mouse cursor made from a bitmap (tinybmp reads the file).
  * `dtb`: probing the UART, RTC, virtio and PLIC devices that a flattened
    device tree lists (the `device_tree` crate loads the tree).
  * `input`: what a decoded key or mouse event asks the terminal pad, the
    snake game and the cursor to do.
  * `drivers`: the display interface and the address translation asked for by
    the virtio drivers.
* `app/` is the kernel side, not verified: the virtio GPU, carrying out the
  drawing operations with embedded-graphics on the frame buffer, reading the
  device tree out of memory, dispatching input events, and a block device
  self test.
* `tests/` runs the library on concrete values.
