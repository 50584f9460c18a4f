# rknpu_drivers

Verified driver logic for the Rockchip RK3588 NPU, its eMMC host
controller and the NS16550 UART, written in Verus.

## Layout

- `src/` — the verified library.
  - `registers`, `interrupt`, `pc`, `batch`: one NPU core. Its 64 KiB
    register window is modelled as bytes; interrupts are write-one-to-clear.
    Register-command decoding, the restore image written back after every
    boundary interrupt, status fuzzing, and programming of the PC block.
  - `npu`: the device — its cores, management actions, traffic counters,
    soft reset, interrupt routing and the single-task dispatch step.
  - `taskqueen`, `service::scheduler`: per-submit lane bookkeeping and the
    priority scheduler that places lanes on idle cores, running submits
    before ready ones and lower priority values first.
  - `service::ioctl`, `service::error`, `gem`: request handling, the error
    surface and the buffer pool handed to userspace.
  - `context`, `status`, `desc`, `def`, `sdma`, `job`, `data`: state
    snapshots and their text rendering, register layouts and chip data.
  - `emmc`: the eMMC host set-up from its capability registers, the card
    bring-up as a state machine (`emmc::bringup`), CSD and extended-CSD
    decoding, the raise to the fastest shared bus mode with its bus-width
    choice and HS200 tuning as a second state machine (`emmc::freq`), block transfer
    commands, the choice of the exposed partition and the word packing of
    programmed I/O.
  - `serial`: NS16550 frame-format encodings, the baud divisor, the
    interrupt mask encoding and the decisions of its interrupt handler.
- `tests/` — executable tests of the library.
- `app/` — the unverified shell around the library: MMIO access, IRQ entry
  points, the blocking submit service and its worker thread, the eMMC
  command loop over an `EmmcBus`, and the UART's register access.

Every function in `src/` carries a contract proved by Verus; the one call
into other code, a memory barrier, is a trusted item whose doc comment
states what is assumed of it.
