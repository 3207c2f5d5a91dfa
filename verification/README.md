# hasm-openbmc

Firmware for an STM32F407 board acting as a small baseboard management
controller for a Raspberry Pi: a Redfish-style power API, a TCP-to-UART
console bridge, a diagnostic VNC screen, and a USB mass-storage device that
serves a disk image fetched from the host over HTTP byte ranges.

Layout:

- `src/` — the verified library (Verus). Wire formats (CBW/CSW, SCSI
  responses, HTTP requests and responses, RFB messages), the block backends
  (read cache, synthetic FAT16 disk, HTTP range fetch), and the decisions of
  every service, written as state machines that name the next I/O step.
- `app/` — the Embassy firmware around it: clocks, Ethernet, UART, USB and
  SDIO drivers, sockets and tasks. It performs the I/O the library asks for
  and hands the outcome back.
- `tests/` — tests of the library on concrete values.
