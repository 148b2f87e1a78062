# ec-slimloader-mcxa

Boot support for NXP MCXA parts, written in Verus.

- `src/` is the verified library: ROM API status codes, NBOOT statuses and
  protected booleans, and how statuses are reported as boot errors
  (`rom_api::status`, `rom_api::nboot`), the ROM API
  tree and the argument words of its `runBootloader` entry (`rom_api`), the
  KBoot request structures (`rom_api::kb`), the flash configuration block
  (`rom_api::flash`), the image header check made before control is handed to
  an image (`jump`), and the NBOOT authentication policy with the state
  machine that orders its reads and ROM calls (`verification`).
  Addresses that the ROM reads are held as 32-bit words.
- `app/` performs the hardware side: reading the ROM API tree, calling the ROM
  through its function tables with `#[repr(C)]` copies of the library's
  structures, handing control to an image with `cortex-m`, and running the
  authentication state machine against the board support's IFR readers and
  NBOOT calls (`AuthBoard`).
- `tests/` runs the library on concrete values.
