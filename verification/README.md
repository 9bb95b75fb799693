# magenboy core, verified

The core of a Game Boy / Game Boy Color emulator as a Verus library: the CPU and its
instruction set, the cartridge bank controllers, the joypad register, parts of the APU and
of the PPU, and the small data structures they are built on. Every function in `src/` has
a contract that Verus proves.

Layout:

- `src/utils`: fixed size FIFO and set, a fixed size string, a bump allocator over a
  buffer given by its address, bit and wrapping helpers, the I/O register addresses.
- `src/cpu`: the registers (`Reg`), the CPU state and its abstract view (`CpuState`), the
  instruction families and `GbCpu::run_opcode`, which decodes and runs one instruction.
  Memory is reached through the `Memory` trait, whose implementations record every access
  in a log; the contracts state the accesses each instruction makes.
- `src/mmu`: the `Memory` trait, a flat 64 KiB memory that implements it, the cartridges
  (ROM only, MBC1, MBC3), the CGB VRAM DMA registers, the KEY0 register, the reads and
  writes of the PPU registers, the CGB start without a boot ROM, and the CPU's reads and
  writes of VRAM and OAM, which the PPU's mode locks.
- `src/ppu`: colors and palettes, VRAM, tile attributes, the background pixel fetcher, the
  selection of the objects of a line, the mixing of background and object pixels, the mode
  machine (OAM search, pixel transfer, horizontal and vertical blank, LY, the VBlank and STAT
  interrupts) with the runs it goes through and the pixels each tick draws, the PPU
  registers, and the debugger's views of the background, window and object layers.
- `src/apu`: samples and their averaging, the channel timer, a channel with its length
  counter, and the mixing of the channels of one output terminal.
- `src/keypad.rs`: the joypad register.
- `src/debugger`, `src/machine`: the debugger's breakpoints and watch points, the
  disassembler, the emulated mode, the choice of a bank controller from the cartridge
  header, and the CPU registers of a start without a boot ROM.
- `app/lib.rs`: the static allocator over a global buffer and element-wise array
  construction, which write through raw pointers.

Not in this library: the I/O register bus that dispatches reads and writes of the 0xFF00
page (but for the PPU registers, `mmu::io_bus::read_ppu_register` and
`write_ppu_register`), the
memory management unit that routes CPU accesses to the cartridge and RAM (its VRAM and
OAM part is `mmu::video_access`), the APU as a whole (frame sequencer, frequency
sweep, the four sample producers and their register updaters), the timer, the OAM DMA
controller, the external memory bus, the object fetcher's step, the debugger's memory view
and the machine that ties them together (its choice of start registers is
`machine::gameboy`). Those parts rest on components whose definitions this code base does
not have, so they are left out rather than guessed at. The object fetcher's step is passed
to `GbPpu::cycle` as a function, and a channel's sound generator is the `SampleProducer`
trait. The MBC5 cartridge types (0x19, 0x1A and 0x1B) are not supported either:
`initialize_mbc` requires one of the other types.

The tests in `tests/` run the library on concrete values.
