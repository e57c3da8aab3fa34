use vstd::prelude::*;

verus! {

/// Display width in pixels.
pub const WIDTH: usize = 64;

/// Display height in pixels.
pub const HEIGHT: usize = 32;

/// Number of pixels on the display.
pub const DISPLAY_SIZE: usize = 2048;

/// Bytes of addressable memory.
pub const MEMORY_SIZE: usize = 4096;

/// Where programs are loaded and execution starts.
pub const PROGRAM_START: usize = 0x200;

/// Where the hexadecimal digit glyphs live.
pub const FONT_START: usize = 0x50;

/// Depth of the call stack.
pub const STACK_SIZE: usize = 16;

/// The value of a lit pixel in the framebuffer; an unlit one is 0.
pub const PIXEL_ON: u32 = 0xFFFF_FFFF;

/// The complete state of a CHIP-8 machine.
pub struct Chip8 {
    pub memory: [u8; 4096],
    /// Row-major framebuffer; every pixel is `0` or `PIXEL_ON`.
    pub display: [u32; 2048],
    pub pc: usize,
    pub i: u16,
    pub sp: usize,
    pub stack: [usize; 16],
    pub delay: u8,
    pub sound: u8,
    pub v: [u8; 16],
    /// Which of the sixteen keys are held; written by the host.
    pub keypad: [bool; 16],
    /// Set when the last cycle changed the framebuffer.
    pub draw_flag: bool,
}

/// The mathematical model of a machine: its fields as sequences, and each
/// pixel as on or off.
#[verifier::ext_equal]
pub struct Chip8View {
    pub memory: Seq<u8>,
    pub display: Seq<bool>,
    pub pc: usize,
    pub i: u16,
    pub sp: usize,
    pub stack: Seq<usize>,
    pub delay: u8,
    pub sound: u8,
    pub v: Seq<u8>,
    pub keypad: Seq<bool>,
    pub draw_flag: bool,
}

/// Why a cycle could not be executed. The machine is left as it was.
#[derive(Clone, Copy, Debug, PartialEq, Eq, Structural)]
pub enum Chip8Error {
    /// The fetched word names no instruction.
    UnknownOpcode(u16),
    /// A return with an empty call stack.
    StackUnderflow,
    /// A call with a full call stack.
    StackOverflow,
}

impl View for Chip8 {
    type V = Chip8View;

    open spec fn view(&self) -> Chip8View {
        Chip8View {
            memory: self.memory@,
            display: self.display@.map_values(|p: u32| p == PIXEL_ON),
            pc: self.pc,
            i: self.i,
            sp: self.sp,
            stack: self.stack@,
            delay: self.delay,
            sound: self.sound,
            v: self.v@,
            keypad: self.keypad@,
            draw_flag: self.draw_flag,
        }
    }
}

impl Chip8View {
    /// The machine invariant: the sizes are those of the hardware, the
    /// program counter and every saved return address lie in memory, and the
    /// stack pointer is within the stack.
    pub open spec fn wf(self) -> bool {
        &&& self.memory.len() == MEMORY_SIZE
        &&& self.display.len() == DISPLAY_SIZE
        &&& self.stack.len() == STACK_SIZE
        &&& self.v.len() == 16
        &&& self.keypad.len() == 16
        &&& self.pc < MEMORY_SIZE
        &&& self.sp <= STACK_SIZE
        &&& forall|k: int| 0 <= k < self.sp ==> #[trigger] self.stack[k] < MEMORY_SIZE
    }
}

impl Chip8 {
    /// The machine invariant, with every framebuffer entry either lit or dark.
    pub open spec fn wf(&self) -> bool {
        &&& self@.wf()
        &&& forall|p: int|
            0 <= p < DISPLAY_SIZE ==> #[trigger] self.display@[p] == 0u32 || self.display@[p]
                == PIXEL_ON
    }
}

/// The sixteen 5-byte glyphs of the hexadecimal digits 0 to F.
pub open spec fn font_glyphs() -> Seq<u8> {
    seq![
        0xF0u8, 0x90, 0x90, 0x90, 0xF0,
        0x20, 0x60, 0x20, 0x20, 0x70,
        0xF0, 0x10, 0xF0, 0x80, 0xF0,
        0xF0, 0x10, 0xF0, 0x10, 0xF0,
        0x90, 0x90, 0xF0, 0x10, 0x10,
        0xF0, 0x80, 0xF0, 0x10, 0xF0,
        0xF0, 0x80, 0xF0, 0x90, 0xF0,
        0xF0, 0x10, 0x20, 0x40, 0x40,
        0xF0, 0x90, 0xF0, 0x90, 0xF0,
        0xF0, 0x90, 0xF0, 0x10, 0xF0,
        0xF0, 0x90, 0xF0, 0x90, 0x90,
        0xE0, 0x90, 0xE0, 0x90, 0xE0,
        0xF0, 0x80, 0x80, 0x80, 0xF0,
        0xE0, 0x90, 0x90, 0x90, 0xE0,
        0xF0, 0x80, 0xF0, 0x80, 0xF0,
        0xF0, 0x80, 0xF0, 0x80, 0x80,
    ]
}

/// Memory at power-on: the font at `FONT_START`, zero elsewhere.
pub open spec fn initial_memory() -> Seq<u8> {
    Seq::new(
        MEMORY_SIZE as nat,
        |a: int|
            if FONT_START <= a < FONT_START + 80 {
                font_glyphs()[a - FONT_START]
            } else {
                0u8
            },
    )
}

/// A machine at power-on.
pub open spec fn initial_state() -> Chip8View {
    Chip8View {
        memory: initial_memory(),
        display: Seq::new(DISPLAY_SIZE as nat, |p: int| false),
        pc: PROGRAM_START,
        i: 0,
        sp: 0,
        stack: Seq::new(STACK_SIZE as nat, |k: int| 0usize),
        delay: 0,
        sound: 0,
        v: Seq::new(16, |k: int| 0u8),
        keypad: Seq::new(16, |k: int| false),
        draw_flag: false,
    }
}

/// Memory after a program image is copied in from `PROGRAM_START`; bytes that
/// would run past the end of memory are dropped.
pub open spec fn loaded_memory(mem: Seq<u8>, image: Seq<u8>) -> Seq<u8> {
    Seq::new(
        mem.len(),
        |a: int|
            if PROGRAM_START <= a < PROGRAM_START + image.len() {
                image[a - PROGRAM_START]
            } else {
                mem[a]
            },
    )
}

fn font() -> (r: [u8; 80])
    ensures
        r@ == font_glyphs(),
{
    let r: [u8; 80] = [
        0xF0, 0x90, 0x90, 0x90, 0xF0,
        0x20, 0x60, 0x20, 0x20, 0x70,
        0xF0, 0x10, 0xF0, 0x80, 0xF0,
        0xF0, 0x10, 0xF0, 0x10, 0xF0,
        0x90, 0x90, 0xF0, 0x10, 0x10,
        0xF0, 0x80, 0xF0, 0x10, 0xF0,
        0xF0, 0x80, 0xF0, 0x90, 0xF0,
        0xF0, 0x10, 0x20, 0x40, 0x40,
        0xF0, 0x90, 0xF0, 0x90, 0xF0,
        0xF0, 0x90, 0xF0, 0x10, 0xF0,
        0xF0, 0x90, 0xF0, 0x90, 0x90,
        0xE0, 0x90, 0xE0, 0x90, 0xE0,
        0xF0, 0x80, 0x80, 0x80, 0xF0,
        0xE0, 0x90, 0x90, 0x90, 0xE0,
        0xF0, 0x80, 0xF0, 0x80, 0xF0,
        0xF0, 0x80, 0xF0, 0x80, 0x80,
    ];
    assert(r@ =~= font_glyphs());
    r
}

impl Chip8 {
    /// A machine at power-on: memory zero but for the font, the program
    /// counter at `PROGRAM_START`, everything else zero or off.
    pub fn new() -> (r: Self)
        ensures
            r.wf(),
            r@ == initial_state(),
    {
        let mut chip = Chip8 {
            memory: [0; 4096],
            display: [0; 2048],
            pc: PROGRAM_START,
            i: 0,
            sp: 0,
            stack: [0; 16],
            delay: 0,
            sound: 0,
            v: [0; 16],
            keypad: [false; 16],
            draw_flag: false,
        };
        let glyphs = font();
        let mut k: usize = 0;
        while k < 80
            invariant
                k <= 80,
                glyphs@ == font_glyphs(),
                chip.memory@.len() == MEMORY_SIZE,
                forall|a: int|
                    0 <= a < MEMORY_SIZE ==> #[trigger] chip.memory@[a] == if FONT_START <= a
                        < FONT_START + k {
                        font_glyphs()[a - FONT_START]
                    } else {
                        0u8
                    },
                forall|q: int| 0 <= q < DISPLAY_SIZE ==> #[trigger] chip.display@[q] == 0u32,
                chip.pc == PROGRAM_START,
                chip.i == 0,
                chip.sp == 0,
                forall|q: int| 0 <= q < STACK_SIZE ==> #[trigger] chip.stack@[q] == 0usize,
                chip.delay == 0,
                chip.sound == 0,
                forall|q: int| 0 <= q < 16 ==> #[trigger] chip.v@[q] == 0u8,
                forall|q: int| 0 <= q < 16 ==> #[trigger] chip.keypad@[q] == false,
                chip.draw_flag == false,
            decreases 80 - k,
        {
            chip.memory[FONT_START + k] = glyphs[k];
            k += 1;
        }
        assert(chip@ =~= initial_state());
        chip
    }

    /// Copies a program image into memory from `PROGRAM_START` on. Bytes that
    /// do not fit below the end of memory are not copied.
    pub fn load_binary(&mut self, binary: Vec<u8>)
        requires
            old(self).wf(),
        ensures
            final(self).wf(),
            final(self)@ == (Chip8View {
                memory: loaded_memory(
                    old(self)@.memory,
                    binary@.take(
                        if binary@.len() <= MEMORY_SIZE - PROGRAM_START {
                            binary@.len() as int
                        } else {
                            (MEMORY_SIZE - PROGRAM_START) as int
                        },
                    ),
                ),
                ..old(self)@
            }),
    {
        let count: usize = if binary.len() <= MEMORY_SIZE - PROGRAM_START {
            binary.len()
        } else {
            MEMORY_SIZE - PROGRAM_START
        };
        let ghost image = binary@.take(count as int);
        let mut k: usize = 0;
        while k < count
            invariant
                k <= count,
                count <= MEMORY_SIZE - PROGRAM_START,
                count <= binary@.len(),
                image == binary@.take(count as int),
                self.memory@.len() == MEMORY_SIZE,
                forall|a: int|
                    0 <= a < MEMORY_SIZE ==> #[trigger] self.memory@[a] == if PROGRAM_START <= a
                        < PROGRAM_START + k {
                        image[a - PROGRAM_START]
                    } else {
                        old(self).memory@[a]
                    },
                self.display == old(self).display,
                self.pc == old(self).pc,
                self.i == old(self).i,
                self.sp == old(self).sp,
                self.stack == old(self).stack,
                self.delay == old(self).delay,
                self.sound == old(self).sound,
                self.v == old(self).v,
                self.keypad == old(self).keypad,
                self.draw_flag == old(self).draw_flag,
            decreases count - k,
        {
            self.memory[PROGRAM_START + k] = binary[k];
            k += 1;
        }
        assert(self@.memory =~= loaded_memory(old(self)@.memory, image));
        assert(self@ =~= (Chip8View { memory: loaded_memory(old(self)@.memory, image), ..old(self)@ }));
    }

    /// Counts both timers down by one, stopping at zero.
    pub fn decrement_timers(&mut self)
        requires
            old(self).wf(),
        ensures
            final(self).wf(),
            final(self)@ == (Chip8View {
                delay: if old(self).delay > 0 { (old(self).delay - 1) as u8 } else { 0 },
                sound: if old(self).sound > 0 { (old(self).sound - 1) as u8 } else { 0 },
                ..old(self)@
            }),
    {
        if self.delay > 0 {
            self.delay -= 1;
        }
        if self.sound > 0 {
            self.sound -= 1;
        }
        assert(self@ =~= (Chip8View {
            delay: if old(self).delay > 0 { (old(self).delay - 1) as u8 } else { 0 },
            sound: if old(self).sound > 0 { (old(self).sound - 1) as u8 } else { 0 },
            ..old(self)@
        }));
    }
}

} // verus!
