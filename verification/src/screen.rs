//! Screen-state convention of the host driver: a fixed RAM region
//! (`0x0200..0x0600`) is treated as a 32 by 32 grid of color-index bytes.
//! Translating an index to an RGB color and mirroring the region into a
//! byte frame is pure computation and lives here; presenting the frame is
//! entirely a host concern.

use crate::cpu::Cpu;
use vstd::prelude::*;

verus! {

/// An RGB color, one byte per channel.
#[derive(Clone, Copy, PartialEq, Eq, Structural, Debug)]
pub struct Rgb {
    pub r: u8,
    pub g: u8,
    pub b: u8,
}

/// First address of the screen region.
pub const SCREEN_BASE: u16 = 0x200;

/// Number of screen cells (32 by 32).
pub const SCREEN_CELLS: usize = 1024;

/// The palette: which RGB color a color-index byte stands for.
pub open spec fn spec_color(byte: u8) -> Rgb {
    if byte == 0 {
        Rgb { r: 0, g: 0, b: 0 }
    } else if byte == 1 {
        Rgb { r: 255, g: 255, b: 255 }
    } else if byte == 2 || byte == 9 {
        Rgb { r: 128, g: 128, b: 128 }
    } else if byte == 3 || byte == 10 {
        Rgb { r: 255, g: 0, b: 0 }
    } else if byte == 4 || byte == 11 {
        Rgb { r: 0, g: 255, b: 0 }
    } else if byte == 5 || byte == 12 {
        Rgb { r: 0, g: 0, b: 255 }
    } else if byte == 6 || byte == 13 {
        Rgb { r: 255, g: 0, b: 255 }
    } else if byte == 7 || byte == 14 {
        Rgb { r: 255, g: 255, b: 0 }
    } else {
        Rgb { r: 0, g: 255, b: 255 }
    }
}

/// The byte at position `j` of the rendered frame: three bytes per cell,
/// in R, G, B order, cells taken in address order from the screen region.
pub open spec fn spec_frame_byte(cpu: Cpu, j: int) -> u8 {
    let c = spec_color(cpu.read8((0x200 + j / 3) as u16));
    if j % 3 == 0 {
        c.r
    } else if j % 3 == 1 {
        c.g
    } else {
        c.b
    }
}

/// Maps a color-index byte to its RGB color.
pub fn color(byte: u8) -> (c: Rgb)
    ensures
        c == spec_color(byte),
{
    if byte == 0 {
        Rgb { r: 0, g: 0, b: 0 }
    } else if byte == 1 {
        Rgb { r: 255, g: 255, b: 255 }
    } else if byte == 2 || byte == 9 {
        Rgb { r: 128, g: 128, b: 128 }
    } else if byte == 3 || byte == 10 {
        Rgb { r: 255, g: 0, b: 0 }
    } else if byte == 4 || byte == 11 {
        Rgb { r: 0, g: 255, b: 0 }
    } else if byte == 5 || byte == 12 {
        Rgb { r: 0, g: 0, b: 255 }
    } else if byte == 6 || byte == 13 {
        Rgb { r: 255, g: 0, b: 255 }
    } else if byte == 7 || byte == 14 {
        Rgb { r: 255, g: 255, b: 0 }
    } else {
        Rgb { r: 0, g: 255, b: 255 }
    }
}

/// Renders the screen region into `frame`, one RGB triple per cell, and
/// reports whether any frame byte actually changed (so a host can skip
/// presenting an unchanged picture).  Bytes of an unchanged cell are left
/// untouched.
pub fn read_screen_state(cpu: &Cpu, frame: &mut [u8; 3072]) -> (update: bool)
    ensures
        forall|j: int| 0 <= j < 3072 ==> final(frame)@[j] == spec_frame_byte(*cpu, j),
        update <==> exists|j: int| 0 <= j < 3072 && final(frame)@[j] != old(frame)@[j],
{
    let mut update = false;
    let mut i: usize = 0;
    while i < 1024
        invariant
            i <= 1024,
            forall|j: int| 0 <= j < 3 * i ==> frame@[j] == spec_frame_byte(*cpu, j),
            forall|j: int| 3 * i <= j < 3072 ==> frame@[j] == old(frame)@[j],
            update <==> exists|j: int| 0 <= j < 3 * i && frame@[j] != old(frame)@[j],
        decreases 1024 - i,
    {
        let color_idx = cpu.mem_read(0x200 + (i as u16));
        let c = color(color_idx);
        let base = 3 * i;
        if frame[base] != c.r || frame[base + 1] != c.g || frame[base + 2] != c.b {
            frame[base] = c.r;
            frame[base + 1] = c.g;
            frame[base + 2] = c.b;
            update = true;
        }
        assert(frame@[3 * (i as int)] == spec_frame_byte(*cpu, 3 * (i as int)));
        assert(frame@[3 * (i as int) + 1] == spec_frame_byte(*cpu, 3 * (i as int) + 1));
        assert(frame@[3 * (i as int) + 2] == spec_frame_byte(*cpu, 3 * (i as int) + 2));
        i = i + 1;
    }
    update
}

} // verus!
