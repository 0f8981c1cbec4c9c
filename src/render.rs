use vstd::prelude::*;
use crate::cpu::Cpu;
use crate::display::rows_view;

verus! {

/// RGBA colour of a lit pixel.
pub const COLOR_ON: [u8; 4] = [0, 255, 159, 255];

/// RGBA colour of a dark pixel.
pub const COLOR_OFF: [u8; 4] = [10, 14, 39, 255];

/// Byte `k` of the RGBA image of a screen: pixel `k / 4`, read row by row, and
/// channel `k % 4` of its colour.
pub open spec fn frame_byte(screen: Seq<Seq<u8>>, k: int) -> u8 {
    let p = k / 4;
    if screen[p / 64][p % 64] != 0 {
        COLOR_ON@[k % 4]
    } else {
        COLOR_OFF@[k % 4]
    }
}

/// Paints the screen into an RGBA frame, four bytes per pixel, row by row.
/// Bytes after the last whole pixel are left as they were.
pub fn render_display(cpu: &Cpu, frame: &mut [u8])
    requires
        cpu.wf(),
        old(frame)@.len() / 4 <= 2048,
    ensures
        final(frame)@.len() == old(frame)@.len(),
        forall|k: int|
            0 <= k < old(frame)@.len() / 4 * 4 ==> #[trigger] final(frame)@[k] == frame_byte(
                cpu@.screen,
                k,
            ),
        forall|k: int|
            old(frame)@.len() / 4 * 4 <= k < old(frame)@.len() ==> #[trigger] final(frame)@[k]
                == old(frame)@[k],
{
    let display = cpu.get_display();
    let pixels = frame.len() / 4;
    let mut i: usize = 0;
    while i < pixels
        invariant
            pixels == old(frame)@.len() / 4,
            pixels <= 2048,
            i <= pixels,
            rows_view(display) == cpu@.screen,
            cpu@.wf(),
            frame@.len() == old(frame)@.len(),
            forall|k: int| 0 <= k < i * 4 ==> #[trigger] frame@[k] == frame_byte(cpu@.screen, k),
            forall|k: int| i * 4 <= k < frame@.len() ==> #[trigger] frame@[k] == old(frame)@[k],
        decreases pixels - i,
    {
        let x = i % 64;
        let y = i / 64;
        let is_on = display[y][x] != 0;
        let color = if is_on {
            COLOR_ON
        } else {
            COLOR_OFF
        };
        let mut c: usize = 0;
        while c < 4
            invariant
                pixels == old(frame)@.len() / 4,
                i < pixels <= 2048,
                c <= 4,
                x == i % 64,
                y == i / 64,
                is_on == (cpu@.screen[y as int][x as int] != 0),
                color@ == if is_on { COLOR_ON@ } else { COLOR_OFF@ },
                frame@.len() == old(frame)@.len(),
                forall|k: int| 0 <= k < i * 4 + c ==> #[trigger] frame@[k] == frame_byte(cpu@.screen, k),
                forall|k: int| i * 4 + c <= k < frame@.len() ==> #[trigger] frame@[k] == old(frame)@[k],
            decreases 4 - c,
        {
            frame[4 * i + c] = color[c];
            proof {
                let k = 4 * i + c;
                assert(k / 4 == i as int);
                assert(k % 4 == c as int);
            }
            c = c + 1;
        }
        i = i + 1;
    }
}

} // verus!
