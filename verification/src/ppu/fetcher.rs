//! The pixel fetcher: it reads tiles from video memory into a background queue and
//! an object queue, and hands out the pixels of a line one by one.
use crate::fifo::FifoQueue;
use crate::ppu::oam::{LineObjects, Obj};
use crate::ppu::pixels::{
    compose, compose_spec, get_tiledata_addr, pixel_color, pixel_color_spec, tiledata_addr_spec,
    tilemap_base, tilemap_base_spec, FifoPixel,
};
use vstd::prelude::*;

verus! {

/// The registers that the fetcher reads.
#[derive(Debug, Clone, Copy, PartialEq, Eq, Structural)]
pub struct Regs {
    pub lcdc: u8,
    pub ly: u8,
    pub scx: u8,
    pub scy: u8,
    pub wx: u8,
    pub wy: u8,
    pub bgp: u8,
    pub obp0: u8,
    pub obp1: u8,
}

/// What the fetcher does next.  Each of the first three steps takes two dots.
#[derive(Debug, Clone, Copy, PartialEq, Eq, Structural)]
pub enum FetcherState {
    /// Read the tile number.
    GetTile,
    /// Read the low bit plane of row `1` of tile `0`.
    GetTileDataLo(u8, u8),
    /// Read the high bit plane of row `1` of tile `0`; the low plane is `2`.
    GetTileDataHi(u8, u8, u8),
    /// Put the row with low plane `0` and high plane `1` into a queue.
    Push(u8, u8),
}

/// The pixel fetcher.
pub struct PixelFetcher {
    /// Pixels of the line that were handed out.
    pub lx: u8,
    /// Pixels that are still to be dropped at the left edge.
    pub discard_counter: u8,
    pub bg_fifo: FifoQueue<FifoPixel, 8>,
    pub obj_fifo: FifoQueue<FifoPixel, 8>,
    pub state: FetcherState,
    /// Dots that the current step still takes.
    pub state_counter: u8,
    /// Background tiles fetched on this line, less one.
    pub x: u8,
    /// Whether the window may start on this line.
    pub can_window: bool,
    pub in_window: bool,
    /// Window tiles fetched on this line.
    pub wlx: u8,
    /// Lines of the window drawn in this frame.
    pub wly: u8,
    /// The object that is being fetched.
    pub sprite_mode: Option<Obj>,
    /// The object that is fetched next.
    pub next_sprite_mode: Option<Obj>,
    /// How many objects of the line were met.
    pub obj_next: usize,
    /// The step of the background that an object interrupted, to be taken up again.
    pub paused_state: FetcherState,
    /// The dots that the interrupted step still took.
    pub paused_counter: u8,
}

/// The row of an object that line `ly` shows, counted from the top of the object as
/// it is drawn: bit 6 of the attributes turns the object upside down.
pub open spec fn sprite_line(ob: Obj, r: Regs) -> u8 {
    let height: int = if r.lcdc & 4 != 0 {
        16
    } else {
        8
    };
    let line = ((r.ly + 16 - ob.y) % 256) % height;
    if ob.attr & 0x40 != 0 {
        (height - 1 - line) as u8
    } else {
        line as u8
    }
}

/// The tile that holds that row: the second tile of a tall object from row 8 on.
pub open spec fn sprite_tile(ob: Obj, r: Regs) -> u8 {
    if sprite_line(ob, r) >= 8 {
        ((ob.tile + 1) % 256) as u8
    } else {
        ob.tile
    }
}

/// The palette register of an object: bit 4 of the attributes selects the second.
pub open spec fn sprite_palette(ob: Obj, r: Regs) -> u8 {
    if ob.attr & 0x10 != 0 {
        r.obp1
    } else {
        r.obp0
    }
}

/// Pixel `k` of an object row with bit planes `lo` and `hi`: bit 5 of the
/// attributes mirrors the row, bit 7 lets the background go in front.
pub open spec fn sprite_pixel(ob: Obj, r: Regs, lo: u8, hi: u8, k: u8) -> FifoPixel {
    FifoPixel {
        color: pixel_color_spec(lo, hi, k, ob.attr & 0x20 != 0),
        bg_priority: ob.attr & 0x80 != 0,
        palette: sprite_palette(ob, r),
    }
}

/// Pixel `k` of a background row with bit planes `lo` and `hi`.
pub open spec fn bg_pixel(lo: u8, hi: u8, k: u8) -> FifoPixel {
    FifoPixel { color: pixel_color_spec(lo, hi, k, false), bg_priority: false, palette: 0 }
}

/// The queue `q` after the pixels `k..8` of a background row were pushed.
pub open spec fn bg_row(q: FifoQueue<FifoPixel, 8>, lo: u8, hi: u8, k: int) -> FifoQueue<
    FifoPixel,
    8,
>
    decreases 8 - k,
{
    if k >= 8 || k < 0 {
        q
    } else {
        bg_row(q.push_spec(bg_pixel(lo, hi, k as u8)), lo, hi, k + 1)
    }
}

/// The object queue `q` after the pixels `skip + k..8` of an object row were laid
/// over it from place `k` on: over a pixel of the queue only where the new pixel is
/// not transparent, behind the queue always.
pub open spec fn obj_row(
    q: FifoQueue<FifoPixel, 8>,
    ob: Obj,
    r: Regs,
    lo: u8,
    hi: u8,
    skip: int,
    k: int,
) -> FifoQueue<FifoPixel, 8>
    decreases 8 - k,
{
    if k < 0 || skip < 0 || skip + k >= 8 {
        q
    } else {
        let px = sprite_pixel(ob, r, lo, hi, (skip + k) as u8);
        let q1 = if k >= q.length {
            q.push_spec(px)
        } else if px.color != 0 {
            q.set_spec(k, px)
        } else {
            q
        };
        obj_row(q1, ob, r, lo, hi, skip, k + 1)
    }
}

/// The row of a background tile that line `ly` shows under vertical scroll `scy`.
pub open spec fn bg_row_spec(r: Regs) -> u8 {
    (((r.scy + r.ly) % 256) % 8) as u8
}

/// The row of a background tile that the line shows.
pub fn bg_row_of(r: Regs) -> (row: u8)
    ensures
        row == bg_row_spec(r),
{
    r.scy.wrapping_add(r.ly) % 8
}

impl PixelFetcher {
    pub open spec fn wf(self) -> bool {
        &&& self.bg_fifo.wf()
        &&& self.obj_fifo.wf()
        &&& self.lx <= 160
        &&& self.state_counter <= 1
        &&& self.paused_counter <= 1
    }

    /// An empty queue of pixels.
    pub open spec fn empty_queue() -> FifoQueue<FifoPixel, 8> {
        FifoQueue {
            queue: vstd::array::spec_array_fill_for_copy_type::<FifoPixel, 8>(
                FifoPixel { color: 0, bg_priority: false, palette: 0 },
            ),
            push_head: 0,
            pop_head: 0,
            length: 0,
        }
    }

    /// A fetcher at rest: empty queues, everything else zero.
    pub open spec fn at_rest() -> PixelFetcher {
        PixelFetcher {
            lx: 0,
            discard_counter: 0,
            bg_fifo: Self::empty_queue(),
            obj_fifo: Self::empty_queue(),
            state: FetcherState::GetTile,
            state_counter: 0,
            x: 0,
            can_window: false,
            in_window: false,
            wlx: 0,
            wly: 0,
            sprite_mode: None,
            next_sprite_mode: None,
            obj_next: 0,
            paused_state: FetcherState::GetTile,
            paused_counter: 0,
        }
    }

    /// Whether no object is being fetched or waiting to be.
    pub open spec fn sprite_idle(self) -> bool {
        self.sprite_mode is None && self.next_sprite_mode is None
    }

    /// The fetcher at the start of the drawing of a line.  Besides the fine scroll
    /// `scx % 8` a whole tile is dropped at the left: the first tile fetched lies
    /// left of the screen.
    pub open spec fn reset_scanline_spec(self, r: Regs) -> PixelFetcher {
        PixelFetcher {
            lx: 0,
            discard_counter: (r.scx % 8 + 8) as u8,
            bg_fifo: self.bg_fifo.clear_spec(),
            obj_fifo: self.obj_fifo.clear_spec(),
            state: FetcherState::GetTile,
            state_counter: 0,
            x: 255,
            can_window: r.lcdc & 0x20 != 0 && r.wx <= 166 && r.wy <= r.ly,
            in_window: false,
            wlx: 0,
            wly: self.wly,
            sprite_mode: None,
            next_sprite_mode: None,
            obj_next: 0,
            paused_state: FetcherState::GetTile,
            paused_counter: 0,
        }
    }

    /// Whether the window starts now: it may on this line, has not yet, its left
    /// edge `wx - 7` is reached, and no object is in the way.
    pub open spec fn window_starts(self, r: Regs) -> bool {
        self.can_window && !self.in_window && self.lx + 7 >= r.wx && self.sprite_idle()
    }

    /// The fetcher after the window was given its chance to start: the background
    /// queue is cleared and the fetcher turns to the first tile of the window.
    pub open spec fn window_check_spec(self, r: Regs) -> PixelFetcher {
        if self.window_starts(r) {
            PixelFetcher {
                in_window: true,
                bg_fifo: self.bg_fifo.clear_spec(),
                state: FetcherState::GetTile,
                state_counter: 0,
                discard_counter: if r.wx < 7 {
                    (7 - r.wx) as u8
                } else {
                    0
                },
                ..self
            }
        } else {
            self
        }
    }

    /// Place in video memory of the number of the next background tile.
    pub open spec fn bg_map_addr(self, r: Regs) -> int {
        let y = (r.scy + r.ly) % 256;
        let tx = (r.scx / 8 + self.x) % 256;
        tilemap_base_spec(r.lcdc, false) + tx % 32 + (y / 8) * 32
    }

    /// Place in video memory of the number of the next window tile.
    pub open spec fn window_map_addr(self, r: Regs) -> int {
        tilemap_base_spec(r.lcdc, true) + self.wlx % 32 + (self.wly / 8) * 32
    }

    /// The step that reads the tile number.  An object that waits is taken up;
    /// else the next tile of the background, or of the window, is read from the map.
    pub open spec fn get_tile_spec(self, r: Regs, vram: [u8; 8192]) -> PixelFetcher {
        let f = PixelFetcher {
            state_counter: 1,
            sprite_mode: self.next_sprite_mode,
            next_sprite_mode: None,
            ..self
        };
        if self.next_sprite_mode is Some {
            let ob = self.next_sprite_mode->0;
            PixelFetcher {
                state: FetcherState::GetTileDataLo(sprite_tile(ob, r), sprite_line(ob, r) % 8),
                ..f
            }
        } else if !self.in_window {
            PixelFetcher {
                x: ((self.x + 1) % 256) as u8,
                state: FetcherState::GetTileDataLo(vram[self.bg_map_addr(r)], bg_row_spec(r)),
                ..f
            }
        } else {
            PixelFetcher {
                wlx: ((self.wlx + 1) % 256) as u8,
                state: FetcherState::GetTileDataLo(vram[self.window_map_addr(r)], self.wly % 8),
                ..f
            }
        }
    }

    /// Place in video memory of row `row` of tile `tile`: objects take their tiles
    /// from `0000`.
    pub open spec fn row_addr(self, r: Regs, tile: u8, row: u8) -> int {
        (if self.sprite_mode is Some {
            tile * 16
        } else {
            tiledata_addr_spec(r.lcdc, tile)
        }) + (row % 8) * 2
    }

    /// The steps that read the two bit planes of a row.
    pub open spec fn get_data_spec(self, r: Regs, vram: [u8; 8192]) -> PixelFetcher {
        match self.state {
            FetcherState::GetTileDataLo(tile, row) => PixelFetcher {
                state_counter: 1,
                state: FetcherState::GetTileDataHi(tile, row, vram[self.row_addr(r, tile, row)]),
                ..self
            },
            FetcherState::GetTileDataHi(tile, row, lo) => PixelFetcher {
                state_counter: 1,
                state: FetcherState::Push(lo, vram[self.row_addr(r, tile, row) + 1]),
                ..self
            },
            _ => self,
        }
    }

    /// How many pixels of an object with left edge `x` lie left of pixel `lx`.
    pub open spec fn hidden(self, ob: Obj) -> int {
        if ob.x >= self.lx + 8 {
            0
        } else {
            self.lx + 8 - ob.x
        }
    }

    /// The step that puts a row into a queue.  A background row waits until the
    /// background queue is empty; an object row is laid over the object queue, and
    /// the background is taken up where the object interrupted it.
    pub open spec fn push_spec(self, r: Regs, lo: u8, hi: u8) -> PixelFetcher {
        if self.sprite_mode is Some {
            let ob = self.sprite_mode->0;
            PixelFetcher {
                obj_fifo: obj_row(self.obj_fifo, ob, r, lo, hi, self.hidden(ob), 0),
                state: self.paused_state,
                state_counter: self.paused_counter,
                sprite_mode: None,
                ..self
            }
        } else if self.bg_fifo.length == 0 {
            PixelFetcher {
                bg_fifo: bg_row(self.bg_fifo, lo, hi, 0),
                state: FetcherState::GetTile,
                ..self
            }
        } else {
            self
        }
    }

    /// One dot of the fetcher.
    pub open spec fn fetch_spec(self, r: Regs, vram: [u8; 8192]) -> PixelFetcher {
        if self.state_counter != 0 {
            PixelFetcher { state_counter: (self.state_counter - 1) as u8, ..self }
        } else {
            match self.state {
                FetcherState::GetTile => self.get_tile_spec(r, vram),
                FetcherState::Push(lo, hi) => self.push_spec(r, lo, hi),
                _ => self.get_data_spec(r, vram),
            }
        }
    }

    /// Whether the next object of the line is met: its left edge is at most eight
    /// pixels ahead.
    pub open spec fn meets_object(self, objs: LineObjects) -> bool {
        self.discard_counter == 0 && self.obj_next < objs.count && self.obj_next < 10
            && objs.list[self.obj_next as int].x <= self.lx + 8
    }

    /// The fetcher after it met the next object: the object waits to be fetched, and
    /// the step of the background that is under way is set aside.
    pub open spec fn met_object_spec(self, objs: LineObjects) -> PixelFetcher {
        PixelFetcher {
            next_sprite_mode: Some(objs.list[self.obj_next as int]),
            obj_next: (self.obj_next + 1) as usize,
            paused_state: self.state,
            paused_counter: self.state_counter,
            state: FetcherState::GetTile,
            state_counter: 0,
            ..self
        }
    }

    /// The pixel that the fetcher hands out in this dot, if any, and the fetcher
    /// after it.  While an object is fetched nothing is handed out.  Else the next
    /// object is looked for; else a pixel leaves the background queue and is either
    /// dropped at the left edge or composed with the pixel that leaves the object
    /// queue.
    pub open spec fn emit_spec(self, r: Regs, objs: LineObjects) -> (PixelFetcher, Option<u8>) {
        if !self.sprite_idle() {
            (self, None)
        } else if self.meets_object(objs) {
            (self.met_object_spec(objs), None)
        } else if self.bg_fifo.length == 0 || self.lx >= 160 {
            (self, None)
        } else if self.discard_counter > 0 {
            (
                PixelFetcher {
                    bg_fifo: self.bg_fifo.pop_spec(),
                    discard_counter: (self.discard_counter - 1) as u8,
                    ..self
                },
                None,
            )
        } else {
            let bg = self.bg_fifo@[0];
            let ob = if self.obj_fifo.length == 0 {
                None
            } else {
                Some(self.obj_fifo@[0])
            };
            (
                PixelFetcher {
                    bg_fifo: self.bg_fifo.pop_spec(),
                    obj_fifo: if self.obj_fifo.length == 0 {
                        self.obj_fifo
                    } else {
                        self.obj_fifo.pop_spec()
                    },
                    lx: (self.lx + 1) as u8,
                    ..self
                },
                Some(compose_spec(bg, ob, r.lcdc, r.bgp)),
            )
        }
    }

    /// The fetcher at the end of a line: a line that showed the window counts as a
    /// line of the window.
    pub open spec fn end_line_spec(self) -> PixelFetcher {
        if self.in_window {
            PixelFetcher { wly: ((self.wly + 1) % 256) as u8, ..self }
        } else {
            self
        }
    }

    /// A fetcher at rest.
    pub fn new() -> (f: PixelFetcher)
        ensures
            f.wf(),
            f == PixelFetcher::at_rest(),
    {
        let bg_fifo: FifoQueue<FifoPixel, 8> = FifoQueue::new();
        let obj_fifo: FifoQueue<FifoPixel, 8> = FifoQueue::new();
        proof {
            let zero = FifoPixel { color: 0, bg_priority: false, palette: 0 };
            assert forall|i: int| 0 <= i < 8 implies bg_fifo.queue[i] == zero
                && obj_fifo.queue[i] == zero by {
                assert(call_ensures(FifoPixel::default, (), bg_fifo.queue[i]));
                assert(call_ensures(FifoPixel::default, (), obj_fifo.queue[i]));
            }
            assert(bg_fifo.queue =~= Self::empty_queue().queue);
            assert(obj_fifo.queue =~= Self::empty_queue().queue);
        }
        PixelFetcher {
            lx: 0,
            discard_counter: 0,
            bg_fifo,
            obj_fifo,
            state: FetcherState::GetTile,
            state_counter: 0,
            x: 0,
            can_window: false,
            in_window: false,
            wlx: 0,
            wly: 0,
            sprite_mode: None,
            next_sprite_mode: None,
            obj_next: 0,
            paused_state: FetcherState::GetTile,
            paused_counter: 0,
        }
    }

    /// Prepares the fetcher for the drawing of a line.
    pub fn reset_scanline(&mut self, r: Regs)
        requires
            old(self).wf(),
        ensures
            final(self).wf(),
            *final(self) == old(self).reset_scanline_spec(r),
    {
        self.bg_fifo.clear();
        self.obj_fifo.clear();
        self.lx = 0;
        self.wlx = 0;
        self.x = 255;
        self.can_window = r.lcdc & 0x20 != 0 && r.wx <= 166 && r.wy <= r.ly;
        self.in_window = false;
        self.discard_counter = r.scx % 8 + 8;
        self.state = FetcherState::GetTile;
        self.state_counter = 0;
        self.sprite_mode = None;
        self.next_sprite_mode = None;
        self.obj_next = 0;
        self.paused_state = FetcherState::GetTile;
        self.paused_counter = 0;
    }

    /// Lets the window start if its left edge is reached.
    pub fn window_check(&mut self, r: Regs)
        requires
            old(self).wf(),
        ensures
            final(self).wf(),
            *final(self) == old(self).window_check_spec(r),
    {
        if self.can_window && !self.in_window && self.lx as u16 + 7 >= r.wx as u16
            && self.sprite_mode.is_none() && self.next_sprite_mode.is_none() {
            self.in_window = true;
            self.bg_fifo.clear();
            self.state = FetcherState::GetTile;
            self.state_counter = 0;
            self.discard_counter = if r.wx < 7 {
                7 - r.wx
            } else {
                0
            };
        }
    }

    /// The row of an object that the line shows, and the tile that holds it.
    fn sprite_row(ob: Obj, r: Regs) -> (t: (u8, u8))
        ensures
            t.0 == sprite_tile(ob, r),
            t.1 == sprite_line(ob, r),
            t.1 < 16,
    {
        let height: u8 = if r.lcdc & 4 != 0 {
            16
        } else {
            8
        };
        let line = r.ly.wrapping_add(16).wrapping_sub(ob.y) % height;
        let line = if ob.attr & 0x40 != 0 {
            height - 1 - line
        } else {
            line
        };
        let tile = if line >= 8 {
            ob.tile.wrapping_add(1)
        } else {
            ob.tile
        };
        (tile, line)
    }

    /// Place in video memory of the number of the next background tile.
    fn bg_map_index(&self, r: Regs) -> (a: usize)
        ensures
            a == self.bg_map_addr(r),
            a < 8192,
    {
        let y = r.scy.wrapping_add(r.ly);
        let tx = (r.scx / 8).wrapping_add(self.x);
        tilemap_base(r.lcdc, false) + (tx % 32) as usize + (y / 8) as usize * 32
    }

    /// Place in video memory of the number of the next window tile.
    fn window_map_index(&self, r: Regs) -> (a: usize)
        ensures
            a == self.window_map_addr(r),
            a < 8192,
    {
        tilemap_base(r.lcdc, true) + (self.wlx % 32) as usize + (self.wly / 8) as usize * 32
    }

    /// The step that reads the tile number.
    fn get_tile(&mut self, r: Regs, vram: &[u8; 8192])
        requires
            old(self).wf(),
        ensures
            final(self).wf(),
            *final(self) == old(self).get_tile_spec(r, *vram),
    {
        self.state_counter = 1;
        self.sprite_mode = self.next_sprite_mode;
        self.next_sprite_mode = None;
        match self.sprite_mode {
            Some(ob) => {
                let (tile, line) = Self::sprite_row(ob, r);
                self.state = FetcherState::GetTileDataLo(tile, line % 8);
            },
            None => {
                if !self.in_window {
                    let addr = self.bg_map_index(r);
                    self.x = self.x.wrapping_add(1);
                    self.state = FetcherState::GetTileDataLo(vram[addr], bg_row_of(r));
                } else {
                    let addr = self.window_map_index(r);
                    self.state = FetcherState::GetTileDataLo(vram[addr], self.wly % 8);
                    self.wlx = self.wlx.wrapping_add(1);
                }
            },
        }
    }

    /// Place in video memory of a row of a tile.
    fn tile_row_addr(&self, r: Regs, tile: u8, row: u8) -> (a: usize)
        ensures
            a == self.row_addr(r, tile, row),
            a + 1 < 8192,
    {
        let base = if self.sprite_mode.is_some() {
            tile as usize * 16
        } else {
            get_tiledata_addr(r.lcdc, tile)
        };
        base + (row % 8) as usize * 2
    }

    /// The steps that read the two bit planes of a row.
    fn get_data(&mut self, r: Regs, vram: &[u8; 8192])
        requires
            old(self).wf(),
        ensures
            final(self).wf(),
            *final(self) == old(self).get_data_spec(r, *vram),
    {
        match self.state {
            FetcherState::GetTileDataLo(tile, row) => {
                let a = self.tile_row_addr(r, tile, row);
                self.state_counter = 1;
                self.state = FetcherState::GetTileDataHi(tile, row, vram[a]);
            },
            FetcherState::GetTileDataHi(tile, row, lo) => {
                let a = self.tile_row_addr(r, tile, row);
                self.state_counter = 1;
                self.state = FetcherState::Push(lo, vram[a + 1]);
            },
            _ => {},
        }
    }

    /// Pushes a background row into the empty background queue.
    fn push_bg_row(&mut self, lo: u8, hi: u8)
        requires
            old(self).wf(),
            old(self).bg_fifo.length == 0,
        ensures
            final(self).wf(),
            *final(self) == (PixelFetcher {
                bg_fifo: bg_row(old(self).bg_fifo, lo, hi, 0),
                ..*old(self)
            }),
    {
        let mut k: u8 = 0;
        while k < 8
            invariant
                k <= 8,
                self.wf(),
                self.bg_fifo.length == k,
                bg_row(self.bg_fifo, lo, hi, k as int) == bg_row(old(self).bg_fifo, lo, hi, 0),
                *self == (PixelFetcher { bg_fifo: self.bg_fifo, ..*old(self) }),
            decreases 8 - k,
        {
            let px = FifoPixel { color: pixel_color(lo, hi, k, false), bg_priority: false, palette: 0 };
            self.bg_fifo.push(px);
            k = k + 1;
        }
    }

    /// Lays an object row over the object queue.
    fn push_obj_row(&mut self, ob: Obj, r: Regs, lo: u8, hi: u8)
        requires
            old(self).wf(),
        ensures
            final(self).wf(),
            *final(self) == (PixelFetcher {
                obj_fifo: obj_row(old(self).obj_fifo, ob, r, lo, hi, old(self).hidden(ob), 0),
                ..*old(self)
            }),
    {
        let skip: u16 = if ob.x as u16 >= self.lx as u16 + 8 {
            0
        } else {
            self.lx as u16 + 8 - ob.x as u16
        };
        let flip = ob.attr & 0x20 != 0;
        let bg_priority = ob.attr & 0x80 != 0;
        let palette = if ob.attr & 0x10 != 0 {
            r.obp1
        } else {
            r.obp0
        };
        let mut k: u16 = 0;
        while skip + k < 8
            invariant
                k <= 8,
                skip == old(self).hidden(ob),
                flip == (ob.attr & 0x20 != 0),
                bg_priority == (ob.attr & 0x80 != 0),
                palette == sprite_palette(ob, r),
                self.wf(),
                self.obj_fifo.length <= 8,
                self.obj_fifo.length <= k || self.obj_fifo.length == old(self).obj_fifo.length,
                obj_row(self.obj_fifo, ob, r, lo, hi, skip as int, k as int) == obj_row(
                    old(self).obj_fifo,
                    ob,
                    r,
                    lo,
                    hi,
                    skip as int,
                    0,
                ),
                *self == (PixelFetcher { obj_fifo: self.obj_fifo, ..*old(self) }),
            decreases 8 - k,
        {
            let px = FifoPixel {
                color: pixel_color(lo, hi, (skip + k) as u8, flip),
                bg_priority,
                palette,
            };
            if k as usize >= self.obj_fifo.len() {
                self.obj_fifo.push(px);
            } else if px.color != 0 {
                let _ = self.obj_fifo.set_after_pop_head(k as usize, px);
            }
            k = k + 1;
        }
    }

    /// The step that puts a row into a queue.
    fn push_row(&mut self, r: Regs, lo: u8, hi: u8)
        requires
            old(self).wf(),
        ensures
            final(self).wf(),
            *final(self) == old(self).push_spec(r, lo, hi),
    {
        match self.sprite_mode {
            Some(ob) => {
                self.push_obj_row(ob, r, lo, hi);
                self.state = self.paused_state;
                self.state_counter = self.paused_counter;
                self.sprite_mode = None;
            },
            None => {
                if self.bg_fifo.is_empty() {
                    self.push_bg_row(lo, hi);
                    self.state = FetcherState::GetTile;
                }
            },
        }
    }

    /// One dot of the fetcher.
    pub fn fetch(&mut self, r: Regs, vram: &[u8; 8192])
        requires
            old(self).wf(),
        ensures
            final(self).wf(),
            *final(self) == old(self).fetch_spec(r, *vram),
    {
        if self.state_counter != 0 {
            self.state_counter = self.state_counter - 1;
            return ;
        }
        match self.state {
            FetcherState::GetTile => self.get_tile(r, vram),
            FetcherState::Push(lo, hi) => self.push_row(r, lo, hi),
            _ => self.get_data(r, vram),
        }
    }

    /// Takes up the next object of the line.
    fn meet_object(&mut self, objs: &LineObjects)
        requires
            old(self).wf(),
            old(self).obj_next < 10,
        ensures
            final(self).wf(),
            *final(self) == old(self).met_object_spec(*objs),
    {
        self.next_sprite_mode = Some(objs.list[self.obj_next]);
        self.obj_next = self.obj_next + 1;
        self.paused_state = self.state;
        self.paused_counter = self.state_counter;
        self.state = FetcherState::GetTile;
        self.state_counter = 0;
    }

    /// Hands out the pixel of this dot, if there is one.
    pub fn emit(&mut self, r: Regs, objs: &LineObjects) -> (px: Option<u8>)
        requires
            old(self).wf(),
        ensures
            final(self).wf(),
            (*final(self), px) == old(self).emit_spec(r, *objs),
            px matches Some(shade) ==> shade <= 3 && old(self).lx < 160 && final(self).lx == old(
                self,
            ).lx + 1,
            px is None ==> final(self).lx == old(self).lx,
    {
        if self.sprite_mode.is_some() || self.next_sprite_mode.is_some() {
            return None;
        }
        if self.discard_counter == 0 && self.obj_next < objs.count && self.obj_next < 10
            && objs.list[self.obj_next].x as u16 <= self.lx as u16 + 8 {
            self.meet_object(objs);
            return None;
        }
        if self.bg_fifo.is_empty() || self.lx >= 160 {
            return None;
        }
        let bg = match self.bg_fifo.pop() {
            Some(bg) => bg,
            None => {
                return None;
            },
        };
        if self.discard_counter > 0 {
            self.discard_counter = self.discard_counter - 1;
            return None;
        }
        let ob = self.obj_fifo.pop();
        self.lx = self.lx + 1;
        Some(compose(bg, ob, r.lcdc, r.bgp))
    }

    /// Ends the line.
    pub fn end_line(&mut self)
        ensures
            *final(self) == old(self).end_line_spec(),
            final(self).wf() == old(self).wf(),
    {
        if self.in_window {
            self.wly = self.wly.wrapping_add(1);
        }
    }
}

} // verus!
