//! The object table and its scan at the start of a line.
use vstd::prelude::*;

verus! {

/// An entry of the object table.
#[derive(Debug, Clone, Copy, PartialEq, Eq, Structural)]
pub struct Obj {
    /// Top of the object on the screen, plus 16.
    pub y: u8,
    /// Left of the object on the screen, plus 8.
    pub x: u8,
    pub tile: u8,
    pub attr: u8,
}

impl Default for Obj {
    fn default() -> (r: Obj)
        ensures
            r == (Obj { y: 0, x: 0, tile: 0, attr: 0 }),
    {
        Obj { y: 0, x: 0, tile: 0, attr: 0 }
    }
}

/// Height of the objects: 16 with bit 2 of `lcdc`, else 8.
pub open spec fn obj_height(lcdc: u8) -> int {
    if lcdc & 4 != 0 {
        16
    } else {
        8
    }
}

/// Entry `o` of the table `oam`.  A tall object starts at an even tile.
pub open spec fn obj_at(oam: [u8; 160], o: int, lcdc: u8) -> Obj {
    Obj {
        y: oam[4 * o],
        x: oam[4 * o + 1],
        tile: if lcdc & 4 != 0 {
            oam[4 * o + 2] & 0xfe
        } else {
            oam[4 * o + 2]
        },
        attr: oam[4 * o + 3],
    }
}

/// Whether line `ly` crosses an object with top `y`: `y - 16 <= ly < y - 16 + height`.
pub open spec fn on_line(y: u8, ly: u8, lcdc: u8) -> bool {
    y - 16 <= ly < y - 16 + obj_height(lcdc)
}

/// The objects of a line: `count` of them in `list`, ordered by `x`, those of equal
/// `x` in the order of the table.
pub struct LineObjects {
    pub list: [Obj; 10],
    pub count: usize,
}

impl LineObjects {
    pub open spec fn wf(self) -> bool {
        self.count <= 10
    }

    /// No objects: every place of the list holds an object of zeros.
    pub open spec fn none() -> LineObjects {
        LineObjects {
            list: vstd::array::spec_array_fill_for_copy_type::<Obj, 10>(
                Obj { y: 0, x: 0, tile: 0, attr: 0 },
            ),
            count: 0,
        }
    }

    /// Whether the objects are in order of `x`.
    pub open spec fn sorted(self) -> bool {
        forall|i: int, j: int| 0 <= i <= j < self.count ==> self.list[i].x <= self.list[j].x
    }

    /// The list after the objects from place `i` down that lie right of `obj` moved
    /// up one place and `obj` took the place that this freed.
    pub open spec fn placed(list: [Obj; 10], i: int, obj: Obj) -> [Obj; 10]
        decreases i,
    {
        if 0 < i < 10 && list[i - 1].x > obj.x {
            Self::placed(vstd::array::spec_array_update(list, i, list[i - 1]), i - 1, obj)
        } else {
            vstd::array::spec_array_update(list, i, obj)
        }
    }

    /// The objects with `obj` added behind those of the same or a smaller `x`.
    pub open spec fn inserted(self, obj: Obj) -> LineObjects {
        LineObjects {
            list: Self::placed(self.list, self.count as int, obj),
            count: (self.count + 1) as usize,
        }
    }

    /// The objects after the entries of the table from `o` on were looked at: each
    /// that line `ly` crosses is added, until there are ten.
    pub open spec fn scanned_from(self, oam: [u8; 160], ly: u8, lcdc: u8, o: int) -> LineObjects
        decreases 40 - o,
    {
        if o >= 40 || o < 0 || self.count >= 10 {
            self
        } else if on_line(oam[4 * o], ly, lcdc) {
            self.inserted(obj_at(oam, o, lcdc)).scanned_from(oam, ly, lcdc, o + 1)
        } else {
            self.scanned_from(oam, ly, lcdc, o + 1)
        }
    }

    /// The objects of line `ly`: none if bit 1 of `lcdc` switches objects off, else
    /// the first ten of the table that the line crosses.
    pub open spec fn scanned(self, oam: [u8; 160], ly: u8, lcdc: u8) -> LineObjects {
        let empty = LineObjects { list: self.list, count: 0 };
        if lcdc & 2 != 0 {
            empty.scanned_from(oam, ly, lcdc, 0)
        } else {
            empty
        }
    }

    /// Placing an object keeps every place outside `[lo, i]`, keeps the order, and
    /// puts nothing in `[lo, i]` but what was there or `obj`.
    pub proof fn lemma_placed(list: [Obj; 10], count: int, i: int, obj: Obj)
        requires
            0 <= i <= count < 10,
            forall|a: int, b: int| 0 <= a <= b < i ==> list[a].x <= list[b].x,
            forall|a: int, b: int| i < a <= b <= count ==> list[a].x <= list[b].x,
            forall|a: int| i < a <= count ==> obj.x < list[a].x,
            forall|a: int, b: int| 0 <= a < i && i < b <= count ==> list[a].x <= list[b].x,
        ensures
            forall|a: int, b: int|
                0 <= a <= b <= count ==> (#[trigger] Self::placed(list, i, obj)[a]).x <= (
                #[trigger] Self::placed(list, i, obj)[b]).x,
        decreases i,
    {
        if 0 < i && list[i - 1].x > obj.x {
            let moved = vstd::array::spec_array_update(list, i, list[i - 1]);
            assert(Self::placed(list, i, obj) == Self::placed(moved, i - 1, obj));
            assert forall|a: int| 0 <= a <= count implies moved[a] == (if a == i {
                list[i - 1]
            } else {
                list[a]
            }) by {}
            Self::lemma_placed(moved, count, i - 1, obj);
        } else {
            let done = vstd::array::spec_array_update(list, i, obj);
            assert(Self::placed(list, i, obj) == done);
            assert forall|a: int| 0 <= a <= count implies done[a] == (if a == i {
                obj
            } else {
                list[a]
            }) by {}
            assert forall|a: int, b: int| 0 <= a <= b <= count implies (#[trigger] done[a]).x <= (
            #[trigger] done[b]).x by {
                if a < i && b == i {
                    assert(list[a].x <= list[i - 1].x);
                }
            }
        }
    }

    /// Adding an object to objects in order leaves them in order.
    pub proof fn lemma_inserted_sorted(self, obj: Obj)
        requires
            self.count < 10,
            self.sorted(),
        ensures
            self.inserted(obj).sorted(),
            self.inserted(obj).wf(),
    {
        Self::lemma_placed(self.list, self.count as int, self.count as int, obj);
    }

    /// The scan yields at most ten objects, in order of `x`.
    pub proof fn lemma_scanned_from(self, oam: [u8; 160], ly: u8, lcdc: u8, o: int)
        requires
            self.wf(),
            self.sorted(),
        ensures
            self.scanned_from(oam, ly, lcdc, o).wf(),
            self.scanned_from(oam, ly, lcdc, o).sorted(),
        decreases 40 - o,
    {
        if o >= 40 || o < 0 || self.count >= 10 {
        } else if on_line(oam[4 * o], ly, lcdc) {
            self.lemma_inserted_sorted(obj_at(oam, o, lcdc));
            self.inserted(obj_at(oam, o, lcdc)).lemma_scanned_from(oam, ly, lcdc, o + 1);
        } else {
            self.lemma_scanned_from(oam, ly, lcdc, o + 1);
        }
    }

    /// No objects.
    pub fn new() -> (r: LineObjects)
        ensures
            r == LineObjects::none(),
            r.wf(),
            r.sorted(),
    {
        LineObjects { list: [Obj { y: 0, x: 0, tile: 0, attr: 0 };10], count: 0 }
    }

    /// Adds `obj` behind the objects of the same or a smaller `x`.
    pub fn insert(&mut self, obj: Obj)
        requires
            old(self).count < 10,
        ensures
            *final(self) == old(self).inserted(obj),
    {
        let mut i = self.count;
        while i > 0 && self.list[i - 1].x > obj.x
            invariant
                i <= self.count < 10,
                self.count == old(self).count,
                Self::placed(self.list, i as int, obj) == Self::placed(
                    old(self).list,
                    old(self).count as int,
                    obj,
                ),
            decreases i,
        {
            self.list[i] = self.list[i - 1];
            i = i - 1;
        }
        self.list[i] = obj;
        self.count = self.count + 1;
    }

    /// Collects the objects of line `ly` from the table `oam`.
    pub fn scan(&mut self, oam: &[u8; 160], ly: u8, lcdc: u8)
        ensures
            *final(self) == old(self).scanned(*oam, ly, lcdc),
            final(self).wf(),
            final(self).sorted(),
    {
        self.count = 0;
        let ghost start = *self;
        proof {
            if lcdc & 2 != 0 {
                start.lemma_scanned_from(*oam, ly, lcdc, 0);
            }
        }
        if lcdc & 2 == 0 {
            return ;
        }
        let tall = lcdc & 4 != 0;
        let height: u16 = if tall {
            16
        } else {
            8
        };
        let mut o: usize = 0;
        while o < 40 && self.count < 10
            invariant
                o <= 40,
                self.count <= 10,
                tall == (lcdc & 4 != 0),
                height == obj_height(lcdc),
                self.scanned_from(*oam, ly, lcdc, o as int) == start.scanned_from(*oam, ly, lcdc, 0),
            decreases 40 - o,
        {
            let y = oam[4 * o];
            let line = ly as u16 + 16;
            if y as u16 <= line && line < y as u16 + height {
                let tile = oam[4 * o + 2];
                let obj = Obj {
                    y,
                    x: oam[4 * o + 1],
                    tile: if tall {
                        tile & 0xfe
                    } else {
                        tile
                    },
                    attr: oam[4 * o + 3],
                };
                self.insert(obj);
            }
            o = o + 1;
        }
    }
}

} // verus!
