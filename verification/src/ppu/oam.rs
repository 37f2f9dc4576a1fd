//! Object attribute memory: forty 4-byte sprite entries, and the per-line
//! selection of up to ten of them.
use vstd::prelude::*;
use crate::bits::lemma_byte;
use crate::bitpack::{pack8, pack_byte, lemma_pack8, lemma_unpack8};
use crate::words::lemma_word;
use arrayvec::ArrayVec;
use crate::ppu::registers::{Lcdc, b2u, bool_to_u8};

verus! {

pub const WIDTH: u8 = 160;
pub const OAM_OBJECTS: usize = 40;
pub const OBJECTS_PER_LINE: usize = 10;

#[verifier::external_type_specification]
#[verifier::external_body]
#[verifier::reject_recursive_types(T)]
pub struct ExArrayVec<T, const CAP: usize>(ArrayVec<T, CAP>);

/// The objects an `ArrayVec<OamObject, 10>` holds, in order.
pub uninterp spec fn object_list(v: ArrayVec<OamObject, 10>) -> Seq<OamObject>;

/// Calls `ArrayVec::new`, which returns an empty vector.
#[verifier::external_body]
fn object_list_new() -> (v: ArrayVec<OamObject, 10>)
    ensures
        object_list(v) == Seq::<OamObject>::empty(),
{
    ArrayVec::new()
}

/// Calls `ArrayVec::push`, which appends `o`; it panics when the vector is
/// full, which the precondition excludes.
#[verifier::external_body]
fn object_list_push(v: &mut ArrayVec<OamObject, 10>, o: OamObject)
    requires
        object_list(*old(v)).len() < 10,
    ensures
        object_list(*final(v)) == object_list(*old(v)).push(o),
{
    v.push(o)
}

/// Calls `ArrayVec::len`, the number of objects held.
#[verifier::external_body]
fn object_list_len(v: &ArrayVec<OamObject, 10>) -> (r: usize)
    ensures
        r == object_list(*v).len(),
{
    v.len()
}

/// Calls the slice method `get` through `ArrayVec`'s deref, copying the
/// object at `index` when there is one.
#[verifier::external_body]
fn object_list_get(v: &ArrayVec<OamObject, 10>, index: usize) -> (r: Option<OamObject>)
    ensures
        index < object_list(*v).len() ==> r == Some(object_list(*v)[index as int]),
        index >= object_list(*v).len() ==> r is None,
{
    v.get(index).copied()
}

/// Whether `a` comes no later than `b` in the order of the key `(x, id)`,
/// compared lexicographically as std orders tuples.
pub open spec fn key_le(a: OamObject, b: OamObject) -> bool {
    a.x < b.x || (a.x == b.x && a.id <= b.id)
}

/// The objects are in ascending order of `(x, id)`.
pub open spec fn sorted_by_key(s: Seq<OamObject>) -> bool {
    forall|i: int, j: int| 0 <= i < j < s.len() ==> key_le(#[trigger] s[i], #[trigger] s[j])
}

/// Calls the slice method `sort_unstable_by_key` through `ArrayVec`'s
/// deref with the key `(x, id)`: the objects are reordered (the same
/// multiset) into ascending key order.
#[verifier::external_body]
fn object_list_sort(v: &mut ArrayVec<OamObject, 10>)
    ensures
        object_list(*final(v)).to_multiset() == object_list(*old(v)).to_multiset(),
        object_list(*final(v)).len() == object_list(*old(v)).len(),
        sorted_by_key(object_list(*final(v))),
{
    v.sort_unstable_by_key(|o| (o.x, o.id))
}

/// Sprite attribute flags (byte 3 of an entry).
#[derive(Clone, Copy, PartialEq, Eq, Debug, Structural)]
pub struct OamFlags {
    /// BG and window colors 1-3 are drawn over the object.
    pub priority: bool,
    pub flip_y: bool,
    pub flip_x: bool,
    /// Which of OBP0/OBP1 the object uses.
    pub palette: bool,
}

/// The flags a byte written to OAM sets: priority from bit 7, vertical
/// flip from bit 6, horizontal flip from bit 5, palette from bit 4.
pub open spec fn flags_of(value: u8) -> OamFlags {
    OamFlags {
        priority: value & 0x80 != 0,
        flip_y: value & 0x40 != 0,
        flip_x: value & 0x20 != 0,
        palette: value & 0x10 != 0,
    }
}

/// The byte the flags read back as, in the bits they are written from:
/// priority in bit 7, vertical flip in bit 6, horizontal flip in bit 5,
/// palette in bit 4.
pub open spec fn flags_byte(f: OamFlags) -> u8 {
    pack8(0, 0, 0, 0, b2u(f.palette), b2u(f.flip_x), b2u(f.flip_y), b2u(f.priority))
}

impl From<u8> for OamFlags {
    fn from(value: u8) -> (r: Self) {
        OamFlags {
            priority: (value & 0x80) != 0,
            flip_y: (value & 0x40) != 0,
            flip_x: (value & 0x20) != 0,
            palette: (value & 0x10) != 0,
        }
    }
}

impl vstd::std_specs::convert::FromSpecImpl<u8> for OamFlags {
    open spec fn obeys_from_spec() -> bool {
        true
    }

    open spec fn from_spec(v: u8) -> Self {
        flags_of(v)
    }
}

impl From<OamFlags> for u8 {
    fn from(flags: OamFlags) -> (r: u8) {
        pack_byte(
            0,
            0,
            0,
            0,
            bool_to_u8(flags.palette),
            bool_to_u8(flags.flip_x),
            bool_to_u8(flags.flip_y),
            bool_to_u8(flags.priority),
        )
    }
}

impl vstd::std_specs::convert::FromSpecImpl<OamFlags> for u8 {
    open spec fn obeys_from_spec() -> bool {
        true
    }

    open spec fn from_spec(v: OamFlags) -> Self {
        flags_byte(v)
    }
}

/// One OAM entry; `id` is its index in OAM, which orders objects at the
/// same x. The attribute byte is kept as written in `attr`, beside the
/// flags decoded from it.
#[derive(Clone, Copy, PartialEq, Eq, Debug, Structural)]
pub struct OamObject {
    pub y: u8,
    pub x: u8,
    pub tile: u8,
    pub flags: OamFlags,
    pub attr: u8,
    pub id: u8,
}

impl OamObject {
    /// Byte `byte % 4` of the entry: y, x, tile, flags.
    pub open spec fn byte_spec(self, byte: u8) -> u8 {
        let b = byte % 4;
        if b == 0 {
            self.y
        } else if b == 1 {
            self.x
        } else if b == 2 {
            self.tile
        } else {
            self.attr
        }
    }

    /// The entry after `value` is written to byte `byte % 4`.
    pub open spec fn with_byte(self, byte: u8, value: u8) -> OamObject {
        let b = byte % 4;
        if b == 0 {
            OamObject { y: value, ..self }
        } else if b == 1 {
            OamObject { x: value, ..self }
        } else if b == 2 {
            OamObject { tile: value, ..self }
        } else {
            OamObject { flags: flags_of(value), attr: value, ..self }
        }
    }

    /// All fields zero, with index `id`.
    pub open spec fn blank(id: u8) -> OamObject {
        OamObject {
            y: 0,
            x: 0,
            tile: 0,
            flags: OamFlags { priority: false, flip_y: false, flip_x: false, palette: false },
            attr: 0,
            id,
        }
    }

    pub fn get_byte(&self, byte: u8) -> (r: u8)
        ensures
            r == self.byte_spec(byte),
    {
        let b = byte & 3;
        proof {
            lemma_byte(byte);
        }
        if b == 0 {
            self.y
        } else if b == 1 {
            self.x
        } else if b == 2 {
            self.tile
        } else {
            self.attr
        }
    }

    pub fn set_byte(&mut self, byte: u8, value: u8)
        ensures
            *final(self) == old(self).with_byte(byte, value),
    {
        let b = byte & 3;
        proof {
            lemma_byte(byte);
        }
        if b == 0 {
            self.y = value;
        } else if b == 1 {
            self.x = value;
        } else if b == 2 {
            self.tile = value;
        } else {
            self.flags = value.into();
            self.attr = value;
        }
    }
}

/// Whether an object is on line `ly` for objects `size` pixels tall, with
/// byte arithmetic wrapping as in a release build: x is within 1..=153 and
/// `ly + 16` is within `y..y + size`.
pub open spec fn on_line(o: OamObject, ly: u8, size: u8) -> bool {
    let top = (ly + 16) % 256;
    let bottom = (o.y + size) % 256;
    &&& o.x > 0
    &&& top >= o.y
    &&& top < bottom
    &&& o.x <= WIDTH - 7
}

/// The objects a scan of `s` in order picks for line `ly`: each object on
/// the line, until ten are picked.
pub open spec fn scan(s: Seq<OamObject>, ly: u8, size: u8) -> Seq<OamObject>
    decreases s.len(),
{
    if s.len() == 0 {
        Seq::empty()
    } else {
        let r = scan(s.drop_last(), ly, size);
        if r.len() >= OBJECTS_PER_LINE {
            r
        } else if on_line(s.last(), ly, size) {
            r.push(s.last())
        } else {
            r
        }
    }
}

/// A scan picks at most ten objects.
pub proof fn lemma_scan_at_most_ten(s: Seq<OamObject>, ly: u8, size: u8)
    ensures
        scan(s, ly, size).len() <= OBJECTS_PER_LINE,
    decreases s.len(),
{
    if s.len() > 0 {
        lemma_scan_at_most_ten(s.drop_last(), ly, size);
    }
}

/// Once ten objects are picked, the rest of OAM changes nothing.
proof fn lemma_scan_saturated(s: Seq<OamObject>, n: int, ly: u8, size: u8)
    requires
        0 <= n <= s.len(),
        scan(s.subrange(0, n), ly, size).len() >= OBJECTS_PER_LINE,
    ensures
        scan(s, ly, size) == scan(s.subrange(0, n), ly, size),
    decreases s.len() - n,
{
    if n < s.len() {
        let t = s.subrange(0, n + 1);
        assert(t.drop_last() =~= s.subrange(0, n));
        lemma_scan_saturated(s, n + 1, ly, size);
    } else {
        assert(s.subrange(0, n) =~= s);
    }
}

/// The objects selected for a line, at most ten.
pub struct OamBuffer {
    pub objects: ArrayVec<OamObject, 10>,
}

impl OamBuffer {
    pub open spec fn view(&self) -> Seq<OamObject> {
        object_list(self.objects)
    }

    pub fn new() -> (r: Self)
        ensures
            r.view() == Seq::<OamObject>::empty(),
    {
        OamBuffer { objects: object_list_new() }
    }

    pub fn push(&mut self, object: OamObject)
        requires
            old(self).view().len() < OBJECTS_PER_LINE,
        ensures
            final(self).view() == old(self).view().push(object),
    {
        object_list_push(&mut self.objects, object);
    }

    /// Orders the objects by x, then by OAM index.
    pub fn sort(&mut self)
        ensures
            final(self).view().to_multiset() == old(self).view().to_multiset(),
            final(self).view().len() == old(self).view().len(),
            sorted_by_key(final(self).view()),
    {
        object_list_sort(&mut self.objects);
    }

    pub fn len(&self) -> (r: usize)
        ensures
            r == self.view().len(),
    {
        object_list_len(&self.objects)
    }

    pub fn get(&self, index: usize) -> (r: Option<OamObject>)
        ensures
            index < self.view().len() ==> r == Some(self.view()[index as int]),
            index >= self.view().len() ==> r is None,
    {
        object_list_get(&self.objects, index)
    }
}

impl Default for OamBuffer {
    fn default() -> (r: Self)
        ensures
            r.view() == Seq::<OamObject>::empty(),
    {
        Self::new()
    }
}

/// The forty OAM entries.
pub struct OamMemory {
    pub objects: Vec<OamObject>,
}

impl OamMemory {
    pub open spec fn wf(&self) -> bool {
        self.objects.len() == OAM_OBJECTS
    }

    /// Forty blank entries, each knowing its index.
    pub fn new() -> (r: Self)
        ensures
            r.wf(),
            forall|i: int| 0 <= i < OAM_OBJECTS ==> #[trigger] r.objects@[i] == OamObject::blank(
                i as u8,
            ),
    {
        let mut objects: Vec<OamObject> = Vec::new();
        let mut i: usize = 0;
        while i < OAM_OBJECTS
            invariant
                i <= OAM_OBJECTS,
                objects.len() == i,
                forall|k: int| 0 <= k < i ==> #[trigger] objects@[k] == OamObject::blank(k as u8),
            decreases OAM_OBJECTS - i,
        {
            objects.push(
                OamObject {
                    y: 0,
                    x: 0,
                    tile: 0,
                    flags: OamFlags { priority: false, flip_y: false, flip_x: false, palette: false },
                    attr: 0,
                    id: i as u8,
                },
            );
            i += 1;
        }
        OamMemory { objects }
    }

    /// Selects the objects on line `ly` (at most ten, in OAM order), then
    /// orders them by x and OAM index.
    pub fn get_buffer(&self, ly: u8, lcdc: &Lcdc) -> (r: OamBuffer)
        requires
            self.wf(),
        ensures
            r.view().to_multiset() == scan(
                self.objects@,
                ly,
                if lcdc.obj_size {
                    16u8
                } else {
                    8u8
                },
            ).to_multiset(),
            r.view().len() == scan(
                self.objects@,
                ly,
                if lcdc.obj_size {
                    16u8
                } else {
                    8u8
                },
            ).len(),
            sorted_by_key(r.view()),
    {
        let size = lcdc.obj_size();
        let mut buffer = OamBuffer::new();
        let mut i: usize = 0;
        proof {
            assert(self.objects@.subrange(0, self.objects@.len() as int) =~= self.objects@);
        }
        while i < self.objects.len()
            invariant_except_break
                buffer.view().len() < OBJECTS_PER_LINE,
                buffer.view() == scan(self.objects@.subrange(0, i as int), ly, size),
            invariant
                self.wf(),
                i <= self.objects.len(),
                self.objects@.subrange(0, self.objects@.len() as int) == self.objects@,
            ensures
                buffer.view() == scan(self.objects@, ly, size),
            decreases self.objects.len() - i,
        {
            let object = self.objects[i];
            let top = ly.wrapping_add(16);
            let bottom = object.y.wrapping_add(size);
            let push_cond = (object.x > 0) && (top >= object.y) && (top < bottom) && (object.x
                <= WIDTH - 7);
            let ghost t = self.objects@.subrange(0, i + 1);
            proof {
                assert(t.drop_last() =~= self.objects@.subrange(0, i as int));
                assert(t.last() == object);
                assert(push_cond == on_line(object, ly, size));
                assert(scan(t, ly, size) == if push_cond {
                    buffer.view().push(object)
                } else {
                    buffer.view()
                });
            }
            if push_cond {
                buffer.push(object);
                if buffer.len() >= OBJECTS_PER_LINE {
                    proof {
                        lemma_scan_saturated(self.objects@, i + 1, ly, size);
                    }
                    break ;
                }
            }
            i += 1;
        }
        buffer.sort();
        buffer
    }

    /// Writes byte `addr % 4` of entry `addr / 4`.
    pub fn write_oam(&mut self, addr: u16, value: u8)
        requires
            old(self).wf(),
            addr < 160,
        ensures
            final(self).wf(),
            final(self).objects@ == old(self).objects@.update(
                (addr / 4u16) as int,
                old(self).objects@[(addr / 4u16) as int].with_byte((addr % 4) as u8, value),
            ),
    {
        proof {
            lemma_word(addr);
        }
        let idx = (addr >> 2u16) as usize;
        let mut o = self.objects[idx];
        o.set_byte((addr & 3) as u8, value);
        self.objects.set(idx, o);
    }

    /// Reads byte `addr % 4` of entry `addr / 4`.
    pub fn read_oam(&self, addr: u16) -> (r: u8)
        requires
            self.wf(),
            addr < 160,
        ensures
            r == self.objects@[(addr / 4u16) as int].byte_spec((addr % 4) as u8),
    {
        proof {
            lemma_word(addr);
        }
        self.objects[(addr >> 2u16) as usize].get_byte((addr & 3) as u8)
    }
}

/// Reading an OAM byte back after writing it gives the written value.
pub proof fn lemma_byte_write_read(o: OamObject, byte: u8, value: u8)
    ensures
        o.with_byte(byte, value).byte_spec(byte) == value,
{
}

/// Writing one byte of an entry leaves its other three bytes as they were.
pub proof fn lemma_byte_write_other(o: OamObject, byte: u8, other: u8, value: u8)
    requires
        byte % 4 != other % 4,
    ensures
        o.with_byte(byte, value).byte_spec(other) == o.byte_spec(other),
{
}

/// Decoding the byte that flags read back as gives the same flags.
pub proof fn lemma_flags_byte_roundtrip(f: OamFlags)
    ensures
        flags_of(flags_byte(f)) == f,
{
    lemma_pack8(0, 0, 0, 0, b2u(f.palette), b2u(f.flip_x), b2u(f.flip_y), b2u(f.priority));
}

/// OAM reads back what was written: the byte at `addr`, and every other
/// address as before.
pub proof fn lemma_oam_read_after_write(m: Seq<OamObject>, addr: u16, value: u8, other: u16)
    requires
        m.len() == OAM_OBJECTS,
        addr < 160,
        other < 160,
    ensures
        ({
            let i = (addr / 4u16) as int;
            let w = m.update(i, m[i].with_byte((addr % 4) as u8, value));
            &&& w[i].byte_spec((addr % 4) as u8) == value
            &&& other != addr ==> w[(other / 4u16) as int].byte_spec((other % 4) as u8)
                == m[(other / 4u16) as int].byte_spec((other % 4) as u8)
        }),
{
    let i = (addr / 4u16) as int;
    lemma_byte_write_read(m[i], (addr % 4) as u8, value);
    if other != addr && other / 4 == addr / 4 {
        lemma_byte_write_other(m[i], (addr % 4) as u8, (other % 4) as u8, value);
    }
}

} // verus!
