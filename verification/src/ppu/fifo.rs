//! Pixels, the pixel queues of the fetchers, and a fixed 8-slot buffer.
use vstd::prelude::*;
use arraydeque::ArrayDeque;

verus! {

/// A deque of at most 8 pixels, kept in an `arraydeque::ArrayDeque`
/// (saturating: a push to a full deque is refused).
#[verifier::external_body]
pub struct PixelQueue {
    queue: ArrayDeque<FifoPixel, 8>,
}

/// The pixels a `PixelQueue` holds, front first.
pub uninterp spec fn pixel_queue(q: PixelQueue) -> Seq<FifoPixel>;

/// Calls `ArrayDeque::new`, which returns an empty deque.
#[verifier::external_body]
pub(crate) fn queue_new() -> (q: PixelQueue)
    ensures
        pixel_queue(q) == Seq::<FifoPixel>::empty(),
{
    PixelQueue { queue: ArrayDeque::new() }
}

/// Calls `ArrayDeque::push_back` (saturating): appends `p` and returns true
/// when fewer than 8 pixels are held, else leaves the deque as it is and
/// returns false.
#[verifier::external_body]
pub(crate) fn queue_push_back(q: &mut PixelQueue, p: FifoPixel) -> (r: bool)
    ensures
        pixel_queue(*old(q)).len() < 8 ==> r && pixel_queue(*final(q)) == pixel_queue(
            *old(q),
        ).push(p),
        pixel_queue(*old(q)).len() >= 8 ==> !r && pixel_queue(*final(q)) == pixel_queue(*old(q)),
{
    q.queue.push_back(p).is_ok()
}

/// Calls `ArrayDeque::pop_front`: removes and returns the front pixel, or
/// returns `None` when empty.
#[verifier::external_body]
pub(crate) fn queue_pop_front(q: &mut PixelQueue) -> (r: Option<FifoPixel>)
    ensures
        pixel_queue(*old(q)).len() > 0 ==> r == Some(pixel_queue(*old(q))[0]) && pixel_queue(
            *final(q),
        ) == pixel_queue(*old(q)).drop_first(),
        pixel_queue(*old(q)).len() == 0 ==> r is None && pixel_queue(*final(q)) == pixel_queue(
            *old(q),
        ),
{
    q.queue.pop_front()
}

/// Calls `ArrayDeque::len`, the number of pixels held.
#[verifier::external_body]
pub(crate) fn queue_len(q: &PixelQueue) -> (r: usize)
    ensures
        r == pixel_queue(*q).len(),
{
    q.queue.len()
}

/// Calls `ArrayDeque::is_empty`.
#[verifier::external_body]
pub(crate) fn queue_is_empty(q: &PixelQueue) -> (r: bool)
    ensures
        r == (pixel_queue(*q).len() == 0),
{
    q.queue.is_empty()
}

/// Calls `ArrayDeque::is_full`: whether the 8 slots are all taken.
#[verifier::external_body]
pub(crate) fn queue_is_full(q: &PixelQueue) -> (r: bool)
    ensures
        r == (pixel_queue(*q).len() == 8),
{
    q.queue.is_full()
}

/// Calls `ArrayDeque::clear`, which removes every pixel.
#[verifier::external_body]
pub(crate) fn queue_clear(q: &mut PixelQueue)
    ensures
        pixel_queue(*final(q)) == Seq::<FifoPixel>::empty(),
{
    q.queue.clear()
}

/// Reads pixel `i` (counted from the front) through `Index`, which panics
/// past the end; the precondition excludes that.
#[verifier::external_body]
pub(crate) fn queue_get(q: &PixelQueue, i: usize) -> (r: FifoPixel)
    requires
        i < pixel_queue(*q).len(),
    ensures
        r == pixel_queue(*q)[i as int],
{
    q.queue[i]
}

/// Replaces pixel `i` (counted from the front) through `IndexMut`, which
/// panics past the end; the precondition excludes that.
#[verifier::external_body]
pub(crate) fn queue_set(q: &mut PixelQueue, i: usize, p: FifoPixel)
    requires
        i < pixel_queue(*old(q)).len(),
    ensures
        pixel_queue(*final(q)) == pixel_queue(*old(q)).update(i as int, p),
{
    q.queue[i] = p
}

/// A pixel on its way to the screen: a 2-bit color index, the object's
/// background priority flag and palette selection.
#[derive(Clone, Copy, PartialEq, Eq, Debug, Structural)]
pub struct FifoPixel {
    pub color: u8,
    pub priority: bool,
    pub pal: bool,
}

impl FifoPixel {
    pub open spec fn of_color(color: u8) -> FifoPixel {
        FifoPixel { color, priority: false, pal: false }
    }

    pub fn from_color(color: u8) -> (r: Self)
        requires
            color < 4,
        ensures
            r == FifoPixel::of_color(color),
    {
        FifoPixel { color, priority: false, pal: false }
    }
}

impl Default for FifoPixel {
    fn default() -> (r: Self)
        ensures
            r == FifoPixel::of_color(0),
    {
        FifoPixel { color: 0, priority: false, pal: false }
    }
}

/// The four steps a fetcher goes through per tile.
#[derive(Clone, Copy, PartialEq, Eq, Debug, Structural)]
pub enum FetcherState {
    ReadTileId,
    ReadTileDataLow,
    ReadTileDataHigh,
    PushToFifo,
}

impl Default for FetcherState {
    fn default() -> (r: Self)
        ensures
            r == FetcherState::ReadTileId,
    {
        FetcherState::ReadTileId
    }
}

/// Every pixel's color index is below 4.
pub open spec fn colors_ok(q: Seq<FifoPixel>) -> bool {
    forall|i: int| 0 <= i < q.len() ==> #[trigger] q[i].color < 4
}

/// A source of pixels, front first.
pub trait Fetcher {
    spec fn pixels(&self) -> Seq<FifoPixel>;

    /// Removes and returns the front pixel, if any.
    fn pop(&mut self) -> (r: Option<FifoPixel>)
        ensures
            old(self).pixels().len() > 0 ==> r == Some(old(self).pixels()[0])
                && final(self).pixels() == old(self).pixels().drop_first(),
            old(self).pixels().len() == 0 ==> r is None && final(self).pixels() == old(
                self,
            ).pixels(),
    ;

    fn len(&self) -> (r: usize)
        ensures
            r == self.pixels().len(),
    ;
}

/// Moves the first `mid` pixels to the end, keeping the order of both
/// parts.
fn rotate_pixels_left(buffer: &mut [FifoPixel; 8], mid: usize)
    requires
        mid <= 8,
    ensures
        final(buffer)@ == old(buffer)@.subrange(mid as int, 8) + old(buffer)@.subrange(
            0,
            mid as int,
        ),
{
    let old_buf = *buffer;
    let mut i: usize = 0;
    while i < 8
        invariant
            i <= 8,
            mid <= 8,
            old_buf@ == old(buffer)@,
            buffer@.len() == 8,
            forall|k: int| 0 <= k < i ==> #[trigger] buffer@[k] == old_buf@[(k + mid) % 8],
        decreases 8 - i,
    {
        let src = if i + mid < 8 {
            i + mid
        } else {
            i + mid - 8
        };
        buffer[i] = old_buf[src];
        i += 1;
    }
    assert(buffer@ =~= old_buf@.subrange(mid as int, 8) + old_buf@.subrange(0, mid as int));
}

/// An 8-slot pixel buffer with a read position `head` and a count
/// `length`.
#[derive(Clone, Copy)]
pub struct FifoBuffer {
    pub buffer: [FifoPixel; 8],
    pub length: usize,
    pub head: usize,
}

impl Default for FifoBuffer {
    /// Empty, with the head at the start and every slot a transparent pixel.
    fn default() -> (r: Self)
        ensures
            r.length == 0,
            r.head == 0,
            forall|i: int| 0 <= i < 8 ==> #[trigger] r.buffer@[i] == FifoPixel::of_color(0),
    {
        let p = FifoPixel { color: 0, priority: false, pal: false };
        FifoBuffer { buffer: [p, p, p, p, p, p, p, p], length: 0, head: 0 }
    }
}

impl FifoBuffer {
    pub open spec fn wf(&self) -> bool {
        self.length <= 8 && self.head <= 8
    }

    pub fn len(&self) -> (r: usize)
        ensures
            r == self.length,
    {
        self.length
    }

    /// While the head is below the count, returns the pixel at the head,
    /// moving the head forward and the count down; else returns `None`.
    pub fn pop_front(&mut self) -> (r: Option<FifoPixel>)
        requires
            old(self).wf(),
        ensures
            final(self).wf(),
            old(self).head >= old(self).length ==> r is None && *final(self) == *old(self),
            old(self).head < old(self).length ==> r == Some(old(self).buffer@[old(self).head as int])
                && *final(self) == (FifoBuffer {
                length: (old(self).length - 1) as usize,
                head: (old(self).head + 1) as usize,
                ..*old(self)
            }),
    {
        if self.head >= self.length {
            return None;
        }
        self.length -= 1;
        self.head += 1;
        Some(self.buffer[self.head - 1])
    }

    /// Stores `value` at slot `length` unless the buffer is full (then
    /// `Err`); when the head is at 7 the buffer is first realigned.
    pub fn push_back(&mut self, value: FifoPixel) -> (r: Result<(), ()>)
        requires
            old(self).wf(),
        ensures
            final(self).wf(),
            old(self).length == 8 ==> r is Err && *final(self) == *old(self),
            old(self).length < 8 ==> {
                let a = if old(self).head == 7 {
                    old(self).buffer@.subrange(7, 8) + old(self).buffer@.subrange(0, 7)
                } else {
                    old(self).buffer@
                };
                &&& r is Ok
                &&& final(self).buffer@ == a.update(old(self).length as int, value)
                &&& final(self).length == old(self).length + 1
                &&& final(self).head == if old(self).head == 7 {
                    0
                } else {
                    old(self).head
                }
            },
    {
        if self.length == 8 {
            return Err(());
        }
        if self.head == 7 {
            self.align();
        }
        self.buffer[self.length] = value;
        self.length += 1;
        Ok(())
    }

    /// Rotates the slots so that the head slot comes first, and resets the
    /// head to 0.
    pub fn align(&mut self)
        requires
            old(self).wf(),
        ensures
            final(self).wf(),
            final(self).buffer@ == old(self).buffer@.subrange(old(self).head as int, 8) + old(
                self,
            ).buffer@.subrange(0, old(self).head as int),
            final(self).head == 0,
            final(self).length == old(self).length,
    {
        rotate_pixels_left(&mut self.buffer, self.head);
        self.head = 0;
    }
}

} // verus!
