//! Replays recorded command sequences against a model of one image and one
//! buffer, the way the device would run them: it checks layouts, queue
//! family ownership and host visibility, and yields the bytes that the host
//! would read back.

use vstd::prelude::*;
use crate::device::Extent2D;
use crate::sync::{
    clear_sequence, copy_sequence, Access, ClearColor, Command, FamilyPair, ImageLayout,
    PipelineStage,
};

verus! {

/// Bytes per pixel of the workload's format.
pub const BYTES_PER_PIXEL: usize = 4;

/// Channel `k` of a pixel of `color`, in byte order.
pub open spec fn pixel_channel(color: ClearColor, k: int) -> u8 {
    if k % 4 == 0 {
        color.r
    } else if k % 4 == 1 {
        color.g
    } else if k % 4 == 2 {
        color.b
    } else {
        color.a
    }
}

/// `bytes` holds exactly `pixels` pixels, each equal to `color`.
pub open spec fn filled_with(bytes: Seq<u8>, color: ClearColor, pixels: nat) -> bool {
    &&& bytes.len() == pixels * 4
    &&& forall|k: int| 0 <= k < bytes.len() ==> #[trigger] bytes[k] == pixel_channel(color, k)
}

/// Size in bytes of a densely packed readback of an image of `extent`, or
/// `None` when it does not fit in memory.
pub fn readback_size(extent: &Extent2D) -> (r: Option<usize>)
    ensures
        r matches Some(n) ==> n == extent.width * extent.height * 4,
        r is None <==> extent.width * extent.height * 4 > usize::MAX,
{
    let w = extent.width as u64;
    let h = extent.height as u64;
    proof {
        assert(w * h <= 0xffff_ffff * 0xffff_ffff) by (nonlinear_arith)
            requires
                w <= 0xffff_ffff,
                h <= 0xffff_ffff,
        ;
    }
    let pixels = w * h;
    match pixels.checked_mul(4) {
        None => None,
        Some(n) => {
            if n > usize::MAX as u64 {
                None
            } else {
                Some(n as usize)
            }
        },
    }
}

/// Every pixel of `data` equals `color`, and the length is a whole number
/// of pixels.
pub fn all_pixels_equal(data: &Vec<u8>, color: ClearColor) -> (r: bool)
    ensures
        r == filled_with(data@, color, (data@.len() / 4) as nat),
{
    if data.len() % 4 != 0 {
        return false;
    }
    let mut k: usize = 0;
    while k < data.len()
        invariant
            k <= data@.len(),
            data@.len() % 4 == 0,
            forall|j: int| 0 <= j < k ==> #[trigger] data@[j] == pixel_channel(color, j),
        decreases data@.len() - k,
    {
        let expected = if k % 4 == 0 {
            color.r
        } else if k % 4 == 1 {
            color.g
        } else if k % 4 == 2 {
            color.b
        } else {
            color.a
        };
        if data[k] != expected {
            return false;
        }
        k = k + 1;
    }
    true
}

/// A rule of the protocol that a replayed command broke.
#[derive(Clone, Copy, Debug, PartialEq, Eq, Structural)]
pub enum ReplayError {
    /// The command names another image or buffer than the one replayed.
    UnknownResource,
    /// The image is not in the layout that the command states or needs.
    LayoutMismatch,
    /// The image is owned by another queue family.
    WrongOwner,
    /// An acquire without the matching release, or a use of the image
    /// between the two halves of a transfer.
    UnmatchedTransfer,
    /// The image was read before anything was written to it.
    ContentUndefined,
    /// The buffer is smaller than the copied image.
    BufferTooSmall,
    /// The host read the buffer before a barrier made the writes visible.
    NotVisibleToHost,
}

/// What a copy wrote into the buffer: `pixels` pixels of `color`.
#[derive(Clone, Copy, Debug, PartialEq, Eq, Structural)]
pub struct CopiedImage {
    pub color: ClearColor,
    pub pixels: usize,
}

/// The modelled state of the image and of the buffer's contents.
#[derive(Clone, Copy, Debug, PartialEq, Eq, Structural)]
pub struct ReplayState {
    pub layout: ImageLayout,
    /// The queue family that owns the image; none before its first use.
    pub owner: Option<u32>,
    /// A released ownership transfer that awaits its acquire.
    pub released: Option<FamilyPair>,
    /// The color the whole image holds, once it was cleared.
    pub content: Option<ClearColor>,
    pub copied: Option<CopiedImage>,
    /// A barrier made the copied bytes visible to the host.
    pub host_visible: bool,
}

/// A freshly created image and a buffer that nothing has written.
pub open spec fn fresh_state() -> ReplayState {
    ReplayState {
        layout: ImageLayout::Undefined,
        owner: None,
        released: None,
        content: None,
        copied: None,
        host_visible: false,
    }
}

pub open spec fn owned_by(st: ReplayState, family: u32) -> bool {
    st.owner is None || st.owner == Some(family)
}

/// The effect of one command run on a queue of `family`, or the rule it
/// breaks.
pub open spec fn replay_step(
    st: ReplayState,
    image: u64,
    buffer: u64,
    buffer_size: usize,
    family: u32,
    command: Command,
) -> Result<ReplayState, ReplayError> {
    match command {
        Command::ImageBarrier(b) => if b.image != image {
            Err(ReplayError::UnknownResource)
        } else {
            match b.ownership {
                None => if st.released is Some {
                    Err(ReplayError::UnmatchedTransfer)
                } else if !owned_by(st, family) {
                    Err(ReplayError::WrongOwner)
                } else if b.old_layout != ImageLayout::Undefined && b.old_layout != st.layout {
                    Err(ReplayError::LayoutMismatch)
                } else {
                    Ok(
                        ReplayState {
                            layout: b.new_layout,
                            content: if b.old_layout == ImageLayout::Undefined {
                                None
                            } else {
                                st.content
                            },
                            ..st
                        },
                    )
                },
                Some(pair) => if pair.src_family == family {
                    if st.released is Some {
                        Err(ReplayError::UnmatchedTransfer)
                    } else if !owned_by(st, family) {
                        Err(ReplayError::WrongOwner)
                    } else if b.old_layout != st.layout {
                        Err(ReplayError::LayoutMismatch)
                    } else {
                        Ok(ReplayState { released: Some(pair), ..st })
                    }
                } else if pair.dst_family == family {
                    if st.released != Some(pair) {
                        Err(ReplayError::UnmatchedTransfer)
                    } else if b.old_layout != st.layout {
                        Err(ReplayError::LayoutMismatch)
                    } else {
                        Ok(
                            ReplayState {
                                released: None,
                                owner: Some(family),
                                layout: b.new_layout,
                                ..st
                            },
                        )
                    }
                } else {
                    Err(ReplayError::WrongOwner)
                },
            }
        },
        Command::ClearColorImage { image: i, layout, color } => if i != image {
            Err(ReplayError::UnknownResource)
        } else if st.released is Some {
            Err(ReplayError::UnmatchedTransfer)
        } else if !owned_by(st, family) {
            Err(ReplayError::WrongOwner)
        } else if layout != st.layout || layout != ImageLayout::TransferDstOptimal {
            Err(ReplayError::LayoutMismatch)
        } else {
            Ok(ReplayState { owner: Some(family), content: Some(color), ..st })
        },
        Command::CopyImageToBuffer { image: i, layout, buffer: bf, extent } => if i != image || bf
            != buffer {
            Err(ReplayError::UnknownResource)
        } else if st.released is Some {
            Err(ReplayError::UnmatchedTransfer)
        } else if !owned_by(st, family) {
            Err(ReplayError::WrongOwner)
        } else if layout != st.layout || layout != ImageLayout::TransferSrcOptimal {
            Err(ReplayError::LayoutMismatch)
        } else {
            match st.content {
                None => Err(ReplayError::ContentUndefined),
                Some(c) => if extent.width * extent.height * 4 > buffer_size {
                    Err(ReplayError::BufferTooSmall)
                } else {
                    Ok(
                        ReplayState {
                            copied: Some(
                                CopiedImage {
                                    color: c,
                                    pixels: (extent.width * extent.height) as usize,
                                },
                            ),
                            host_visible: false,
                            ..st
                        },
                    )
                },
            }
        },
        Command::BufferBarrier(b) => if b.buffer != buffer {
            Err(ReplayError::UnknownResource)
        } else if st.copied is Some && b.src_access == Access::TransferWrite && b.dst_access
            == Access::HostRead && b.dst_stage == PipelineStage::Host {
            Ok(ReplayState { host_visible: true, ..st })
        } else {
            Ok(st)
        },
    }
}

/// The effect of a whole sequence, stopping at the first broken rule.
pub open spec fn replay_all(
    st: ReplayState,
    image: u64,
    buffer: u64,
    buffer_size: usize,
    family: u32,
    commands: Seq<Command>,
) -> Result<ReplayState, ReplayError>
    decreases commands.len(),
{
    if commands.len() == 0 {
        Ok(st)
    } else {
        match replay_step(st, image, buffer, buffer_size, family, commands[0]) {
            Ok(next) => replay_all(next, image, buffer, buffer_size, family, commands.drop_first()),
            Err(e) => Err(e),
        }
    }
}

/// The modelled image and buffer.
#[derive(Debug)]
pub struct Replay {
    image: u64,
    buffer: u64,
    buffer_size: usize,
    state: ReplayState,
    data: Vec<u8>,
}

impl Replay {
    pub closed spec fn image(&self) -> u64 {
        self.image
    }

    pub closed spec fn buffer(&self) -> u64 {
        self.buffer
    }

    pub closed spec fn buffer_size(&self) -> usize {
        self.buffer_size
    }

    pub closed spec fn state(&self) -> ReplayState {
        self.state
    }

    pub closed spec fn data(&self) -> Seq<u8> {
        self.data@
    }

    /// The bytes in the buffer are always what the last copy wrote.
    pub closed spec fn inv(&self) -> bool {
        &&& self.state.host_visible ==> self.state.copied is Some
        &&& self.state.copied matches Some(ci) ==> filled_with(
            self.data@,
            ci.color,
            ci.pixels as nat,
        )
    }

    /// A freshly created image and a buffer of `buffer_size` bytes that
    /// nothing has written.
    pub fn new(image: u64, buffer: u64, buffer_size: usize) -> (r: Self)
        ensures
            r.inv(),
            r.image() == image,
            r.buffer() == buffer,
            r.buffer_size() == buffer_size,
            r.state() == fresh_state(),
    {
        Replay {
            image,
            buffer,
            buffer_size,
            state: ReplayState {
                layout: ImageLayout::Undefined,
                owner: None,
                released: None,
                content: None,
                copied: None,
                host_visible: false,
            },
            data: Vec::new(),
        }
    }

    fn owned_by(&self, family: u32) -> (r: bool)
        ensures
            r == owned_by(self.state, family),
    {
        match self.state.owner {
            None => true,
            Some(f) => f == family,
        }
    }

    fn fill(color: ClearColor, size: usize) -> (r: Vec<u8>)
        requires
            size % 4 == 0,
        ensures
            filled_with(r@, color, (size / 4) as nat),
    {
        let mut data: Vec<u8> = Vec::new();
        let mut k: usize = 0;
        while k < size
            invariant
                k <= size,
                data@.len() == k,
                forall|j: int| 0 <= j < k ==> #[trigger] data@[j] == pixel_channel(color, j),
            decreases size - k,
        {
            let byte = if k % 4 == 0 {
                color.r
            } else if k % 4 == 1 {
                color.g
            } else if k % 4 == 2 {
                color.b
            } else {
                color.a
            };
            data.push(byte);
            k = k + 1;
        }
        data
    }

    /// Runs one command on a queue of `family`. A command that breaks a
    /// rule changes nothing.
    pub fn execute(&mut self, family: u32, command: &Command) -> (r: Result<(), ReplayError>)
        requires
            old(self).inv(),
        ensures
            final(self).inv(),
            final(self).image() == old(self).image(),
            final(self).buffer() == old(self).buffer(),
            final(self).buffer_size() == old(self).buffer_size(),
            match replay_step(
                old(self).state(),
                old(self).image(),
                old(self).buffer(),
                old(self).buffer_size(),
                family,
                *command,
            ) {
                Ok(next) => r is Ok && final(self).state() == next,
                Err(e) => r == Err::<(), ReplayError>(e) && final(self).state() == old(
                    self,
                ).state(),
            },
    {
        let st = self.state;
        match command {
            Command::ImageBarrier(b) => {
                if b.image != self.image {
                    return Err(ReplayError::UnknownResource);
                }
                match b.ownership {
                    None => {
                        if st.released.is_some() {
                            return Err(ReplayError::UnmatchedTransfer);
                        }
                        if !self.owned_by(family) {
                            return Err(ReplayError::WrongOwner);
                        }
                        if b.old_layout != ImageLayout::Undefined && b.old_layout != st.layout {
                            return Err(ReplayError::LayoutMismatch);
                        }
                        let content = if b.old_layout == ImageLayout::Undefined {
                            None
                        } else {
                            st.content
                        };
                        self.state = ReplayState { layout: b.new_layout, content, ..st };
                        Ok(())
                    },
                    Some(pair) => {
                        if pair.src_family == family {
                            if st.released.is_some() {
                                return Err(ReplayError::UnmatchedTransfer);
                            }
                            if !self.owned_by(family) {
                                return Err(ReplayError::WrongOwner);
                            }
                            if b.old_layout != st.layout {
                                return Err(ReplayError::LayoutMismatch);
                            }
                            self.state = ReplayState { released: Some(pair), ..st };
                            Ok(())
                        } else if pair.dst_family == family {
                            if st.released != Some(pair) {
                                return Err(ReplayError::UnmatchedTransfer);
                            }
                            if b.old_layout != st.layout {
                                return Err(ReplayError::LayoutMismatch);
                            }
                            self.state = ReplayState {
                                released: None,
                                owner: Some(family),
                                layout: b.new_layout,
                                ..st
                            };
                            Ok(())
                        } else {
                            Err(ReplayError::WrongOwner)
                        }
                    },
                }
            },
            Command::ClearColorImage { image, layout, color } => {
                if *image != self.image {
                    return Err(ReplayError::UnknownResource);
                }
                if st.released.is_some() {
                    return Err(ReplayError::UnmatchedTransfer);
                }
                if !self.owned_by(family) {
                    return Err(ReplayError::WrongOwner);
                }
                if *layout != st.layout || *layout != ImageLayout::TransferDstOptimal {
                    return Err(ReplayError::LayoutMismatch);
                }
                self.state = ReplayState { owner: Some(family), content: Some(*color), ..st };
                Ok(())
            },
            Command::CopyImageToBuffer { image, layout, buffer, extent } => {
                if *image != self.image || *buffer != self.buffer {
                    return Err(ReplayError::UnknownResource);
                }
                if st.released.is_some() {
                    return Err(ReplayError::UnmatchedTransfer);
                }
                if !self.owned_by(family) {
                    return Err(ReplayError::WrongOwner);
                }
                if *layout != st.layout || *layout != ImageLayout::TransferSrcOptimal {
                    return Err(ReplayError::LayoutMismatch);
                }
                let color = match st.content {
                    Some(c) => c,
                    None => {
                        return Err(ReplayError::ContentUndefined);
                    },
                };
                let size = match readback_size(extent) {
                    Some(n) => n,
                    None => {
                        return Err(ReplayError::BufferTooSmall);
                    },
                };
                if size > self.buffer_size {
                    return Err(ReplayError::BufferTooSmall);
                }
                let pixels = size / 4;
                self.data = Self::fill(color, size);
                self.state = ReplayState {
                    copied: Some(CopiedImage { color, pixels }),
                    host_visible: false,
                    ..st
                };
                Ok(())
            },
            Command::BufferBarrier(b) => {
                if b.buffer != self.buffer {
                    return Err(ReplayError::UnknownResource);
                }
                if st.copied.is_some() && b.src_access == Access::TransferWrite && b.dst_access
                    == Access::HostRead && b.dst_stage == PipelineStage::Host {
                    self.state = ReplayState { host_visible: true, ..st };
                }
                Ok(())
            },
        }
    }

    /// Runs a recorded sequence on a queue of `family`, stopping at the
    /// first broken rule.
    pub fn execute_all(&mut self, family: u32, commands: &Vec<Command>) -> (r: Result<
        (),
        ReplayError,
    >)
        requires
            old(self).inv(),
        ensures
            final(self).inv(),
            final(self).image() == old(self).image(),
            final(self).buffer() == old(self).buffer(),
            final(self).buffer_size() == old(self).buffer_size(),
            match replay_all(
                old(self).state(),
                old(self).image(),
                old(self).buffer(),
                old(self).buffer_size(),
                family,
                commands@,
            ) {
                Ok(last) => r is Ok && final(self).state() == last,
                Err(e) => r == Err::<(), ReplayError>(e),
            },
    {
        let ghost total = replay_all(
            self.state,
            self.image,
            self.buffer,
            self.buffer_size,
            family,
            commands@,
        );
        let n = commands.len();
        let mut k: usize = 0;
        assert(commands@.subrange(0, n as int) =~= commands@);
        while k < n
            invariant
                k <= n == commands@.len(),
                self.inv(),
                self.image == old(self).image(),
                self.buffer == old(self).buffer(),
                self.buffer_size == old(self).buffer_size(),
                total == replay_all(
                    old(self).state(),
                    old(self).image(),
                    old(self).buffer(),
                    old(self).buffer_size(),
                    family,
                    commands@,
                ),
                total == replay_all(
                    self.state,
                    self.image,
                    self.buffer,
                    self.buffer_size,
                    family,
                    commands@.subrange(k as int, n as int),
                ),
            decreases n - k,
        {
            let ghost rest = commands@.subrange(k as int, n as int);
            assert(rest.drop_first() =~= commands@.subrange(k + 1, n as int));
            assert(rest[0] == commands@[k as int]);
            assert(total == match replay_step(
                self.state,
                self.image,
                self.buffer,
                self.buffer_size,
                family,
                commands@[k as int],
            ) {
                Ok(next) => replay_all(
                    next,
                    self.image,
                    self.buffer,
                    self.buffer_size,
                    family,
                    commands@.subrange(k + 1, n as int),
                ),
                Err(e) => Err(e),
            });
            match self.execute(family, &commands[k]) {
                Ok(()) => {},
                Err(e) => {
                    return Err(e);
                },
            }
            k = k + 1;
        }
        assert(commands@.subrange(n as int, n as int) =~= Seq::<Command>::empty());
        Ok(())
    }

    /// What the host reads from the buffer: the copied bytes, once a
    /// barrier has made them visible to the host.
    pub fn host_read(&self) -> (r: Result<&Vec<u8>, ReplayError>)
        requires
            self.inv(),
        ensures
            r is Err <==> !self.state().host_visible,
            r is Err ==> r == Err::<&Vec<u8>, ReplayError>(ReplayError::NotVisibleToHost),
            r matches Ok(data) ==> data@ == self.data() && (self.state().copied matches Some(ci)
                && filled_with(data@, ci.color, ci.pixels as nat)),
    {
        if !self.state.host_visible {
            return Err(ReplayError::NotVisibleToHost);
        }
        Ok(&self.data)
    }
}

/// Replaying the recorded clear on the compute family and then the recorded
/// copy on the transfer family, from a freshly created image, breaks no rule
/// and leaves the host a buffer of exactly `width * height` pixels of the
/// clear color, whether the two families are the same or not.
pub proof fn lemma_recorded_work_reads_back_color(
    compute: u32,
    transfer: u32,
    image: u64,
    buffer: u64,
    buffer_size: usize,
    extent: Extent2D,
    color: ClearColor,
)
    requires
        extent.width * extent.height * 4 <= buffer_size,
    ensures
        ({
            let cleared = replay_all(
                fresh_state(),
                image,
                buffer,
                buffer_size,
                compute,
                clear_sequence(compute, transfer, image, color),
            );
            &&& cleared is Ok
            &&& replay_all(
                cleared->Ok_0,
                image,
                buffer,
                buffer_size,
                transfer,
                copy_sequence(compute, transfer, image, buffer, extent),
            ) matches Ok(last)
            &&& last.host_visible
            &&& last.copied == Some(
                CopiedImage { color, pixels: (extent.width * extent.height) as usize },
            )
        }),
{
    reveal_with_fuel(replay_all, 4);
    let c = clear_sequence(compute, transfer, image, color);
    let t = copy_sequence(compute, transfer, image, buffer, extent);
    assert(c.drop_first() =~= seq![c[1], c[2]]);
    assert(c.drop_first().drop_first() =~= seq![c[2]]);
    assert(seq![c[2]].drop_first() =~= Seq::<Command>::empty());
    if compute == transfer {
        assert(t =~= seq![t[0], t[1]]);
        assert(t.drop_first() =~= seq![t[1]]);
        assert(seq![t[1]].drop_first() =~= Seq::<Command>::empty());
    } else {
        assert(t.len() == 3);
        assert(t.drop_first() =~= seq![t[1], t[2]]);
        assert(t.drop_first().drop_first() =~= seq![t[2]]);
        assert(seq![t[2]].drop_first() =~= Seq::<Command>::empty());
    }
}

} // verus!
