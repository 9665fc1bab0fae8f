//! The commands of the workload and the barriers between them: clearing an
//! image on the compute family, handing it to the transfer family, and
//! copying it into a buffer that the host reads.

use vstd::prelude::*;
use crate::device::Extent2D;
use crate::queue::QueueFamilies;

verus! {

/// A pipeline stage that a barrier waits for or holds back.
#[derive(Clone, Copy, Debug, PartialEq, Eq, Structural)]
pub enum PipelineStage {
    NoStage,
    Clear,
    Transfer,
    Copy,
    Host,
}

/// A kind of memory access that a barrier makes available or visible.
#[derive(Clone, Copy, Debug, PartialEq, Eq, Structural)]
pub enum Access {
    NoAccess,
    TransferWrite,
    TransferRead,
    HostRead,
}

/// How an image is laid out in memory.
#[derive(Clone, Copy, Debug, PartialEq, Eq, Structural)]
pub enum ImageLayout {
    Undefined,
    TransferDstOptimal,
    TransferSrcOptimal,
}

/// The two families of an ownership transfer.
#[derive(Clone, Copy, Debug, PartialEq, Eq, Structural)]
pub struct FamilyPair {
    pub src_family: u32,
    pub dst_family: u32,
}

/// A barrier on a whole single-mip, single-layer color image. With
/// `ownership` set it is one half of an ownership transfer; without it the
/// queue family fields are ignored.
#[derive(Clone, Copy, Debug, PartialEq, Eq, Structural)]
pub struct ImageBarrier {
    pub image: u64,
    pub src_stage: PipelineStage,
    pub dst_stage: PipelineStage,
    pub src_access: Access,
    pub dst_access: Access,
    pub old_layout: ImageLayout,
    pub new_layout: ImageLayout,
    pub ownership: Option<FamilyPair>,
}

/// A barrier on a whole buffer, without ownership transfer.
#[derive(Clone, Copy, Debug, PartialEq, Eq, Structural)]
pub struct BufferBarrier {
    pub buffer: u64,
    pub src_stage: PipelineStage,
    pub dst_stage: PipelineStage,
    pub src_access: Access,
    pub dst_access: Access,
}

/// A color given as one byte per channel, in the image's channel order.
#[derive(Clone, Copy, Debug, PartialEq, Eq, Structural)]
pub struct ClearColor {
    pub r: u8,
    pub g: u8,
    pub b: u8,
    pub a: u8,
}

/// One recorded command.
#[derive(Clone, Copy, Debug, PartialEq, Eq, Structural)]
pub enum Command {
    ImageBarrier(ImageBarrier),
    BufferBarrier(BufferBarrier),
    /// Clears the whole image, which is in `layout`, to `color`.
    ClearColorImage { image: u64, layout: ImageLayout, color: ClearColor },
    /// Copies the whole image, which is in `layout`, densely packed into the
    /// start of `buffer`.
    CopyImageToBuffer { image: u64, layout: ImageLayout, buffer: u64, extent: Extent2D },
}

/// The hand-over of an image from the compute family to the transfer
/// family. Both recorders build their half of the transfer from this one
/// value, so the release and the acquire cannot disagree.
#[derive(Clone, Copy, Debug, PartialEq, Eq, Structural)]
pub struct OwnershipTransfer {
    pub image: u64,
    pub families: FamilyPair,
    pub old_layout: ImageLayout,
    pub new_layout: ImageLayout,
}

/// The transfer needed between the two families, if they differ.
pub open spec fn transfer_between(compute: u32, transfer: u32, image: u64) -> Option<
    OwnershipTransfer,
> {
    if compute != transfer {
        Some(
            OwnershipTransfer {
                image,
                families: FamilyPair { src_family: compute, dst_family: transfer },
                old_layout: ImageLayout::TransferDstOptimal,
                new_layout: ImageLayout::TransferSrcOptimal,
            },
        )
    } else {
        None
    }
}

impl OwnershipTransfer {
    /// Decides once, from the resolved family indices, whether the image
    /// changes owner between the clear and the copy.
    pub fn between(families: &QueueFamilies, image: u64) -> (r: Option<OwnershipTransfer>)
        ensures
            r == transfer_between(families.compute_index(), families.transfer_index(), image),
    {
        let compute = families.get_compute_index();
        let transfer = families.get_transfer_index();
        if compute != transfer {
            Some(
                OwnershipTransfer {
                    image,
                    families: FamilyPair { src_family: compute, dst_family: transfer },
                    old_layout: ImageLayout::TransferDstOptimal,
                    new_layout: ImageLayout::TransferSrcOptimal,
                },
            )
        } else {
            None
        }
    }

    pub open spec fn release_spec(&self) -> ImageBarrier {
        ImageBarrier {
            image: self.image,
            src_stage: PipelineStage::Clear,
            dst_stage: PipelineStage::Transfer,
            src_access: Access::TransferWrite,
            dst_access: Access::NoAccess,
            old_layout: self.old_layout,
            new_layout: self.new_layout,
            ownership: Some(self.families),
        }
    }

    pub open spec fn acquire_spec(&self) -> ImageBarrier {
        ImageBarrier {
            image: self.image,
            src_stage: PipelineStage::Transfer,
            dst_stage: PipelineStage::Copy,
            src_access: Access::NoAccess,
            dst_access: Access::TransferRead,
            old_layout: self.old_layout,
            new_layout: self.new_layout,
            ownership: Some(self.families),
        }
    }

    /// The release half, recorded on the source family after the clear: it
    /// makes the clear's writes available and grants no access, which the
    /// acquire establishes.
    pub fn release_barrier(&self) -> (r: ImageBarrier)
        ensures
            r == self.release_spec(),
    {
        ImageBarrier {
            image: self.image,
            src_stage: PipelineStage::Clear,
            dst_stage: PipelineStage::Transfer,
            src_access: Access::TransferWrite,
            dst_access: Access::NoAccess,
            old_layout: self.old_layout,
            new_layout: self.new_layout,
            ownership: Some(self.families),
        }
    }

    /// The acquire half, recorded on the destination family before the copy,
    /// with the same families and layouts as the release.
    pub fn acquire_barrier(&self) -> (r: ImageBarrier)
        ensures
            r == self.acquire_spec(),
    {
        ImageBarrier {
            image: self.image,
            src_stage: PipelineStage::Transfer,
            dst_stage: PipelineStage::Copy,
            src_access: Access::NoAccess,
            dst_access: Access::TransferRead,
            old_layout: self.old_layout,
            new_layout: self.new_layout,
            ownership: Some(self.families),
        }
    }
}

/// Moves the freshly created image into a layout the clear can write.
pub open spec fn prepare_for_clear(image: u64) -> ImageBarrier {
    ImageBarrier {
        image,
        src_stage: PipelineStage::NoStage,
        dst_stage: PipelineStage::Clear,
        src_access: Access::NoAccess,
        dst_access: Access::TransferWrite,
        old_layout: ImageLayout::Undefined,
        new_layout: ImageLayout::TransferDstOptimal,
        ownership: None,
    }
}

/// On a single family: the layout change from the clear to the copy.
pub open spec fn clear_to_copy_in_family(image: u64) -> ImageBarrier {
    ImageBarrier {
        image,
        src_stage: PipelineStage::Clear,
        dst_stage: PipelineStage::Transfer,
        src_access: Access::TransferWrite,
        dst_access: Access::TransferRead,
        old_layout: ImageLayout::TransferDstOptimal,
        new_layout: ImageLayout::TransferSrcOptimal,
        ownership: None,
    }
}

/// Makes the copy's writes to the buffer visible to host reads.
pub open spec fn flush_to_host(buffer: u64) -> BufferBarrier {
    BufferBarrier {
        buffer,
        src_stage: PipelineStage::Copy,
        dst_stage: PipelineStage::Host,
        src_access: Access::TransferWrite,
        dst_access: Access::HostRead,
    }
}

/// The commands that clear the image on the compute family.
pub open spec fn clear_sequence(compute: u32, transfer: u32, image: u64, color: ClearColor) -> Seq<
    Command,
> {
    let closing = match transfer_between(compute, transfer, image) {
        Some(t) => t.release_spec(),
        None => clear_to_copy_in_family(image),
    };
    seq![
        Command::ImageBarrier(prepare_for_clear(image)),
        Command::ClearColorImage { image, layout: ImageLayout::TransferDstOptimal, color },
        Command::ImageBarrier(closing),
    ]
}

/// The commands that copy the image into the buffer on the transfer family.
pub open spec fn copy_sequence(
    compute: u32,
    transfer: u32,
    image: u64,
    buffer: u64,
    extent: Extent2D,
) -> Seq<Command> {
    let acquire = match transfer_between(compute, transfer, image) {
        Some(t) => seq![Command::ImageBarrier(t.acquire_spec())],
        None => Seq::<Command>::empty(),
    };
    acquire + seq![
        Command::CopyImageToBuffer {
            image,
            layout: ImageLayout::TransferSrcOptimal,
            buffer,
            extent,
        },
        Command::BufferBarrier(flush_to_host(buffer)),
    ]
}

/// Records the clear: prepare the image, clear it to `color`, then either
/// release it to the transfer family or, on a single family, only change its
/// layout.
pub fn record_clear_commands(families: &QueueFamilies, image: u64, color: ClearColor) -> (r: Vec<
    Command,
>)
    ensures
        r@ == clear_sequence(families.compute_index(), families.transfer_index(), image, color),
{
    let transfer = OwnershipTransfer::between(families, image);
    let mut commands: Vec<Command> = Vec::new();
    commands.push(
        Command::ImageBarrier(
            ImageBarrier {
                image,
                src_stage: PipelineStage::NoStage,
                dst_stage: PipelineStage::Clear,
                src_access: Access::NoAccess,
                dst_access: Access::TransferWrite,
                old_layout: ImageLayout::Undefined,
                new_layout: ImageLayout::TransferDstOptimal,
                ownership: None,
            },
        ),
    );
    commands.push(
        Command::ClearColorImage { image, layout: ImageLayout::TransferDstOptimal, color },
    );
    let closing = match &transfer {
        Some(t) => t.release_barrier(),
        None => ImageBarrier {
            image,
            src_stage: PipelineStage::Clear,
            dst_stage: PipelineStage::Transfer,
            src_access: Access::TransferWrite,
            dst_access: Access::TransferRead,
            old_layout: ImageLayout::TransferDstOptimal,
            new_layout: ImageLayout::TransferSrcOptimal,
            ownership: None,
        },
    };
    commands.push(Command::ImageBarrier(closing));
    proof {
        assert(commands@ =~= clear_sequence(
            families.compute_index(),
            families.transfer_index(),
            image,
            color,
        ));
    }
    commands
}

/// Records the copy: acquire the image from the compute family if the
/// families differ, copy the whole image into the buffer, then make the
/// copy's writes visible to the host. The host barrier is always recorded,
/// coherent memory or not.
pub fn record_copy_commands(
    families: &QueueFamilies,
    image: u64,
    buffer: u64,
    extent: Extent2D,
) -> (r: Vec<Command>)
    ensures
        r@ == copy_sequence(
            families.compute_index(),
            families.transfer_index(),
            image,
            buffer,
            extent,
        ),
{
    let transfer = OwnershipTransfer::between(families, image);
    let mut commands: Vec<Command> = Vec::new();
    if let Some(t) = &transfer {
        commands.push(Command::ImageBarrier(t.acquire_barrier()));
    }
    commands.push(
        Command::CopyImageToBuffer { image, layout: ImageLayout::TransferSrcOptimal, buffer, extent },
    );
    commands.push(
        Command::BufferBarrier(
            BufferBarrier {
                buffer,
                src_stage: PipelineStage::Copy,
                dst_stage: PipelineStage::Host,
                src_access: Access::TransferWrite,
                dst_access: Access::HostRead,
            },
        ),
    );
    proof {
        assert(commands@ =~= copy_sequence(
            families.compute_index(),
            families.transfer_index(),
            image,
            buffer,
            extent,
        ));
    }
    commands
}

/// The command is half of an ownership transfer.
pub open spec fn is_ownership_barrier(c: Command) -> bool {
    c matches Command::ImageBarrier(b) && b.ownership is Some
}

/// Exactly one command of `s`, the one at `k`, is an ownership barrier.
pub open spec fn only_ownership_barrier_at(s: Seq<Command>, k: int) -> bool {
    &&& 0 <= k < s.len()
    &&& is_ownership_barrier(s[k])
    &&& forall|j: int| 0 <= j < s.len() && j != k ==> !is_ownership_barrier(#[trigger] s[j])
}

/// The release and the acquire are the two halves of one transfer: same
/// image, same families, same layout endpoints.
pub open spec fn matched_pair(release: Command, acquire: Command) -> bool {
    match (release, acquire) {
        (Command::ImageBarrier(r), Command::ImageBarrier(a)) => {
            &&& r.image == a.image
            &&& r.ownership == a.ownership
            &&& r.old_layout == a.old_layout
            &&& r.new_layout == a.new_layout
            &&& r.dst_access == Access::NoAccess
            &&& a.src_access == Access::NoAccess
        },
        _ => false,
    }
}

/// Recording the clear and then the copy: on one family neither sequence
/// holds an ownership barrier; on two families the clear holds exactly one
/// release and the copy exactly one acquire, and they match, from the
/// compute family to the transfer family.
pub proof fn lemma_ownership_transfer_pairing(
    compute: u32,
    transfer: u32,
    image: u64,
    buffer: u64,
    extent: Extent2D,
    color: ClearColor,
)
    ensures
        ({
            let c = clear_sequence(compute, transfer, image, color);
            let t = copy_sequence(compute, transfer, image, buffer, extent);
            &&& compute == transfer ==> (forall|k: int|
                0 <= k < c.len() ==> !is_ownership_barrier(#[trigger] c[k])) && (forall|k: int|
                0 <= k < t.len() ==> !is_ownership_barrier(#[trigger] t[k]))
            &&& compute != transfer ==> {
                &&& only_ownership_barrier_at(c, 2)
                &&& only_ownership_barrier_at(t, 0)
                &&& matched_pair(c[2], t[0])
                &&& c[2] matches Command::ImageBarrier(r) && r.ownership == Some(
                    FamilyPair { src_family: compute, dst_family: transfer },
                )
            }
        }),
{
    let c = clear_sequence(compute, transfer, image, color);
    let t = copy_sequence(compute, transfer, image, buffer, extent);
    if compute == transfer {
        assert(t =~= seq![t[0], t[1]]);
    } else {
        assert(t.len() == 3);
    }
}

} // verus!
