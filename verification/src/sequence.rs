//! Kernel binding and the linear command sequence.
//!
//! One invocation records exactly one upload copy, then its dispatches in
//! list order, then one download copy, and submits the whole sequence
//! once. The ordering invariant — every upload precedes every dispatch
//! that reads its target, every download follows every dispatch that
//! writes its source — holds by construction and is stated as a proved
//! law below.

use vstd::prelude::*;

use crate::errors::PipelineError;
use crate::image::byte_len;
use crate::kernels::{apply_spec, KernelKind, KernelProgram};
use crate::resources::{ImageResource, TransferBuffer, TransferDirection};

verus! {

/// A kernel bound to its resource slots, ready to dispatch.
#[derive(Debug)]
pub struct DispatchBinding {
    /// The compiled kernel.
    pub program: KernelProgram,
    /// How many resource slots were bound.
    pub bound_slots: usize,
}

impl DispatchBinding {
    /// The binding invariant: bound slots equal the program's declared
    /// slot count.
    pub open spec fn wf(self) -> bool {
        self.bound_slots == self.program.declared_slots()
    }
}

/// Pairs a compiled kernel with the storage image it reads and writes,
/// filling the program's single declared slot.
pub fn bind(program: KernelProgram, image: &ImageResource) -> (b: DispatchBinding)
    requires
        image.wf(),
    ensures
        b.wf(),
        b.program == program,
{
    let slots = program.slot_count();
    DispatchBinding { program, bound_slots: slots }
}

/// The kind of one recorded command, for stating the ordering invariant.
#[derive(Clone, Copy, Debug, PartialEq, Eq, Structural)]
pub enum CommandKind {
    /// Copy the upload staging buffer into the device image.
    UploadCopy,
    /// Run one bound kernel over the device image.
    Dispatch,
    /// Copy the device image into the download staging buffer.
    DownloadCopy,
}

/// What a list of kernel passes leaves in the image, each pass reading
/// the previous pass's output, strictly in list order.
pub open spec fn passes_output(kinds: Seq<KernelKind>, s: Seq<u8>, w: int, h: int) -> Seq<u8>
    decreases kinds.len(),
{
    if kinds.len() == 0 {
        s
    } else {
        apply_spec(kinds.last(), passes_output(kinds.drop_last(), s, w, h), w, h)
    }
}

/// The recorded, validated commands of one invocation, built once and
/// submitted once.
#[derive(Debug)]
pub struct CommandSequence {
    /// The filled upload staging buffer.
    pub upload: TransferBuffer,
    /// The device image every dispatch reads and writes.
    pub image: ImageResource,
    /// The dispatches, in execution order.
    pub dispatches: Vec<DispatchBinding>,
    /// The download staging buffer.
    pub download: TransferBuffer,
    /// Workers per group per axis for every dispatch.
    pub tile_size: u32,
}

impl CommandSequence {
    /// Validity of a recorded sequence: matching directions, matching
    /// byte lengths, well-formed bindings, at least one dispatch.
    pub open spec fn wf(self) -> bool {
        &&& self.image.wf()
        &&& self.upload.wf()
        &&& self.download.wf()
        &&& self.upload.direction == TransferDirection::Upload
        &&& self.download.direction == TransferDirection::Download
        &&& self.upload.data@.len() == byte_len(self.image.width as int, self.image.height as int)
        &&& self.download.data@.len() == byte_len(
            self.image.width as int,
            self.image.height as int,
        )
        &&& self.dispatches@.len() >= 1
        &&& forall|i: int| 0 <= i < self.dispatches@.len() ==> (#[trigger] self.dispatches@[i]).wf()
        &&& self.tile_size >= 1
    }

    /// The kernel variants of the dispatches, in order.
    pub open spec fn pass_kinds(self) -> Seq<KernelKind> {
        self.dispatches@.map_values(|b: DispatchBinding| b.program.kind)
    }

    /// What the device leaves in the download buffer after executing this
    /// sequence: the passes applied in order to the uploaded bytes.
    pub open spec fn sequence_output(self) -> Seq<u8> {
        passes_output(
            self.pass_kinds(),
            self.upload.data@,
            self.image.width as int,
            self.image.height as int,
        )
    }

    /// The recorded command kinds, in program order.
    pub open spec fn op_kinds(self) -> Seq<CommandKind> {
        seq![CommandKind::UploadCopy] + Seq::new(
            self.dispatches@.len(),
            |i: int| CommandKind::Dispatch,
        ) + seq![CommandKind::DownloadCopy]
    }

    /// Records the linear sequence after validating every structural
    /// requirement of the resources against the image.
    ///
    /// Succeeds exactly when the staging directions are right and both
    /// staging lengths equal the image's byte length; any mismatch is
    /// `InvalidResourceDimensions`, and no sequence — hence nothing that
    /// could ever be submitted — exists for it.
    pub fn build(
        upload: TransferBuffer,
        image: ImageResource,
        dispatches: Vec<DispatchBinding>,
        download: TransferBuffer,
        tile_size: u32,
    ) -> (r: Result<CommandSequence, PipelineError>)
        requires
            image.wf(),
            upload.wf(),
            download.wf(),
            forall|i: int| 0 <= i < dispatches@.len() ==> (#[trigger] dispatches@[i]).wf(),
            dispatches@.len() >= 1,
            tile_size >= 1,
        ensures
            r is Ok <==> {
                &&& upload.direction == TransferDirection::Upload
                &&& download.direction == TransferDirection::Download
                &&& upload.data@.len() == byte_len(image.width as int, image.height as int)
                &&& download.data@.len() == byte_len(image.width as int, image.height as int)
            },
            r matches Ok(s) ==> {
                &&& s.wf()
                &&& s.upload == upload
                &&& s.image == image
                &&& s.dispatches == dispatches
                &&& s.download == download
                &&& s.tile_size == tile_size
            },
            r is Err ==> r == Err::<CommandSequence, PipelineError>(
                PipelineError::InvalidResourceDimensions,
            ),
    {
        let ok_directions = match upload.direction {
            TransferDirection::Upload => true,
            TransferDirection::Download => false,
        } && match download.direction {
            TransferDirection::Download => true,
            TransferDirection::Upload => false,
        };
        if !ok_directions {
            return Err(PipelineError::InvalidResourceDimensions);
        }
        if upload.data.len() != image.data.len() || download.data.len() != image.data.len() {
            return Err(PipelineError::InvalidResourceDimensions);
        }
        Ok(CommandSequence { upload, image, dispatches, download, tile_size })
    }
}

/// The ordering law of a recorded sequence: it starts with its upload
/// copy, ends with its download copy, and runs the dispatches between
/// them — so every upload precedes every dispatch, and every download
/// follows every dispatch.
pub proof fn lemma_sequence_ordering(s: CommandSequence)
    requires
        s.wf(),
    ensures
        s.op_kinds().len() == s.dispatches@.len() + 2,
        s.op_kinds()[0] == CommandKind::UploadCopy,
        s.op_kinds()[s.op_kinds().len() - 1] == CommandKind::DownloadCopy,
        forall|i: int|
            0 < i < s.op_kinds().len() - 1 ==> s.op_kinds()[i] == CommandKind::Dispatch,
        forall|i: int, j: int|
            0 <= i < s.op_kinds().len() && 0 <= j < s.op_kinds().len() && s.op_kinds()[i]
                == CommandKind::UploadCopy && s.op_kinds()[j] == CommandKind::Dispatch ==> i < j,
        forall|i: int, j: int|
            0 <= i < s.op_kinds().len() && 0 <= j < s.op_kinds().len() && s.op_kinds()[i]
                == CommandKind::Dispatch && s.op_kinds()[j] == CommandKind::DownloadCopy ==> i < j,
{
}

} // verus!
