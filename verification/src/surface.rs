//! The presentation surface: its descriptor and its chain of presentable images.

use vstd::prelude::*;
use crate::context::GraphicsContext;

verus! {

/// The pixel formats that a presentable image can have.
#[derive(Clone, Copy, Debug, PartialEq, Eq, Structural)]
pub enum PixelFormat {
    Bgra8UnormSrgb,
    Rgba8UnormSrgb,
    Bgra8Unorm,
    Rgba8Unorm,
}

/// How finished images reach the screen.
#[derive(Clone, Copy, Debug, PartialEq, Eq, Structural)]
pub enum PresentMode {
    /// Shown at once, without waiting for the display.
    Immediate,
    /// The newest finished image waits for the display; older ones are dropped.
    Mailbox,
    /// Images queue up and are shown in order, one per refresh.
    Fifo,
}

/// What a chain of presentable images is built against.
#[derive(Clone, Copy, Debug, PartialEq, Eq, Structural)]
pub struct SurfaceDescriptor {
    pub width: u32,
    pub height: u32,
    pub format: PixelFormat,
    pub present_mode: PresentMode,
}

impl SurfaceDescriptor {
    /// A chain can only be built for a descriptor that covers some area.
    pub open spec fn has_area(&self) -> bool {
        self.width > 0 && self.height > 0
    }

    /// The same descriptor at another size.
    pub open spec fn with_size(self, width: u32, height: u32) -> SurfaceDescriptor {
        SurfaceDescriptor { width, height, format: self.format, present_mode: self.present_mode }
    }

    /// The descriptor of a window's surface: the given size and format,
    /// presented in display order.
    pub fn new(width: u32, height: u32, format: PixelFormat) -> (descriptor: SurfaceDescriptor)
        ensures
            descriptor == (SurfaceDescriptor {
                width,
                height,
                format,
                present_mode: PresentMode::Fifo,
            }),
    {
        SurfaceDescriptor { width, height, format, present_mode: PresentMode::Fifo }
    }

    /// Whether the descriptor covers some area.
    pub fn covers_area(&self) -> (yes: bool)
        ensures
            yes == self.has_area(),
    {
        self.width > 0 && self.height > 0
    }
}

/// What went wrong with an acquisition that leaves the chain valid.
#[derive(Clone, Copy, Debug, PartialEq, Eq, Structural)]
pub enum Detail {
    /// No image became free in time.
    Timeout,
    /// The surface changed under the chain.
    Outdated,
}

/// Why no image was acquired.
#[derive(Clone, Copy, Debug, PartialEq, Eq, Structural)]
pub enum Status {
    /// The chain is invalid: it has to be rebuilt against the current
    /// descriptor, and the frame tried again later.
    Lost,
    /// Memory ran out: nothing can be done but stop.
    OutOfMemory,
    /// Anything else: this frame is skipped, the chain stays valid.
    Other(Detail),
}

/// What the platform reported when asked for the chain's next image.
#[derive(Clone, Copy, Debug, PartialEq, Eq, Structural)]
pub enum Acquisition {
    Ready,
    Failed(Status),
}

/// One image of the chain, the target of exactly one frame.
#[derive(Clone, Copy, Debug, PartialEq, Eq, Structural)]
pub struct FrameImage {
    pub width: u32,
    pub height: u32,
    pub format: PixelFormat,
}

/// What the caller has to do to the platform's chain after a call.
#[derive(Clone, Copy, Debug, PartialEq, Eq, Structural)]
pub enum ChainAction {
    /// Nothing: the chain, if there is one, stays as it is.
    Keep,
    /// Tear down the chain, if there is one, and build one against this
    /// descriptor.
    Rebuild(SurfaceDescriptor),
}

/// The state of a presentation surface as contracts see it.
pub struct SurfaceState {
    /// The descriptor last accepted.
    pub descriptor: SurfaceDescriptor,
    /// The descriptor that the live chain was built against; `None` while
    /// there is no valid chain.
    pub chain: Option<SurfaceDescriptor>,
}

impl SurfaceState {
    /// A live chain is always built against the current descriptor, which then
    /// covers some area.
    pub open spec fn consistent(self) -> bool {
        self.chain matches Some(built) ==> built == self.descriptor && built.has_area()
    }

    /// Whether a resize to the given size has to build a chain: never for an
    /// empty size; otherwise where there is no valid chain, or the size differs.
    pub open spec fn needs_rebuild(self, width: u32, height: u32) -> bool {
        &&& width > 0
        &&& height > 0
        &&& (self.chain is None || self.descriptor.width != width || self.descriptor.height
            != height)
    }

    /// What a resize asks of the caller.
    pub open spec fn resize_action(self, width: u32, height: u32) -> ChainAction {
        if self.needs_rebuild(width, height) {
            ChainAction::Rebuild(self.descriptor.with_size(width, height))
        } else {
            ChainAction::Keep
        }
    }

    /// The surface after a resize.
    pub open spec fn resized(self, width: u32, height: u32) -> SurfaceState {
        if self.needs_rebuild(width, height) {
            SurfaceState {
                descriptor: self.descriptor.with_size(width, height),
                chain: Some(self.descriptor.with_size(width, height)),
            }
        } else {
            self
        }
    }

    /// What an acquisition yields, given the platform's report. Without a valid
    /// chain there is nothing to acquire from, whatever was reported.
    pub open spec fn acquisition(self, reported: Acquisition) -> Result<FrameImage, Status> {
        match self.chain {
            None => Err(Status::Lost),
            Some(built) => match reported {
                Acquisition::Ready => Ok(
                    FrameImage { width: built.width, height: built.height, format: built.format },
                ),
                Acquisition::Failed(status) => Err(status),
            },
        }
    }

    /// The surface after an acquisition: a lost chain is gone, anything else
    /// leaves the surface as it was.
    pub open spec fn after_acquisition(self, reported: Acquisition) -> SurfaceState {
        if self.acquisition(reported) == Err::<FrameImage, Status>(Status::Lost) {
            SurfaceState { descriptor: self.descriptor, chain: None }
        } else {
            self
        }
    }
}

/// A surface and its chain of presentable images. There is at most one chain
/// at any time, and it is always the one built against the current descriptor.
#[derive(Clone, Copy, Debug)]
pub struct PresentationSurface {
    descriptor: SurfaceDescriptor,
    chain: Option<SurfaceDescriptor>,
}

impl View for PresentationSurface {
    type V = SurfaceState;

    closed spec fn view(&self) -> SurfaceState {
        SurfaceState { descriptor: self.descriptor, chain: self.chain }
    }
}

impl PresentationSurface {
    #[verifier::type_invariant]
    spec fn inv(self) -> bool {
        self@.consistent()
    }

    /// Binds a surface to a device: the context stands for the device, and
    /// nothing of it is read. The first chain is built at once where the
    /// descriptor covers some area; an empty descriptor is kept, and the chain
    /// waits for the first resize to a size that is not empty.
    pub fn create(_context: &GraphicsContext, descriptor: SurfaceDescriptor) -> (surface:
        PresentationSurface)
        ensures
            surface@.descriptor == descriptor,
            surface@.chain == if descriptor.has_area() {
                Some(descriptor)
            } else {
                None::<SurfaceDescriptor>
            },
            surface@.consistent(),
    {
        let chain = if descriptor.covers_area() {
            Some(descriptor)
        } else {
            None
        };
        PresentationSurface { descriptor, chain }
    }

    /// Takes a new window size. An empty size changes nothing, nor does the
    /// size that the valid chain already has; any other size is stored in the
    /// descriptor and the chain is rebuilt against it.
    pub fn resize(&mut self, new_width: u32, new_height: u32) -> (action: ChainAction)
        ensures
            final(self)@ == old(self)@.resized(new_width, new_height),
            action == old(self)@.resize_action(new_width, new_height),
            final(self)@.consistent(),
    {
        proof {
            use_type_invariant(&*self);
        }
        if new_width == 0 || new_height == 0 {
            return ChainAction::Keep;
        }
        if self.chain.is_some() && self.descriptor.width == new_width && self.descriptor.height
            == new_height {
            return ChainAction::Keep;
        }
        let descriptor = SurfaceDescriptor {
            width: new_width,
            height: new_height,
            format: self.descriptor.format,
            present_mode: self.descriptor.present_mode,
        };
        *self = PresentationSurface { descriptor, chain: Some(descriptor) };
        ChainAction::Rebuild(descriptor)
    }

    /// Takes the platform's report on the chain's next image. A ready image has
    /// the size and format that the chain was built with. A lost chain is
    /// dropped, so that the next resize rebuilds it; every other failure leaves
    /// the chain valid.
    pub fn acquire_next_image(&mut self, reported: Acquisition) -> (result: Result<
        FrameImage,
        Status,
    >)
        ensures
            result == old(self)@.acquisition(reported),
            final(self)@ == old(self)@.after_acquisition(reported),
            final(self)@.consistent(),
    {
        proof {
            use_type_invariant(&*self);
        }
        match self.chain {
            None => Err(Status::Lost),
            Some(built) => match reported {
                Acquisition::Ready => Ok(
                    FrameImage { width: built.width, height: built.height, format: built.format },
                ),
                Acquisition::Failed(Status::Lost) => {
                    *self = PresentationSurface { descriptor: self.descriptor, chain: None };
                    Err(Status::Lost)
                },
                Acquisition::Failed(status) => Err(status),
            },
        }
    }

    /// The descriptor last accepted.
    pub fn descriptor(&self) -> (descriptor: SurfaceDescriptor)
        ensures
            descriptor == self@.descriptor,
    {
        self.descriptor
    }

    /// Whether there is a valid chain.
    pub fn has_chain(&self) -> (yes: bool)
        ensures
            yes == self@.chain is Some,
    {
        self.chain.is_some()
    }
}

/// A resize to a size that is not empty leaves a valid chain of exactly that
/// size: the next image that the platform hands out has the new width and
/// height, and the format that the surface had all along.
pub proof fn lemma_resize_then_acquire(surface: SurfaceState, width: u32, height: u32)
    requires
        surface.consistent(),
        width > 0,
        height > 0,
    ensures
        surface.resized(width, height).consistent(),
        surface.resized(width, height).acquisition(Acquisition::Ready) == Ok::<
            FrameImage,
            Status,
        >(FrameImage { width, height, format: surface.descriptor.format }),
{
}

/// Resizing is idempotent: a second resize to the same size builds nothing and
/// changes nothing, so two equal resizes in a row rebuild the chain at most
/// once.
pub proof fn lemma_resize_idempotent(surface: SurfaceState, width: u32, height: u32)
    requires
        surface.consistent(),
    ensures
        surface.resized(width, height).resize_action(width, height) == ChainAction::Keep,
        surface.resized(width, height).resized(width, height) == surface.resized(width, height),
{
}

/// A resize to an empty size attempts no rebuild and leaves the surface, and
/// with it the valid chain if there is one, untouched.
pub proof fn lemma_resize_empty_is_ignored(surface: SurfaceState, width: u32, height: u32)
    requires
        width == 0 || height == 0,
    ensures
        surface.resize_action(width, height) == ChainAction::Keep,
        surface.resized(width, height) == surface,
{
}

/// A lost chain is rebuilt by a resize to the size that the surface already
/// has: the descriptor is the one set before, and the surface is again what it
/// was before the loss.
pub proof fn lemma_lost_chain_is_rebuilt(surface: SurfaceState)
    requires
        surface.consistent(),
        surface.chain is Some,
    ensures
        ({
            let lost = surface.after_acquisition(Acquisition::Failed(Status::Lost));
            &&& lost.chain is None
            &&& lost.resize_action(surface.descriptor.width, surface.descriptor.height)
                == ChainAction::Rebuild(surface.descriptor)
            &&& lost.resized(surface.descriptor.width, surface.descriptor.height) == surface
        }),
{
}

/// The descriptor changes by a resize only, and a resize changes nothing of it
/// but the size: an acquisition leaves it alone, whatever is reported.
pub proof fn lemma_descriptor_changes_by_resize_only(
    surface: SurfaceState,
    reported: Acquisition,
    width: u32,
    height: u32,
)
    ensures
        surface.after_acquisition(reported).descriptor == surface.descriptor,
        surface.resized(width, height).descriptor.format == surface.descriptor.format,
        surface.resized(width, height).descriptor.present_mode == surface.descriptor.present_mode,
        surface.consistent() ==> surface.after_acquisition(reported).consistent()
            && surface.resized(width, height).consistent(),
{
}

} // verus!
