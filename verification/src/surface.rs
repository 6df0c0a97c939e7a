//! Choices made when the presentation surface is configured or a frame is
//! acquired from it.
use vstd::prelude::*;
use crate::config::PresentMode;

verus! {

/// Every presentation mode a surface can report as supported.
#[derive(Clone, Copy, Debug, PartialEq, Eq, Structural)]
pub enum SurfacePresentMode {
    AutoVsync,
    AutoNoVsync,
    Fifo,
    FifoRelaxed,
    Immediate,
    Mailbox,
}

/// The surface mode that a configured present mode asks for.
pub open spec fn requested_mode(m: PresentMode) -> SurfacePresentMode {
    match m {
        PresentMode::Immediate => SurfacePresentMode::Immediate,
        PresentMode::Fifo => SurfacePresentMode::Fifo,
        PresentMode::Mailbox => SurfacePresentMode::Mailbox,
    }
}

impl PresentMode {
    /// The surface mode this configured mode stands for.
    pub fn to_surface(&self) -> (r: SurfacePresentMode)
        ensures
            r == requested_mode(*self),
            *self == PresentMode::Immediate ==> r == SurfacePresentMode::Immediate,
            *self == PresentMode::Fifo ==> r == SurfacePresentMode::Fifo,
            *self == PresentMode::Mailbox ==> r == SurfacePresentMode::Mailbox,
    {
        match self {
            PresentMode::Immediate => SurfacePresentMode::Immediate,
            PresentMode::Fifo => SurfacePresentMode::Fifo,
            PresentMode::Mailbox => SurfacePresentMode::Mailbox,
        }
    }
}

/// The mode a surface is configured with: the requested one where the surface
/// supports it, else the first mode the surface lists.
pub open spec fn chosen_mode(desired: Option<PresentMode>, supported: Seq<SurfacePresentMode>) -> SurfacePresentMode {
    match desired {
        Some(m) if supported.contains(requested_mode(m)) => requested_mode(m),
        _ => supported[0],
    }
}

/// Each configured mode asks for the surface mode of the same name; the
/// chosen mode is that one whenever the surface lists it, and otherwise (or
/// with no configured mode) the first mode the surface lists.
pub proof fn lemma_chosen_mode(desired: Option<PresentMode>, supported: Seq<SurfacePresentMode>)
    requires
        supported.len() > 0,
    ensures
        requested_mode(PresentMode::Immediate) == SurfacePresentMode::Immediate,
        requested_mode(PresentMode::Fifo) == SurfacePresentMode::Fifo,
        requested_mode(PresentMode::Mailbox) == SurfacePresentMode::Mailbox,
        supported.contains(chosen_mode(desired, supported)),
        desired == Some(PresentMode::Immediate) && supported.contains(SurfacePresentMode::Immediate)
            ==> chosen_mode(desired, supported) == SurfacePresentMode::Immediate,
        desired == Some(PresentMode::Fifo) && supported.contains(SurfacePresentMode::Fifo) ==> chosen_mode(
            desired,
            supported,
        ) == SurfacePresentMode::Fifo,
        desired == Some(PresentMode::Mailbox) && supported.contains(SurfacePresentMode::Mailbox)
            ==> chosen_mode(desired, supported) == SurfacePresentMode::Mailbox,
        desired is None ==> chosen_mode(desired, supported) == supported[0],
        desired matches Some(m) && !supported.contains(requested_mode(m)) ==> chosen_mode(desired, supported)
            == supported[0],
{
    assert(supported.contains(supported[0]));
}

fn supports(supported: &Vec<SurfacePresentMode>, mode: SurfacePresentMode) -> (r: bool)
    ensures
        r == supported@.contains(mode),
{
    let mut i: usize = 0;
    while i < supported.len()
        invariant
            i <= supported.len(),
            forall|j: int| 0 <= j < i ==> supported@[j] != mode,
        decreases supported.len() - i,
    {
        if supported[i] == mode {
            return true;
        }
        i = i + 1;
    }
    false
}

/// Picks the present mode for a surface that supports `supported`, in the
/// order the surface reports them.
pub fn choose_present_mode(desired: Option<PresentMode>, supported: &Vec<SurfacePresentMode>) -> (r: SurfacePresentMode)
    requires
        supported.len() > 0,
    ensures
        r == chosen_mode(desired, supported@),
        supported@.contains(r),
        desired == Some(PresentMode::Immediate) && supported@.contains(SurfacePresentMode::Immediate) ==> r
            == SurfacePresentMode::Immediate,
        desired == Some(PresentMode::Fifo) && supported@.contains(SurfacePresentMode::Fifo) ==> r
            == SurfacePresentMode::Fifo,
        desired == Some(PresentMode::Mailbox) && supported@.contains(SurfacePresentMode::Mailbox) ==> r
            == SurfacePresentMode::Mailbox,
        desired is None ==> r == supported@[0],
        desired == Some(PresentMode::Immediate) && !supported@.contains(SurfacePresentMode::Immediate) ==> r
            == supported@[0],
        desired == Some(PresentMode::Fifo) && !supported@.contains(SurfacePresentMode::Fifo) ==> r
            == supported@[0],
        desired == Some(PresentMode::Mailbox) && !supported@.contains(SurfacePresentMode::Mailbox) ==> r
            == supported@[0],
{
    match desired {
        Some(m) => {
            let mode = m.to_surface();
            if supports(supported, mode) {
                return mode;
            }
        },
        None => {},
    }
    assert(supported@.contains(supported@[0]));
    supported[0]
}

/// Index of the first sRGB format, or of the first format when none is sRGB.
pub open spec fn chosen_format(is_srgb: Seq<bool>) -> int {
    if exists|i: int| 0 <= i < is_srgb.len() && is_srgb[i] {
        choose|i: int| 0 <= i < is_srgb.len() && is_srgb[i] && forall|j: int| 0 <= j < i ==> !is_srgb[j]
    } else {
        0
    }
}

/// Picks the surface format: given, for each format the surface offers, whether
/// it is an sRGB format, returns the index of the format to use.
pub fn choose_surface_format(is_srgb: &Vec<bool>) -> (r: usize)
    requires
        is_srgb.len() > 0,
    ensures
        r < is_srgb.len(),
        (exists|i: int| 0 <= i < is_srgb.len() && is_srgb@[i]) ==> is_srgb@[r as int],
        (exists|i: int| 0 <= i < is_srgb.len() && is_srgb@[i]) ==> forall|j: int| 0 <= j < r ==> !is_srgb@[j],
        !(exists|i: int| 0 <= i < is_srgb.len() && is_srgb@[i]) ==> r == 0,
        r == chosen_format(is_srgb@),
{
    let mut i: usize = 0;
    while i < is_srgb.len()
        invariant
            i <= is_srgb.len(),
            forall|j: int| 0 <= j < i ==> !is_srgb@[j],
        decreases is_srgb.len() - i,
    {
        if is_srgb[i] {
            proof {
                let w = choose|k: int| 0 <= k < is_srgb@.len() && is_srgb@[k] && forall|j: int| 0 <= j < k ==> !is_srgb@[j];
                assert(0 <= i < is_srgb@.len() && is_srgb@[i as int] && forall|j: int| 0 <= j < i ==> !is_srgb@[j]);
                if w < i {
                    assert(!is_srgb@[w]);
                } else if w > i {
                    assert(!is_srgb@[i as int]);
                }
            }
            return i;
        }
        i = i + 1;
    }
    0
}

/// A surface only takes a new size in which neither side is zero.
pub fn resize_applies(width: u32, height: u32) -> (r: bool)
    ensures
        r == (width > 0 && height > 0),
{
    width > 0 && height > 0
}

/// What acquiring the next surface texture produced.
#[derive(Clone, Copy, Debug, PartialEq, Eq, Structural)]
pub enum FrameStatus {
    Success,
    Suboptimal,
    Timeout,
    Occluded,
    Outdated,
    Lost,
    Validation,
}

/// What the renderer does with an acquired frame.
#[derive(Clone, Copy, Debug, PartialEq, Eq, Structural)]
pub enum FramePlan {
    /// Draw into the texture and present it.
    Draw,
    /// Reconfigure the surface, then draw and present.
    ReconfigureAndDraw,
    /// Skip this frame without drawing.
    Skip,
}

/// A frame is drawn whenever a texture was acquired; a suboptimal one asks for
/// the surface to be reconfigured first; every other outcome skips the frame.
pub fn frame_plan(status: FrameStatus) -> (r: FramePlan)
    ensures
        r == (match status {
            FrameStatus::Success => FramePlan::Draw,
            FrameStatus::Suboptimal => FramePlan::ReconfigureAndDraw,
            _ => FramePlan::Skip,
        }),
{
    match status {
        FrameStatus::Success => FramePlan::Draw,
        FrameStatus::Suboptimal => FramePlan::ReconfigureAndDraw,
        _ => FramePlan::Skip,
    }
}

} // verus!
