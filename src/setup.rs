use vstd::prelude::*;

verus! {

/// Inner size of a window, in physical pixels.
#[derive(Clone, Copy, Debug, PartialEq, Eq, Structural)]
pub struct WindowSize {
    pub width: u32,
    pub height: u32,
}

/// Pixel format of the presented back buffers.
#[derive(Clone, Copy, Debug, PartialEq, Eq, Structural)]
pub enum PixelFormat {
    /// Four 8-bit unsigned normalized channels: red, green, blue, alpha.
    Rgba8Unorm,
}

/// How presented back buffers are handed back to the swap chain.
#[derive(Clone, Copy, Debug, PartialEq, Eq, Structural)]
pub enum SwapEffect {
    /// Flip model; the contents of a presented buffer are discarded.
    FlipDiscard,
}

/// The parameters of a swap chain that presents into a window.
#[derive(Clone, Copy, Debug, PartialEq, Eq, Structural)]
pub struct SwapChainDesc {
    pub width: u32,
    pub height: u32,
    pub format: PixelFormat,
    pub buffer_count: u32,
    pub sample_count: u32,
    pub sample_quality: u32,
    pub swap_effect: SwapEffect,
}

/// The swap chain for a window of the given size: back buffers of the window's
/// size, two of them, in RGBA8, one sample per pixel, flip-discard.
pub fn swap_chain_desc(size: WindowSize) -> (r: SwapChainDesc)
    ensures
        r == (SwapChainDesc {
            width: size.width,
            height: size.height,
            format: PixelFormat::Rgba8Unorm,
            buffer_count: 2,
            sample_count: 1,
            sample_quality: 0,
            swap_effect: SwapEffect::FlipDiscard,
        }),
{
    SwapChainDesc {
        width: size.width,
        height: size.height,
        format: PixelFormat::Rgba8Unorm,
        buffer_count: 2,
        sample_count: 1,
        sample_quality: 0,
        swap_effect: SwapEffect::FlipDiscard,
    }
}

/// The objects created at startup, in the order of creation.
#[derive(Clone, Copy, Debug, PartialEq, Eq, Structural)]
pub enum Stage {
    Window,
    Device,
    Factory,
    SwapChain,
    BackBuffer,
    RenderTargetView,
    VertexBuffer,
    VertexShader,
    PixelShader,
    InputLayout,
}

/// Number of objects created at startup.
pub const STAGE_COUNT: usize = 10;

/// The object created at position `i` of the startup sequence.
pub open spec fn stage_at(i: int) -> Stage {
    if i == 0 {
        Stage::Window
    } else if i == 1 {
        Stage::Device
    } else if i == 2 {
        Stage::Factory
    } else if i == 3 {
        Stage::SwapChain
    } else if i == 4 {
        Stage::BackBuffer
    } else if i == 5 {
        Stage::RenderTargetView
    } else if i == 6 {
        Stage::VertexBuffer
    } else if i == 7 {
        Stage::VertexShader
    } else if i == 8 {
        Stage::PixelShader
    } else {
        Stage::InputLayout
    }
}

/// The object created at position `i` of the startup sequence.
pub fn stage_of(i: usize) -> (r: Stage)
    requires
        i < STAGE_COUNT,
    ensures
        r == stage_at(i as int),
{
    if i == 0 {
        Stage::Window
    } else if i == 1 {
        Stage::Device
    } else if i == 2 {
        Stage::Factory
    } else if i == 3 {
        Stage::SwapChain
    } else if i == 4 {
        Stage::BackBuffer
    } else if i == 5 {
        Stage::RenderTargetView
    } else if i == 6 {
        Stage::VertexBuffer
    } else if i == 7 {
        Stage::VertexShader
    } else if i == 8 {
        Stage::PixelShader
    } else {
        Stage::InputLayout
    }
}

/// Where startup stands.
#[derive(Clone, Copy, Debug, PartialEq, Eq, Structural)]
pub enum Setup {
    /// Every object before position `next` has been created; the one at
    /// `next` is to be created now.
    Creating { next: usize },
    /// Every object has been created: frames can be drawn.
    Ready,
    /// Creating `stage` failed; nothing after it is attempted.
    Failed { stage: Stage },
}

/// What the host does next.
#[derive(Clone, Copy, Debug, PartialEq, Eq, Structural)]
pub enum SetupAction {
    /// Create this object and report whether that succeeded.
    Create { stage: Stage },
    /// Start the frame loop.
    Run,
    /// Give up startup with the error of this stage.
    Abort { stage: Stage },
}

/// The state after the host reports whether the pending object was created.
/// Only a pending creation moves the state; a finished startup stays as it is.
pub open spec fn after(s: Setup, created: bool) -> Setup {
    match s {
        Setup::Creating { next } => if !created {
            Setup::Failed { stage: stage_at(next as int) }
        } else if next + 1 >= STAGE_COUNT {
            Setup::Ready
        } else {
            Setup::Creating { next: (next + 1) as usize }
        },
        _ => s,
    }
}

/// The action that a state asks of the host.
pub open spec fn action_of(s: Setup) -> SetupAction {
    match s {
        Setup::Creating { next } => SetupAction::Create { stage: stage_at(next as int) },
        Setup::Ready => SetupAction::Run,
        Setup::Failed { stage } => SetupAction::Abort { stage },
    }
}

/// The state after the host has reported the outcomes of its creations in order,
/// starting from a fresh startup.
pub open spec fn run_setup(outcomes: Seq<bool>) -> Setup
    decreases outcomes.len(),
{
    if outcomes.len() == 0 {
        Setup::Creating { next: 0 }
    } else {
        after(run_setup(outcomes.drop_last()), outcomes.last())
    }
}

impl Setup {
    /// A pending creation names a position of the startup sequence.
    pub open spec fn wf(&self) -> bool {
        self matches Setup::Creating { next } ==> next < STAGE_COUNT
    }

    /// A fresh startup: nothing created, the window comes first.
    pub fn new() -> (r: Setup)
        ensures
            r == (Setup::Creating { next: 0 }),
            r.wf(),
    {
        Setup::Creating { next: 0 }
    }

    /// What the host does next.
    pub fn action(&self) -> (r: SetupAction)
        requires
            self.wf(),
        ensures
            r == action_of(*self),
    {
        match *self {
            Setup::Creating { next } => SetupAction::Create { stage: stage_of(next) },
            Setup::Ready => SetupAction::Run,
            Setup::Failed { stage } => SetupAction::Abort { stage },
        }
    }

    /// Records whether the pending object was created.
    pub fn record(&mut self, created: bool)
        requires
            old(self).wf(),
        ensures
            final(self).wf(),
            *final(self) == after(*old(self), created),
    {
        match *self {
            Setup::Creating { next } => {
                if !created {
                    *self = Setup::Failed { stage: stage_of(next) };
                } else if next + 1 >= STAGE_COUNT {
                    *self = Setup::Ready;
                } else {
                    *self = Setup::Creating { next: next + 1 };
                }
            },
            _ => {},
        }
    }
}

/// While every outcome reported so far is a success, the objects are created in
/// the order of the startup sequence: after `n` successes the one at position
/// `n` is pending, or startup is done once all of them exist.
pub proof fn lemma_creates_in_order(outcomes: Seq<bool>)
    requires
        forall|i: int| 0 <= i < outcomes.len() ==> outcomes[i],
    ensures
        outcomes.len() < STAGE_COUNT ==> run_setup(outcomes) == (Setup::Creating {
            next: outcomes.len() as usize,
        }),
        outcomes.len() >= STAGE_COUNT ==> run_setup(outcomes) == Setup::Ready,
    decreases outcomes.len(),
{
    if outcomes.len() > 0 {
        lemma_creates_in_order(outcomes.drop_last());
    }
}

/// Startup stops at the first failure: when the object at position `j` fails
/// after every one before it was created, startup ends failed at that object,
/// whatever is reported afterwards.
pub proof fn lemma_stops_at_first_failure(outcomes: Seq<bool>, j: int)
    requires
        0 <= j < outcomes.len(),
        j < STAGE_COUNT,
        !outcomes[j],
        forall|i: int| 0 <= i < j ==> outcomes[i],
    ensures
        run_setup(outcomes) == (Setup::Failed { stage: stage_at(j) }),
    decreases outcomes.len(),
{
    if outcomes.len() == j + 1 {
        let before = outcomes.drop_last();
        lemma_creates_in_order(before);
    } else {
        lemma_stops_at_first_failure(outcomes.drop_last(), j);
    }
}

} // verus!
