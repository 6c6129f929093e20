//! Lifecycle of the hardware rendering context that the render thread owns.
//!
//! Nothing here calls the graphics driver. Bringing a context up is a fixed
//! series of driver operations, each of which can fail; [`ContextSetup`]
//! decides which operation comes next and what a failure means, the caller
//! performs the operation and reports how it went. A context that came up is
//! an [`OpenGLContext`]; it plans the operations that keep it current and
//! resize its drawable, and [`round_step`] leads the caller through such a
//! plan: one attempt at each operation, in order, and no further than the
//! first that fails.

use crate::message::{is_size_valid, size_valid, DisplayHandle, SurfaceHandle};
use crate::trusted::{config_template, context_attributes, template_with_alpha};
use glutin::config::ConfigTemplate;
use glutin::context::ContextAttributes;
use vstd::prelude::*;

verus! {

/// Bits of alpha asked of every framebuffer configuration.
pub const ALPHA_SIZE: u8 = 8;

/// Why the setup of a context failed.
#[derive(Debug, Clone, Copy, PartialEq, Eq, Structural)]
pub enum ContextError {
    /// The display handle names no display.
    NullDisplayHandle,
    /// The driver could not open the display.
    DisplayUnavailable,
    /// The driver could not list its framebuffer configurations.
    ConfigQueryFailed,
    /// The driver offers no configuration that fits.
    NoConfig,
    /// The driver could not create a rendering context.
    ContextCreationFailed,
    /// The surface handle names no surface.
    NullSurfaceHandle,
    /// A drawable was asked for with a side of zero pixels.
    ZeroSize,
    /// The driver could not create the drawable on the native surface.
    SurfaceCreationFailed,
    /// The context could not be bound to the calling thread.
    MakeCurrentFailed,
    /// A report arrived that answers no operation that was asked for.
    OutOfOrder,
}

/// `i` is the configuration to use among those whose multisample counts are
/// `samples`: none has more samples, and of those with as many it comes last.
pub open spec fn is_best_config(samples: Seq<u8>, i: int) -> bool {
    &&& 0 <= i < samples.len()
    &&& forall|j: int| 0 <= j < samples.len() ==> samples[j] <= samples[i]
    &&& forall|j: int| i < j < samples.len() ==> samples[j] < samples[i]
}

/// The configuration to use, as a function of the sample counts.
pub open spec fn best_config(samples: Seq<u8>) -> Option<int> {
    if samples.len() == 0 {
        None
    } else {
        Some(choose|i: int| is_best_config(samples, i))
    }
}

/// At most one configuration is the best.
pub proof fn lemma_best_config_unique(samples: Seq<u8>, i: int, j: int)
    requires
        is_best_config(samples, i),
        is_best_config(samples, j),
    ensures
        i == j,
{
    if i < j {
        assert(samples[i] <= samples[j]);
    } else if j < i {
        assert(samples[j] <= samples[i]);
    }
}

/// Every list of configurations that is not empty has a best one.
pub proof fn lemma_best_config_exists(samples: Seq<u8>)
    requires
        samples.len() > 0,
    ensures
        best_config(samples) matches Some(i) && is_best_config(samples, i),
    decreases samples.len(),
{
    let last = samples.len() - 1;
    if samples.len() == 1 {
        assert(is_best_config(samples, 0));
    } else {
        let front = samples.drop_last();
        lemma_best_config_exists(front);
        let i = best_config(front).unwrap();
        assert(forall|j: int| 0 <= j < front.len() ==> front[j] == samples[j]);
        if samples[i] > samples[last] {
            assert(is_best_config(samples, i));
        } else {
            assert(is_best_config(samples, last));
        }
    }
}

/// Picks the framebuffer configuration with the highest multisample count.
/// `samples[k]` is the count of the `k`-th configuration that the driver
/// listed; among equals the one listed last wins.
pub fn select_config(samples: &Vec<u8>) -> (r: Option<usize>)
    ensures
        samples@.len() == 0 <==> r is None,
        r matches Some(i) ==> is_best_config(samples@, i as int),
        r matches Some(i) ==> best_config(samples@) == Some(i as int),
        r is None ==> best_config(samples@) is None,
{
    if samples.len() == 0 {
        return None;
    }
    let mut best: usize = 0;
    let mut k: usize = 1;
    while k < samples.len()
        invariant
            1 <= k <= samples.len(),
            best < k,
            forall|j: int| 0 <= j < k ==> samples@[j] <= samples@[best as int],
            forall|j: int| best < j < k ==> samples@[j] < samples@[best as int],
        decreases samples.len() - k,
    {
        if samples[best] <= samples[k] {
            best = k;
        }
        k += 1;
    }
    proof {
        let c = choose|i: int| is_best_config(samples@, i);
        assert(is_best_config(samples@, best as int));
        lemma_best_config_unique(samples@, c, best as int);
    }
    Some(best)
}

/// The native handles and the size from which a context is built.
#[derive(Debug, Clone, Copy, PartialEq, Eq)]
pub struct ContextRequest {
    pub display_id: DisplayHandle,
    pub surface_id: SurfaceHandle,
    /// Size of the first drawable, in physical pixels, width first.
    pub size: (u32, u32),
}

/// How far the setup of a context has come: the name of the driver
/// operation that is under way, or `Idle` before the first.
#[derive(Debug, Clone, Copy, PartialEq, Eq, Structural)]
pub enum SetupStage {
    Idle,
    OpeningDisplay,
    FindingConfigs,
    CreatingContext,
    CreatingSurface,
    MakingCurrent,
}

/// A setup as plain data: what was asked for, the operation under way, and
/// the configuration chosen (meaningful from `CreatingContext` on).
#[derive(Debug, Clone, Copy, PartialEq, Eq)]
pub struct SetupState {
    pub request: ContextRequest,
    pub stage: SetupStage,
    pub config: usize,
}

/// A live context as plain data: what it was built from and the index, in
/// the driver's list, of the configuration it uses.
#[derive(Debug, Clone, Copy, PartialEq, Eq)]
pub struct ContextInfo {
    pub request: ContextRequest,
    pub config: usize,
}

/// What the caller reports to a setup.
#[derive(Debug, PartialEq)]
pub enum SetupEvent {
    /// Nothing was asked for yet: start.
    Begin,
    /// The operation last asked for succeeded.
    Completed,
    /// The configurations were listed; these are their multisample counts,
    /// in the driver's order.
    ConfigsFound(Vec<u8>),
    /// The operation last asked for failed.
    Failed,
}

/// A driver operation that a setup asks for, as plain data.
#[derive(Debug, Clone, Copy, PartialEq, Eq, Structural)]
pub enum SetupOp {
    /// Open the display behind this handle.
    OpenDisplay { display_id: DisplayHandle },
    /// List the configurations that have this many bits of alpha.
    FindConfigs { alpha_size: u8 },
    /// Create a context, not yet current, for the `config`-th configuration
    /// listed.
    CreateContext { config: usize },
    /// Create a drawable of this size on the native surface, for the same
    /// configuration.
    CreateSurface { config: usize, surface_id: SurfaceHandle, width: u32, height: u32 },
    /// Bind the context to the calling thread, drawing to the drawable.
    MakeCurrent,
}

/// A driver operation that a setup asks for, together with the arguments
/// that the driver takes in its own types where the setup can build them.
#[derive(Debug)]
pub enum SetupAction {
    /// Open the display behind this handle.
    OpenDisplay { display_id: DisplayHandle },
    /// List the configurations that fit `template`, which asks for
    /// `alpha_size` bits of alpha.
    FindConfigs { alpha_size: u8, template: ConfigTemplate },
    /// Create a context, not yet current, for the `config`-th configuration
    /// listed, with these attributes.
    CreateContext { config: usize, attributes: ContextAttributes },
    /// Create a drawable of this size on the native surface, for the same
    /// configuration.
    CreateSurface { config: usize, surface_id: SurfaceHandle, width: u32, height: u32 },
    /// Bind the context to the calling thread, drawing to the drawable.
    MakeCurrent,
}

impl View for SetupAction {
    type V = SetupOp;

    open spec fn view(&self) -> SetupOp {
        match self {
            SetupAction::OpenDisplay { display_id } => SetupOp::OpenDisplay {
                display_id: *display_id,
            },
            SetupAction::FindConfigs { alpha_size, .. } => SetupOp::FindConfigs {
                alpha_size: *alpha_size,
            },
            SetupAction::CreateContext { config, .. } => SetupOp::CreateContext { config: *config },
            SetupAction::CreateSurface { config, surface_id, width, height } => {
                SetupOp::CreateSurface {
                    config: *config,
                    surface_id: *surface_id,
                    width: *width,
                    height: *height,
                }
            },
            SetupAction::MakeCurrent => SetupOp::MakeCurrent,
        }
    }
}

impl SetupAction {
    /// The driver's own arguments are the ones that the plain data calls
    /// for: a template is glutin's template for the number of alpha bits.
    pub open spec fn well_formed(self) -> bool {
        self matches SetupAction::FindConfigs { alpha_size, template } ==> template
            == template_with_alpha(alpha_size)
    }

    /// The operation as plain data.
    pub fn op(&self) -> (op: SetupOp)
        ensures
            op == self@,
    {
        match self {
            SetupAction::OpenDisplay { display_id } => SetupOp::OpenDisplay {
                display_id: *display_id,
            },
            SetupAction::FindConfigs { alpha_size, .. } => SetupOp::FindConfigs {
                alpha_size: *alpha_size,
            },
            SetupAction::CreateContext { config, .. } => SetupOp::CreateContext { config: *config },
            SetupAction::CreateSurface { config, surface_id, width, height } => {
                SetupOp::CreateSurface {
                    config: *config,
                    surface_id: *surface_id,
                    width: *width,
                    height: *height,
                }
            },
            SetupAction::MakeCurrent => SetupOp::MakeCurrent,
        }
    }
}

/// Where one report takes a setup, over plain data.
pub enum SetupOutcome {
    /// The setup goes on: perform the operation and report.
    Perform(SetupState, SetupOp),
    /// The context is current: the setup is over.
    Ready(ContextInfo),
    /// The setup is over and no context exists.
    Abort(ContextError),
}

/// The setup's transition function. The operations are asked for in one
/// order: open the display, list the configurations, create the context,
/// create the drawable, make the context current. The size is examined
/// before anything is asked of the driver: a drawable with a side of zero
/// pixels cannot exist, so no display is opened and no context created for
/// one. A handle is examined just before the operation that needs it. Any
/// failure ends the setup, and so does a report that does not answer the
/// operation under way.
pub open spec fn setup_step(s: SetupState, e: SetupEvent) -> SetupOutcome {
    match (s.stage, e) {
        (SetupStage::Idle, SetupEvent::Begin) => {
            if s.request.display_id.null() {
                SetupOutcome::Abort(ContextError::NullDisplayHandle)
            } else if !size_valid(s.request.size) {
                SetupOutcome::Abort(ContextError::ZeroSize)
            } else {
                SetupOutcome::Perform(
                    SetupState { stage: SetupStage::OpeningDisplay, ..s },
                    SetupOp::OpenDisplay { display_id: s.request.display_id },
                )
            }
        },
        (SetupStage::OpeningDisplay, SetupEvent::Completed) => SetupOutcome::Perform(
            SetupState { stage: SetupStage::FindingConfigs, ..s },
            SetupOp::FindConfigs { alpha_size: ALPHA_SIZE },
        ),
        (SetupStage::OpeningDisplay, SetupEvent::Failed) => SetupOutcome::Abort(
            ContextError::DisplayUnavailable,
        ),
        (SetupStage::FindingConfigs, SetupEvent::ConfigsFound(samples)) => {
            match best_config(samples@) {
                Some(i) => SetupOutcome::Perform(
                    SetupState { stage: SetupStage::CreatingContext, config: i as usize, ..s },
                    SetupOp::CreateContext { config: i as usize },
                ),
                None => SetupOutcome::Abort(ContextError::NoConfig),
            }
        },
        (SetupStage::FindingConfigs, SetupEvent::Failed) => SetupOutcome::Abort(
            ContextError::ConfigQueryFailed,
        ),
        (SetupStage::CreatingContext, SetupEvent::Completed) => {
            if s.request.surface_id.null() {
                SetupOutcome::Abort(ContextError::NullSurfaceHandle)
            } else {
                SetupOutcome::Perform(
                    SetupState { stage: SetupStage::CreatingSurface, ..s },
                    SetupOp::CreateSurface {
                        config: s.config,
                        surface_id: s.request.surface_id,
                        width: s.request.size.0,
                        height: s.request.size.1,
                    },
                )
            }
        },
        (SetupStage::CreatingContext, SetupEvent::Failed) => SetupOutcome::Abort(
            ContextError::ContextCreationFailed,
        ),
        (SetupStage::CreatingSurface, SetupEvent::Completed) => SetupOutcome::Perform(
            SetupState { stage: SetupStage::MakingCurrent, ..s },
            SetupOp::MakeCurrent,
        ),
        (SetupStage::CreatingSurface, SetupEvent::Failed) => SetupOutcome::Abort(
            ContextError::SurfaceCreationFailed,
        ),
        (SetupStage::MakingCurrent, SetupEvent::Completed) => SetupOutcome::Ready(
            ContextInfo { request: s.request, config: s.config },
        ),
        (SetupStage::MakingCurrent, SetupEvent::Failed) => SetupOutcome::Abort(
            ContextError::MakeCurrentFailed,
        ),
        _ => SetupOutcome::Abort(ContextError::OutOfOrder),
    }
}

/// What holds of every setup that the transitions can reach: once anything
/// was asked of the driver, the display handle and the size have been
/// examined; once the drawable is being created, the surface handle has.
pub open spec fn setup_reachable(s: SetupState) -> bool {
    &&& s.stage != SetupStage::Idle ==> {
        &&& !s.request.display_id.null()
        &&& size_valid(s.request.size)
    }
    &&& (s.stage == SetupStage::CreatingSurface || s.stage == SetupStage::MakingCurrent)
        ==> !s.request.surface_id.null()
}

/// What holds of every live context: both handles name something and the
/// drawable it started with has no side of zero pixels.
pub open spec fn context_valid(c: ContextInfo) -> bool {
    &&& !c.request.display_id.null()
    &&& !c.request.surface_id.null()
    &&& size_valid(c.request.size)
}

/// One report never takes a reachable setup to an unreachable one, nor to a
/// live context that is not valid.
pub proof fn lemma_setup_step_preserves_validity(s: SetupState, e: SetupEvent)
    requires
        setup_reachable(s),
    ensures
        match setup_step(s, e) {
            SetupOutcome::Perform(next, _) => setup_reachable(next),
            SetupOutcome::Ready(c) => context_valid(c),
            SetupOutcome::Abort(_) => true,
        },
{
}

/// The setup of a graphics context: the decisions between the driver
/// operations. The caller starts it with [`SetupEvent::Begin`], performs
/// each action that [`ContextSetup::advance`] hands out and reports how it
/// went, until the setup ends in a live context or in an error.
#[derive(Debug)]
pub struct ContextSetup {
    state: SetupState,
}

impl View for ContextSetup {
    type V = SetupState;

    closed spec fn view(&self) -> SetupState {
        self.state
    }
}

/// The graphics context, current on the render thread and bound to a
/// drawable on the native surface. A value exists only once a setup has
/// brought the context up.
#[derive(Debug)]
pub struct OpenGLContext {
    info: ContextInfo,
}

impl View for OpenGLContext {
    type V = ContextInfo;

    closed spec fn view(&self) -> ContextInfo {
        self.info
    }
}

/// Where one report takes a setup.
#[derive(Debug)]
pub enum SetupStep {
    /// The setup goes on: perform the action and report to the setup given.
    Perform(ContextSetup, SetupAction),
    /// The context is current.
    Ready(OpenGLContext),
    /// The setup failed for good; trying again with the same handles cannot
    /// succeed.
    Abort(ContextError),
}

impl View for SetupStep {
    type V = SetupOutcome;

    open spec fn view(&self) -> SetupOutcome {
        match self {
            SetupStep::Perform(setup, action) => SetupOutcome::Perform(setup@, action@),
            SetupStep::Ready(context) => SetupOutcome::Ready(context@),
            SetupStep::Abort(error) => SetupOutcome::Abort(*error),
        }
    }
}

impl ContextSetup {
    #[verifier::type_invariant]
    spec fn reachable(self) -> bool {
        setup_reachable(self.state)
    }

    /// A setup that has come to `stage`.
    fn at(request: ContextRequest, stage: SetupStage, config: usize) -> (setup: ContextSetup)
        requires
            setup_reachable(SetupState { request, stage, config }),
        ensures
            setup@ == (SetupState { request, stage, config }),
    {
        ContextSetup { state: SetupState { request, stage, config } }
    }

    /// The setup as plain data.
    pub fn state(&self) -> (s: SetupState)
        ensures
            s == self@,
            setup_reachable(s),
    {
        proof {
            use_type_invariant(self);
        }
        self.state
    }

    /// Takes the report of the operation under way (or `Begin`) and decides
    /// how the setup goes on.
    pub fn advance(self, event: SetupEvent) -> (r: SetupStep)
        ensures
            r@ == setup_step(self@, event),
            r matches SetupStep::Perform(_, action) ==> action.well_formed(),
    {
        proof {
            use_type_invariant(&self);
            lemma_setup_step_preserves_validity(self.state, event);
        }
        let request = self.state.request;
        let config = self.state.config;
        match (self.state.stage, event) {
            (SetupStage::Idle, SetupEvent::Begin) => {
                if request.display_id.is_null() {
                    SetupStep::Abort(ContextError::NullDisplayHandle)
                } else if !is_size_valid(request.size) {
                    SetupStep::Abort(ContextError::ZeroSize)
                } else {
                    SetupStep::Perform(
                        ContextSetup::at(request, SetupStage::OpeningDisplay, config),
                        SetupAction::OpenDisplay { display_id: request.display_id },
                    )
                }
            },
            (SetupStage::OpeningDisplay, SetupEvent::Completed) => SetupStep::Perform(
                ContextSetup::at(request, SetupStage::FindingConfigs, config),
                SetupAction::FindConfigs {
                    alpha_size: ALPHA_SIZE,
                    template: config_template(ALPHA_SIZE),
                },
            ),
            (SetupStage::OpeningDisplay, SetupEvent::Failed) => SetupStep::Abort(
                ContextError::DisplayUnavailable,
            ),
            (SetupStage::FindingConfigs, SetupEvent::ConfigsFound(samples)) => {
                match select_config(&samples) {
                    Some(chosen) => SetupStep::Perform(
                        ContextSetup::at(request, SetupStage::CreatingContext, chosen),
                        SetupAction::CreateContext {
                            config: chosen,
                            attributes: context_attributes(None),
                        },
                    ),
                    None => SetupStep::Abort(ContextError::NoConfig),
                }
            },
            (SetupStage::FindingConfigs, SetupEvent::Failed) => SetupStep::Abort(
                ContextError::ConfigQueryFailed,
            ),
            (SetupStage::CreatingContext, SetupEvent::Completed) => {
                if request.surface_id.is_null() {
                    SetupStep::Abort(ContextError::NullSurfaceHandle)
                } else {
                    SetupStep::Perform(
                        ContextSetup::at(request, SetupStage::CreatingSurface, config),
                        SetupAction::CreateSurface {
                            config,
                            surface_id: request.surface_id,
                            width: request.size.0,
                            height: request.size.1,
                        },
                    )
                }
            },
            (SetupStage::CreatingContext, SetupEvent::Failed) => SetupStep::Abort(
                ContextError::ContextCreationFailed,
            ),
            (SetupStage::CreatingSurface, SetupEvent::Completed) => SetupStep::Perform(
                ContextSetup::at(request, SetupStage::MakingCurrent, config),
                SetupAction::MakeCurrent,
            ),
            (SetupStage::CreatingSurface, SetupEvent::Failed) => SetupStep::Abort(
                ContextError::SurfaceCreationFailed,
            ),
            (SetupStage::MakingCurrent, SetupEvent::Completed) => SetupStep::Ready(
                OpenGLContext { info: ContextInfo { request, config } },
            ),
            (SetupStage::MakingCurrent, SetupEvent::Failed) => SetupStep::Abort(
                ContextError::MakeCurrentFailed,
            ),
            _ => SetupStep::Abort(ContextError::OutOfOrder),
        }
    }
}

/// Nothing invalid reaches the driver: the display that a setup asks to
/// open and the surface it asks to draw on are named by handles that are
/// not null, and the drawable it asks for has no side of zero pixels.
pub proof fn lemma_setup_asks_only_for_what_can_exist(s: SetupState, e: SetupEvent)
    requires
        setup_reachable(s),
    ensures
        match setup_step(s, e) {
            SetupOutcome::Perform(_, SetupOp::OpenDisplay { display_id }) => !display_id.null(),
            SetupOutcome::Perform(_, SetupOp::CreateSurface { surface_id, width, height, .. }) => {
                &&& !surface_id.null()
                &&& width > 0
                &&& height > 0
            },
            _ => true,
        },
{
}

/// A request for a drawable with a side of zero pixels never gets anything
/// done: whatever is reported to its setup, no operation is asked of the
/// driver and no context comes up. The setup ends in an error at its first
/// step, before a display is opened or a context created.
pub proof fn lemma_zero_size_asks_nothing_of_the_driver(s: SetupState, e: SetupEvent)
    requires
        setup_reachable(s),
        s.request.size.0 == 0 || s.request.size.1 == 0,
    ensures
        s.stage == SetupStage::Idle,
        setup_step(s, e) is Abort,
        e == SetupEvent::Begin && !s.request.display_id.null() ==> setup_step(s, e)
            == SetupOutcome::Abort(ContextError::ZeroSize),
{
}

/// A failed operation ends the setup, whatever the operation was.
pub proof fn lemma_setup_failure_is_fatal(s: SetupState)
    ensures
        setup_step(s, SetupEvent::Failed) is Abort,
{
}

/// A context comes up in one way only: the last operation, making it
/// current, succeeded.
pub proof fn lemma_setup_ready_only_after_make_current(s: SetupState, e: SetupEvent)
    requires
        setup_step(s, e) is Ready,
    ensures
        s.stage == SetupStage::MakingCurrent,
        e == SetupEvent::Completed,
{
}

/// When both handles name something, the size is valid, the driver lists at
/// least one configuration and no operation fails, the setup asks for the
/// five operations in their order, on the best configuration, and ends in a
/// live context built from the request.
pub proof fn lemma_setup_success_path(request: ContextRequest, samples: Vec<u8>)
    requires
        !request.display_id.null(),
        !request.surface_id.null(),
        size_valid(request.size),
        samples@.len() > 0,
    ensures
        best_config(samples@) is Some,
        ({
            let config = best_config(samples@).unwrap() as usize;
            let at = |stage: SetupStage, config: usize| SetupState { request, stage, config };
            &&& 0 <= config < samples@.len()
            &&& is_best_config(samples@, config as int)
            &&& setup_step(at(SetupStage::Idle, 0), SetupEvent::Begin) == SetupOutcome::Perform(
                at(SetupStage::OpeningDisplay, 0),
                SetupOp::OpenDisplay { display_id: request.display_id },
            )
            &&& setup_step(at(SetupStage::OpeningDisplay, 0), SetupEvent::Completed)
                == SetupOutcome::Perform(
                at(SetupStage::FindingConfigs, 0),
                SetupOp::FindConfigs { alpha_size: ALPHA_SIZE },
            )
            &&& setup_step(at(SetupStage::FindingConfigs, 0), SetupEvent::ConfigsFound(samples))
                == SetupOutcome::Perform(
                at(SetupStage::CreatingContext, config),
                SetupOp::CreateContext { config },
            )
            &&& setup_step(at(SetupStage::CreatingContext, config), SetupEvent::Completed)
                == SetupOutcome::Perform(
                at(SetupStage::CreatingSurface, config),
                SetupOp::CreateSurface {
                    config,
                    surface_id: request.surface_id,
                    width: request.size.0,
                    height: request.size.1,
                },
            )
            &&& setup_step(at(SetupStage::CreatingSurface, config), SetupEvent::Completed)
                == SetupOutcome::Perform(
                at(SetupStage::MakingCurrent, config),
                SetupOp::MakeCurrent,
            )
            &&& setup_step(at(SetupStage::MakingCurrent, config), SetupEvent::Completed)
                == SetupOutcome::Ready(ContextInfo { request, config })
        }),
{
    lemma_best_config_exists(samples@);
    assert(samples@.len() == samples.len());
}

/// An operation on a live context, for the caller to perform.
#[derive(Debug, Clone, Copy, PartialEq, Eq, Structural)]
pub enum ContextOp {
    /// Bind the context to the calling thread, drawing to its drawable.
    MakeCurrent,
    /// Give the drawable this size, in physical pixels.
    Resize { width: u32, height: u32 },
}

/// What it takes to have the context current, given whether it is.
pub open spec fn ensure_current_ops(is_current: bool) -> Seq<ContextOp> {
    if is_current {
        Seq::empty()
    } else {
        seq![ContextOp::MakeCurrent]
    }
}

/// What it takes to resize the drawable: the context is made current first,
/// since a drawable whose context is not current must not be resized.
pub open spec fn resize_ops(is_current: bool, width: u32, height: u32) -> Seq<ContextOp> {
    ensure_current_ops(is_current).push(ContextOp::Resize { width, height })
}

/// Whether the context is current once `ops` have run without failure, if
/// it was current or not before and nothing else rebinds the thread
/// meanwhile.
pub open spec fn current_after(is_current: bool, ops: Seq<ContextOp>) -> bool {
    is_current || ops.contains(ContextOp::MakeCurrent)
}

/// Ensuring the context current is idempotent: after one round the context
/// is current, and a second round right after it binds nothing again.
pub proof fn lemma_ensure_current_idempotent(is_current: bool)
    ensures
        current_after(is_current, ensure_current_ops(is_current)),
        ensure_current_ops(current_after(is_current, ensure_current_ops(is_current)))
            == Seq::<ContextOp>::empty(),
        ensure_current_ops(is_current).len() <= 1,
{
    if !is_current {
        assert(ensure_current_ops(false)[0] == ContextOp::MakeCurrent);
    }
}

/// A resize leaves the context current and binds it at most once, before
/// the drawable is touched.
pub proof fn lemma_resize_makes_current_first(is_current: bool, width: u32, height: u32)
    ensures
        current_after(is_current, resize_ops(is_current, width, height)),
        resize_ops(is_current, width, height).last() == (ContextOp::Resize { width, height }),
        resize_ops(is_current, width, height).drop_last() == ensure_current_ops(is_current),
{
    let ops = resize_ops(is_current, width, height);
    if !is_current {
        assert(ops[0] == ContextOp::MakeCurrent);
    }
}

/// What a round of operations on a live context does next.
#[derive(Debug, Clone, Copy, PartialEq, Eq, Structural)]
pub enum RoundNext {
    /// Perform this operation and report how it went.
    Perform(ContextOp),
    /// Every operation of the plan succeeded: the round is over.
    Done,
    /// This operation failed. The round is over: what comes after it in the
    /// plan is left out and nothing is tried again.
    Failed(ContextOp),
}

/// The rule of a round. The operations of a plan are performed in order,
/// one attempt each, and the first that fails ends the round. `done` is the
/// number of operations performed so far and `ok` says how the last of them
/// went; before the first operation `ok` means nothing.
pub open spec fn round_next(plan: Seq<ContextOp>, done: int, ok: bool) -> RoundNext {
    if 0 < done <= plan.len() && !ok {
        RoundNext::Failed(plan[done - 1])
    } else if 0 <= done < plan.len() {
        RoundNext::Perform(plan[done])
    } else {
        RoundNext::Done
    }
}

/// Decides how a round goes on: `plan` is what [`OpenGLContext::ensure_current`]
/// or [`OpenGLContext::resize`] returned, `done` the number of its operations
/// performed so far, `ok` whether the last of them succeeded.
pub fn round_step(plan: &Vec<ContextOp>, done: usize, ok: bool) -> (r: RoundNext)
    ensures
        r == round_next(plan@, done as int, ok),
{
    if 0 < done && done <= plan.len() && !ok {
        RoundNext::Failed(plan[done - 1])
    } else if done < plan.len() {
        RoundNext::Perform(plan[done])
    } else {
        RoundNext::Done
    }
}

/// How a round ended: the operations that reached the driver, in order, and
/// the one that failed, if one did. The one that failed is the last of
/// those that reached the driver.
pub struct RoundEnd {
    pub performed: Seq<ContextOp>,
    pub failed: Option<ContextOp>,
}

/// How a round ends from the point where `done` operations were performed,
/// the last with outcome `ok`, when the `i`-th operation of the plan, once
/// performed, succeeds just if `oks[i]`.
pub open spec fn round_from(plan: Seq<ContextOp>, oks: Seq<bool>, done: nat, ok: bool) -> RoundEnd
    decreases plan.len() - done,
{
    match round_next(plan, done as int, ok) {
        RoundNext::Perform(_) => round_from(plan, oks, done + 1, oks[done as int]),
        RoundNext::Done => RoundEnd { performed: plan.take(done as int), failed: None },
        RoundNext::Failed(op) => RoundEnd { performed: plan.take(done as int), failed: Some(op) },
    }
}

/// How a whole round ends.
pub open spec fn round(plan: Seq<ContextOp>, oks: Seq<bool>) -> RoundEnd {
    round_from(plan, oks, 0, true)
}

/// The operations of a round that succeeded.
pub open spec fn succeeded(end: RoundEnd) -> Seq<ContextOp> {
    if end.failed is Some {
        end.performed.drop_last()
    } else {
        end.performed
    }
}

/// The size of the drawable once `ops` have succeeded in order, if it was
/// `size` before.
pub open spec fn size_after(size: (u32, u32), ops: Seq<ContextOp>) -> (u32, u32)
    decreases ops.len(),
{
    if ops.len() == 0 {
        size
    } else {
        match ops.last() {
            ContextOp::Resize { width, height } => (width, height),
            ContextOp::MakeCurrent => size_after(size, ops.drop_last()),
        }
    }
}

/// A round that ensures the context current fails just if the context was
/// not current and binding it failed. The failure is that of the one
/// binding: there is no second attempt. A round that succeeds leaves the
/// context current.
pub proof fn lemma_round_of_ensure_current(is_current: bool, oks: Seq<bool>)
    requires
        oks.len() == ensure_current_ops(is_current).len(),
    ensures
        ({
            let end = round(ensure_current_ops(is_current), oks);
            &&& end.performed == ensure_current_ops(is_current)
            &&& end.failed is Some <==> !is_current && !oks[0]
            &&& end.failed matches Some(op) ==> op == ContextOp::MakeCurrent
            &&& end.failed is None ==> current_after(is_current, succeeded(end))
        }),
{
    reveal_with_fuel(round_from, 3);
}

/// A round that resizes the drawable goes as far as its ensuring the
/// context current goes. When that fails, the round ends with that failure:
/// no resize reaches the drawable, which keeps its size. When it succeeds,
/// the resize is performed on a context that is current, and once it has
/// succeeded the drawable has the size asked for.
pub proof fn lemma_round_of_resize(
    size: (u32, u32),
    is_current: bool,
    width: u32,
    height: u32,
    oks: Seq<bool>,
)
    requires
        oks.len() == resize_ops(is_current, width, height).len(),
    ensures
        ({
            let resize = ContextOp::Resize { width, height };
            let end = round(resize_ops(is_current, width, height), oks);
            let ensured = round(ensure_current_ops(is_current), oks.drop_last());
            &&& ensured.failed is Some ==> {
                &&& end == ensured
                &&& !end.performed.contains(resize)
                &&& size_after(size, succeeded(end)) == size
            }
            &&& ensured.failed is None ==> {
                &&& end.performed == resize_ops(is_current, width, height)
                &&& current_after(is_current, end.performed.drop_last())
                &&& end.failed == if oks.last() {
                    None
                } else {
                    Some(resize)
                }
            }
            &&& end.failed is None ==> size_after(size, succeeded(end)) == (width, height)
            &&& end.failed is Some ==> size_after(size, succeeded(end)) == size
            &&& oks.last() ==> (end.failed is None <==> ensured.failed is None)
        }),
{
    let plan = resize_ops(is_current, width, height);
    let before = ensure_current_ops(is_current);
    lemma_round_of_ensure_current(is_current, oks.drop_last());
    reveal_with_fuel(round_from, 4);
    reveal_with_fuel(size_after, 3);
    assert(plan.take(plan.len() as int) =~= plan);
    if !is_current {
        // What reached the driver when the binding failed is the binding.
        assert(plan.take(1) =~= before);
    }
}

impl OpenGLContext {
    #[verifier::type_invariant]
    spec fn valid(self) -> bool {
        context_valid(self.info)
    }

    /// Starts the setup of a context on the native display `display_id`,
    /// drawing to the native surface `surface_id` at `size` physical pixels.
    /// Nothing is examined yet: the first step of the setup does that.
    pub fn new(display_id: DisplayHandle, surface_id: SurfaceHandle, size: (u32, u32)) -> (setup:
        ContextSetup)
        ensures
            setup@ == (SetupState {
                request: ContextRequest { display_id, surface_id, size },
                stage: SetupStage::Idle,
                config: 0,
            }),
    {
        ContextSetup {
            state: SetupState {
                request: ContextRequest { display_id, surface_id, size },
                stage: SetupStage::Idle,
                config: 0,
            },
        }
    }

    /// The context as plain data.
    pub fn info(&self) -> (c: ContextInfo)
        ensures
            c == self@,
            context_valid(c),
    {
        proof {
            use_type_invariant(self);
        }
        self.info
    }

    /// The operations to perform, in order, so that the context is current
    /// on the calling thread. `is_current` says whether the driver reports
    /// it as current now. The caller performs them as a round, led by
    /// [`round_step`]; a round that fails is worth another try at the next
    /// frame.
    pub fn ensure_current(&self, is_current: bool) -> (ops: Vec<ContextOp>)
        ensures
            ops@ == ensure_current_ops(is_current),
    {
        let mut ops: Vec<ContextOp> = Vec::new();
        if !is_current {
            ops.push(ContextOp::MakeCurrent);
        }
        ops
    }

    /// The operations to perform, in order, to give the drawable the size
    /// `width` by `height`. The caller performs them as a round, led by
    /// [`round_step`].
    pub fn resize(&self, is_current: bool, width: u32, height: u32) -> (ops: Vec<ContextOp>)
        requires
            width > 0,
            height > 0,
        ensures
            ops@ == resize_ops(is_current, width, height),
    {
        let mut ops = self.ensure_current(is_current);
        ops.push(ContextOp::Resize { width, height });
        ops
    }
}

} // verus!
