use cthulock::message::{DisplayHandle, SurfaceHandle};
use cthulock::ui::egl::{
    round_step, select_config, ContextError, ContextInfo, ContextOp, ContextRequest,
    ContextSetup, OpenGLContext, RoundNext, SetupAction, SetupEvent, SetupOp, SetupStage,
    SetupState, SetupStep, ALPHA_SIZE,
};
use glutin::config::ConfigTemplateBuilder;
use glutin::context::ContextAttributesBuilder;

const DISPLAY: DisplayHandle = DisplayHandle(0x7f10_2000);
const SURFACE: SurfaceHandle = SurfaceHandle(0x7f10_3000);

/// Reports `events` one after another and returns the operations asked for
/// on the way together with the step that the last report led to.
fn drive(setup: ContextSetup, events: Vec<SetupEvent>) -> (Vec<SetupOp>, SetupStep) {
    let mut actions = Vec::new();
    let mut current = setup;
    let mut events = events.into_iter();
    loop {
        let event = events.next().expect("the setup ended before the events did");
        match current.advance(event) {
            SetupStep::Perform(next, action) => {
                actions.push(action.op());
                if events.len() == 0 {
                    return (actions, SetupStep::Perform(next, action));
                }
                current = next;
            }
            last => {
                assert_eq!(events.len(), 0, "the setup ended before the events did");
                return (actions, last);
            }
        }
    }
}

fn abort_of(step: SetupStep) -> ContextError {
    match step {
        SetupStep::Abort(error) => error,
        other => panic!("expected an abort, got {:?}", other),
    }
}

fn live_context(size: (u32, u32), samples: Vec<u8>) -> OpenGLContext {
    let (_, last) = drive(
        OpenGLContext::new(DISPLAY, SURFACE, size),
        vec![
            SetupEvent::Begin,
            SetupEvent::Completed,
            SetupEvent::ConfigsFound(samples),
            SetupEvent::Completed,
            SetupEvent::Completed,
            SetupEvent::Completed,
        ],
    );
    match last {
        SetupStep::Ready(context) => context,
        other => panic!("expected a live context, got {:?}", other),
    }
}

/// A stand-in for the driver that counts what it is asked to do. It can
/// be told that binding the context fails.
struct CountingDriver {
    current: bool,
    binding_fails: bool,
    make_current_calls: u32,
    resizes: Vec<(u32, u32)>,
}

impl CountingDriver {
    fn new(current: bool) -> Self {
        CountingDriver { current, binding_fails: false, make_current_calls: 0, resizes: Vec::new() }
    }

    /// Performs one operation and says whether it succeeded.
    fn run(&mut self, op: ContextOp) -> bool {
        match op {
            ContextOp::MakeCurrent => {
                self.make_current_calls += 1;
                self.current = !self.binding_fails;
                self.current
            }
            ContextOp::Resize { width, height } => {
                assert!(self.current, "resized while the context was not current");
                self.resizes.push((width, height));
                true
            }
        }
    }

    /// Performs a plan as a round and returns the operation that failed,
    /// if one did.
    fn perform(&mut self, plan: Vec<ContextOp>) -> Result<(), ContextOp> {
        let mut done = 0;
        let mut ok = true;
        loop {
            match round_step(&plan, done, ok) {
                RoundNext::Perform(op) => {
                    ok = self.run(op);
                    done += 1;
                }
                RoundNext::Done => return Ok(()),
                RoundNext::Failed(op) => return Err(op),
            }
        }
    }
}

#[test]
fn no_config_to_select() {
    assert_eq!(select_config(&vec![]), None);
}

#[test]
fn single_config_is_selected() {
    assert_eq!(select_config(&vec![0]), Some(0));
    assert_eq!(select_config(&vec![16]), Some(0));
}

#[test]
fn highest_sample_count_wins() {
    assert_eq!(select_config(&vec![0, 4, 2]), Some(1));
    assert_eq!(select_config(&vec![16, 8, 4]), Some(0));
    assert_eq!(select_config(&vec![0, 2, 4, 8]), Some(3));
    assert_eq!(select_config(&vec![0, 255, 254]), Some(1));
}

#[test]
fn last_of_equal_sample_counts_wins() {
    assert_eq!(select_config(&vec![4, 0, 4]), Some(2));
    assert_eq!(select_config(&vec![8, 8, 8]), Some(2));
    assert_eq!(select_config(&vec![0, 0]), Some(1));
    assert_eq!(select_config(&vec![4, 8, 8, 2]), Some(2));
}

#[test]
fn alpha_size_is_eight_bits() {
    assert_eq!(ALPHA_SIZE, 8);
}

#[test]
fn config_template_asks_for_the_alpha_size() {
    let (_, last) = drive(
        OpenGLContext::new(DISPLAY, SURFACE, (800, 600)),
        vec![SetupEvent::Begin, SetupEvent::Completed],
    );
    match last {
        SetupStep::Perform(_, SetupAction::FindConfigs { alpha_size, template }) => {
            assert_eq!(alpha_size, 8);
            let shown = format!("{:?}", template);
            assert!(shown.contains("alpha_size: 8"), "{}", shown);
            let built = ConfigTemplateBuilder::new().with_alpha_size(8).build();
            assert_eq!(shown, format!("{:?}", built));
            let other = ConfigTemplateBuilder::new().with_alpha_size(0).build();
            assert_ne!(shown, format!("{:?}", other));
        }
        other => panic!("expected the configurations to be asked for, got {:?}", other),
    }
}

#[test]
fn context_attributes_are_the_defaults_without_a_window() {
    let (_, last) = drive(
        OpenGLContext::new(DISPLAY, SURFACE, (800, 600)),
        vec![SetupEvent::Begin, SetupEvent::Completed, SetupEvent::ConfigsFound(vec![0, 4])],
    );
    match last {
        SetupStep::Perform(_, SetupAction::CreateContext { config, attributes }) => {
            assert_eq!(config, 1);
            let built = ContextAttributesBuilder::new().build(None);
            assert_eq!(format!("{:?}", attributes), format!("{:?}", built));
        }
        other => panic!("expected the context to be asked for, got {:?}", other),
    }
}

#[test]
fn new_setup_is_idle() {
    let setup = OpenGLContext::new(DISPLAY, SURFACE, (800, 600));
    assert_eq!(
        setup.state(),
        SetupState {
            request: ContextRequest { display_id: DISPLAY, surface_id: SURFACE, size: (800, 600) },
            stage: SetupStage::Idle,
            config: 0,
        }
    );
}

#[test]
fn setup_asks_for_the_operations_in_order() {
    let (actions, last) = drive(
        OpenGLContext::new(DISPLAY, SURFACE, (800, 600)),
        vec![
            SetupEvent::Begin,
            SetupEvent::Completed,
            SetupEvent::ConfigsFound(vec![0, 4, 8, 8, 2]),
            SetupEvent::Completed,
            SetupEvent::Completed,
            SetupEvent::Completed,
        ],
    );
    assert_eq!(
        actions,
        vec![
            SetupOp::OpenDisplay { display_id: DISPLAY },
            SetupOp::FindConfigs { alpha_size: 8 },
            SetupOp::CreateContext { config: 3 },
            SetupOp::CreateSurface { config: 3, surface_id: SURFACE, width: 800, height: 600 },
            SetupOp::MakeCurrent,
        ]
    );
    match last {
        SetupStep::Ready(context) => assert_eq!(
            context.info(),
            ContextInfo {
                request: ContextRequest {
                    display_id: DISPLAY,
                    surface_id: SURFACE,
                    size: (800, 600)
                },
                config: 3,
            }
        ),
        other => panic!("expected a live context, got {:?}", other),
    }
}

#[test]
fn setup_stages_follow_the_operations() {
    let setup = OpenGLContext::new(DISPLAY, SURFACE, (640, 480));
    let mut stages = vec![setup.state().stage];
    let mut current = setup;
    for event in [
        SetupEvent::Begin,
        SetupEvent::Completed,
        SetupEvent::ConfigsFound(vec![2]),
        SetupEvent::Completed,
        SetupEvent::Completed,
    ] {
        current = match current.advance(event) {
            SetupStep::Perform(next, _) => next,
            other => panic!("expected the setup to go on, got {:?}", other),
        };
        stages.push(current.state().stage);
    }
    assert_eq!(
        stages,
        vec![
            SetupStage::Idle,
            SetupStage::OpeningDisplay,
            SetupStage::FindingConfigs,
            SetupStage::CreatingContext,
            SetupStage::CreatingSurface,
            SetupStage::MakingCurrent,
        ]
    );
}

#[test]
fn null_display_handle_is_fatal() {
    let setup = OpenGLContext::new(DisplayHandle(0), SURFACE, (800, 600));
    let (actions, last) = drive(setup, vec![SetupEvent::Begin]);
    assert!(actions.is_empty());
    assert_eq!(abort_of(last), ContextError::NullDisplayHandle);
}

#[test]
fn display_is_examined_before_surface_and_size() {
    let setup = OpenGLContext::new(DisplayHandle(0), SurfaceHandle(0), (0, 0));
    let (_, last) = drive(setup, vec![SetupEvent::Begin]);
    assert_eq!(abort_of(last), ContextError::NullDisplayHandle);
}

#[test]
fn display_that_does_not_open_is_fatal() {
    let setup = OpenGLContext::new(DISPLAY, SURFACE, (800, 600));
    let (actions, last) = drive(setup, vec![SetupEvent::Begin, SetupEvent::Failed]);
    assert_eq!(actions, vec![SetupOp::OpenDisplay { display_id: DISPLAY }]);
    assert_eq!(abort_of(last), ContextError::DisplayUnavailable);
}

#[test]
fn failed_config_query_is_fatal() {
    let setup = OpenGLContext::new(DISPLAY, SURFACE, (800, 600));
    let (_, last) =
        drive(setup, vec![SetupEvent::Begin, SetupEvent::Completed, SetupEvent::Failed]);
    assert_eq!(abort_of(last), ContextError::ConfigQueryFailed);
}

#[test]
fn empty_config_list_is_fatal() {
    let setup = OpenGLContext::new(DISPLAY, SURFACE, (800, 600));
    let (actions, last) = drive(
        setup,
        vec![SetupEvent::Begin, SetupEvent::Completed, SetupEvent::ConfigsFound(vec![])],
    );
    assert_eq!(actions.len(), 2);
    assert_eq!(abort_of(last), ContextError::NoConfig);
}

#[test]
fn failed_context_creation_is_fatal() {
    let setup = OpenGLContext::new(DISPLAY, SURFACE, (800, 600));
    let (_, last) = drive(
        setup,
        vec![
            SetupEvent::Begin,
            SetupEvent::Completed,
            SetupEvent::ConfigsFound(vec![0, 4]),
            SetupEvent::Failed,
        ],
    );
    assert_eq!(abort_of(last), ContextError::ContextCreationFailed);
}

#[test]
fn null_surface_handle_is_fatal_once_the_context_exists() {
    let setup = OpenGLContext::new(DISPLAY, SurfaceHandle(0), (800, 600));
    let (actions, last) = drive(
        setup,
        vec![
            SetupEvent::Begin,
            SetupEvent::Completed,
            SetupEvent::ConfigsFound(vec![0, 4]),
            SetupEvent::Completed,
        ],
    );
    assert_eq!(
        actions,
        vec![
            SetupOp::OpenDisplay { display_id: DISPLAY },
            SetupOp::FindConfigs { alpha_size: 8 },
            SetupOp::CreateContext { config: 1 },
        ]
    );
    assert_eq!(abort_of(last), ContextError::NullSurfaceHandle);
}

#[test]
fn zero_width_is_fatal_before_anything_is_asked() {
    let setup = OpenGLContext::new(DISPLAY, SURFACE, (0, 600));
    let (actions, last) = drive(setup, vec![SetupEvent::Begin]);
    assert!(actions.is_empty());
    assert_eq!(abort_of(last), ContextError::ZeroSize);
}

#[test]
fn zero_height_is_fatal_before_anything_is_asked() {
    let setup = OpenGLContext::new(DISPLAY, SURFACE, (800, 0));
    let (actions, last) = drive(setup, vec![SetupEvent::Begin]);
    assert!(actions.is_empty());
    assert_eq!(abort_of(last), ContextError::ZeroSize);
}

#[test]
fn zero_size_is_examined_before_the_surface_handle() {
    let setup = OpenGLContext::new(DISPLAY, SurfaceHandle(0), (0, 0));
    let (actions, last) = drive(setup, vec![SetupEvent::Begin]);
    assert!(actions.is_empty());
    assert_eq!(abort_of(last), ContextError::ZeroSize);
}

#[test]
fn smallest_size_is_accepted() {
    let setup = OpenGLContext::new(DISPLAY, SURFACE, (1, 1));
    let (actions, _) = drive(setup, vec![SetupEvent::Begin]);
    assert_eq!(actions, vec![SetupOp::OpenDisplay { display_id: DISPLAY }]);
}

#[test]
fn failed_surface_creation_is_fatal() {
    let setup = OpenGLContext::new(DISPLAY, SURFACE, (800, 600));
    let (_, last) = drive(
        setup,
        vec![
            SetupEvent::Begin,
            SetupEvent::Completed,
            SetupEvent::ConfigsFound(vec![4]),
            SetupEvent::Completed,
            SetupEvent::Failed,
        ],
    );
    assert_eq!(abort_of(last), ContextError::SurfaceCreationFailed);
}

#[test]
fn failed_make_current_is_fatal() {
    let setup = OpenGLContext::new(DISPLAY, SURFACE, (800, 600));
    let (actions, last) = drive(
        setup,
        vec![
            SetupEvent::Begin,
            SetupEvent::Completed,
            SetupEvent::ConfigsFound(vec![4]),
            SetupEvent::Completed,
            SetupEvent::Completed,
            SetupEvent::Failed,
        ],
    );
    assert_eq!(actions.last(), Some(&SetupOp::MakeCurrent));
    assert_eq!(abort_of(last), ContextError::MakeCurrentFailed);
}

#[test]
fn report_without_request_is_out_of_order() {
    let idle = || OpenGLContext::new(DISPLAY, SURFACE, (800, 600));
    assert_eq!(abort_of(idle().advance(SetupEvent::Completed)), ContextError::OutOfOrder);
    assert_eq!(abort_of(idle().advance(SetupEvent::Failed)), ContextError::OutOfOrder);
    assert_eq!(
        abort_of(idle().advance(SetupEvent::ConfigsFound(vec![4]))),
        ContextError::OutOfOrder
    );
    let (_, last) = drive(idle(), vec![SetupEvent::Begin, SetupEvent::Begin]);
    assert_eq!(abort_of(last), ContextError::OutOfOrder);
    let (_, last) = drive(idle(), vec![SetupEvent::Begin, SetupEvent::ConfigsFound(vec![4])]);
    assert_eq!(abort_of(last), ContextError::OutOfOrder);
    let (_, last) =
        drive(idle(), vec![SetupEvent::Begin, SetupEvent::Completed, SetupEvent::Completed]);
    assert_eq!(abort_of(last), ContextError::OutOfOrder);
}

#[test]
fn context_that_is_current_needs_nothing() {
    let context = live_context((800, 600), vec![0, 4]);
    assert_eq!(context.ensure_current(true), vec![]);
}

#[test]
fn context_that_is_not_current_is_made_current() {
    let context = live_context((800, 600), vec![0, 4]);
    assert_eq!(context.ensure_current(false), vec![ContextOp::MakeCurrent]);
}

#[test]
fn ensure_current_twice_binds_once() {
    let context = live_context((800, 600), vec![0, 4]);
    let mut driver = CountingDriver::new(false);
    driver.perform(context.ensure_current(driver.current)).unwrap();
    assert_eq!(driver.make_current_calls, 1);
    assert!(driver.current);
    driver.perform(context.ensure_current(driver.current)).unwrap();
    assert_eq!(driver.make_current_calls, 1);
}

#[test]
fn ensure_current_binds_again_after_context_loss() {
    let context = live_context((800, 600), vec![0, 4]);
    let mut driver = CountingDriver::new(true);
    driver.perform(context.ensure_current(driver.current)).unwrap();
    assert_eq!(driver.make_current_calls, 0);
    driver.current = false;
    driver.perform(context.ensure_current(driver.current)).unwrap();
    assert_eq!(driver.make_current_calls, 1);
}

#[test]
fn resize_makes_current_first() {
    let context = live_context((800, 600), vec![0, 4]);
    assert_eq!(
        context.resize(false, 1024, 768),
        vec![ContextOp::MakeCurrent, ContextOp::Resize { width: 1024, height: 768 }]
    );
}

#[test]
fn resize_of_current_context_only_resizes() {
    let context = live_context((800, 600), vec![0, 4]);
    assert_eq!(context.resize(true, 1, 1), vec![ContextOp::Resize { width: 1, height: 1 }]);
    assert_eq!(
        context.resize(true, u32::MAX, 768),
        vec![ContextOp::Resize { width: u32::MAX, height: 768 }]
    );
}

#[test]
fn resizes_in_a_row_bind_once() {
    let context = live_context((800, 600), vec![0, 4]);
    let mut driver = CountingDriver::new(false);
    driver.perform(context.resize(driver.current, 1024, 768)).unwrap();
    driver.perform(context.resize(driver.current, 1280, 720)).unwrap();
    assert_eq!(driver.make_current_calls, 1);
    assert_eq!(driver.resizes, vec![(1024, 768), (1280, 720)]);
}

#[test]
fn round_over_an_empty_plan_is_done_at_once() {
    assert_eq!(round_step(&vec![], 0, true), RoundNext::Done);
    assert_eq!(round_step(&vec![], 0, false), RoundNext::Done);
}

#[test]
fn round_performs_the_plan_in_order() {
    let plan = vec![ContextOp::MakeCurrent, ContextOp::Resize { width: 1024, height: 768 }];
    assert_eq!(round_step(&plan, 0, true), RoundNext::Perform(ContextOp::MakeCurrent));
    assert_eq!(
        round_step(&plan, 1, true),
        RoundNext::Perform(ContextOp::Resize { width: 1024, height: 768 })
    );
    assert_eq!(round_step(&plan, 2, true), RoundNext::Done);
}

#[test]
fn round_stops_at_the_first_failure() {
    let plan = vec![ContextOp::MakeCurrent, ContextOp::Resize { width: 1024, height: 768 }];
    assert_eq!(round_step(&plan, 1, false), RoundNext::Failed(ContextOp::MakeCurrent));
    assert_eq!(
        round_step(&plan, 2, false),
        RoundNext::Failed(ContextOp::Resize { width: 1024, height: 768 })
    );
}

#[test]
fn round_ignores_the_outcome_before_the_first_operation() {
    let plan = vec![ContextOp::MakeCurrent];
    assert_eq!(round_step(&plan, 0, false), RoundNext::Perform(ContextOp::MakeCurrent));
}

#[test]
fn round_past_the_end_of_the_plan_is_done() {
    let plan = vec![ContextOp::MakeCurrent];
    assert_eq!(round_step(&plan, 2, true), RoundNext::Done);
    assert_eq!(round_step(&plan, 2, false), RoundNext::Done);
    assert_eq!(round_step(&plan, usize::MAX, false), RoundNext::Done);
}

#[test]
fn failed_binding_is_handed_on_and_not_tried_again() {
    let context = live_context((800, 600), vec![0, 4]);
    let mut driver = CountingDriver::new(false);
    driver.binding_fails = true;
    assert_eq!(
        driver.perform(context.ensure_current(driver.current)),
        Err(ContextOp::MakeCurrent)
    );
    assert_eq!(driver.make_current_calls, 1);
    driver.binding_fails = false;
    assert_eq!(driver.perform(context.ensure_current(driver.current)), Ok(()));
    assert_eq!(driver.make_current_calls, 2);
    assert!(driver.current);
}

#[test]
fn ensure_current_of_a_current_context_cannot_fail() {
    let context = live_context((800, 600), vec![0, 4]);
    let mut driver = CountingDriver::new(true);
    driver.binding_fails = true;
    assert_eq!(driver.perform(context.ensure_current(driver.current)), Ok(()));
    assert_eq!(driver.make_current_calls, 0);
}

#[test]
fn resize_does_not_touch_the_drawable_when_binding_fails() {
    let context = live_context((800, 600), vec![0, 4]);
    let mut driver = CountingDriver::new(false);
    driver.binding_fails = true;
    assert_eq!(
        driver.perform(context.resize(driver.current, 1024, 768)),
        Err(ContextOp::MakeCurrent)
    );
    assert_eq!(driver.make_current_calls, 1);
    assert!(driver.resizes.is_empty());
    driver.binding_fails = false;
    assert_eq!(driver.perform(context.resize(driver.current, 1024, 768)), Ok(()));
    assert_eq!(driver.resizes, vec![(1024, 768)]);
}
