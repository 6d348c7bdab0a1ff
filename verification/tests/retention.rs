use pdf_content::content::accounting::{geometric_capacity, reserve_vm_slot};
use pdf_content::content::graphics::{CurrentPath, DashPattern, GraphicsVm, VmRetention};
use pdf_content::content::graphics_model::{PaintOperation, PendingClip};
use pdf_content::{
    Accounting, BlendMode, ContentGraphicsLimits, ContentOperatorSource, ContentVmLimits,
    DecodedSpan, DeviceColor, ExecutionAction, FillRule, LineCap, LineJoin, Matrix, ObjectRef,
    Paint, PathSegment, ScenePoint, SceneScalar, SceneUnit,
};

fn operator() -> ContentOperatorSource {
    ContentOperatorSource::new(DecodedSpan::new(ObjectRef::new(4, 0).unwrap(), 0, 0, 1), 0)
}

fn scalar(scaled: i64) -> SceneScalar {
    SceneScalar::from_scaled(scaled)
}

const ONE: i64 = 1_000_000_000;

fn dash(values: &[i64], phase: i64) -> DashPattern {
    DashPattern {
        array: values.iter().map(|value| scalar(*value)).collect(),
        phase: scalar(phase),
    }
}

fn dash_bytes(pattern: &DashPattern) -> u64 {
    (pattern.array.capacity() * std::mem::size_of::<SceneScalar>()) as u64
}

#[test]
fn generic_vm_vector_growth_is_geometric_and_charges_live_move_work() {
    let source = operator();
    let limits = ContentVmLimits::default();
    let mut accounting = Accounting::default();
    let mut values = Vec::<u8>::new();

    reserve_vm_slot(&mut values, 0, 0, limits, source, &mut accounting).expect("initial reserve");
    let initial_capacity = values.capacity();
    assert!(initial_capacity >= 4);
    assert_eq!(accounting.fuel, 0);
    values.resize(initial_capacity, 0);

    reserve_vm_slot(&mut values, 0, 0, limits, source, &mut accounting).expect("grown reserve");
    assert!(values.capacity() >= initial_capacity * 2);
    assert_eq!(accounting.fuel, u64::try_from(initial_capacity).unwrap());
}

#[test]
fn capacity_grows_to_four_then_doubles_then_to_what_is_required() {
    assert_eq!(geometric_capacity(0, 1), 4);
    assert_eq!(geometric_capacity(0, 9), 9);
    assert_eq!(geometric_capacity(4, 5), 8);
    assert_eq!(geometric_capacity(8, 8), 8);
    assert_eq!(geometric_capacity(8, 40), 40);
    assert_eq!(geometric_capacity(usize::MAX - 1, usize::MAX), usize::MAX);
}

#[test]
fn saved_state_restores_every_registered_paint_line_dash_and_clip_field() {
    let source = operator();
    let mut machine = GraphicsVm::new();
    machine.current.line_width = scalar(2_000_000_000);
    machine.current.line_cap = LineCap::Round;
    machine.current.line_join = LineJoin::Bevel;
    machine.current.miter_limit = scalar(12_000_000_000);
    machine.current.stroking = Paint::new(
        DeviceColor::Rgb {
            red: SceneUnit::from_u16(65_535),
            green: SceneUnit::from_u16(0),
            blue: SceneUnit::from_u16(0),
        },
        SceneUnit::from_u16(40_000),
        BlendMode::Multiply,
    );
    machine.current.nonstroking = Paint::new(
        DeviceColor::Gray(SceneUnit::from_u16(12_345)),
        SceneUnit::from_u16(30_000),
        BlendMode::Screen,
    );
    machine.current.clip_depth = 3;
    let outer_dash = dash(&[ONE], 0);
    let outer_dash_bytes = dash_bytes(&outer_dash);
    machine.set_dash(outer_dash, source).expect("set outer dash");
    machine.push_current();

    machine.current.line_width = scalar(ONE);
    machine.current.line_cap = LineCap::Butt;
    machine.current.line_join = LineJoin::Miter;
    machine.current.miter_limit = scalar(ONE);
    machine.current.stroking = Paint::new(
        DeviceColor::Gray(SceneUnit::from_u16(0)),
        SceneUnit::from_u16(65_535),
        BlendMode::Normal,
    );
    machine.current.nonstroking = machine.current.stroking;
    machine.current.clip_depth = 9;
    machine.set_dash(dash(&[2_000_000_000], ONE), source).expect("set inner dash");

    assert_eq!(machine.restore().expect("restore"), Matrix::identity());
    assert_eq!(machine.current.line_width, scalar(2_000_000_000));
    assert_eq!(machine.current.line_cap, LineCap::Round);
    assert_eq!(machine.current.line_join, LineJoin::Bevel);
    assert_eq!(machine.current.miter_limit, scalar(12_000_000_000));
    assert_eq!(machine.current.stroking.alpha(), SceneUnit::from_u16(40_000));
    assert_eq!(machine.current.stroking.blend_mode(), BlendMode::Multiply);
    assert_eq!(machine.current.nonstroking.alpha(), SceneUnit::from_u16(30_000));
    assert_eq!(machine.current.nonstroking.blend_mode(), BlendMode::Screen);
    assert_eq!(machine.current.clip_depth, 3);
    assert_eq!(machine.current_dash().array, [scalar(ONE)]);
    assert_eq!(machine.dash_retained_bytes, outer_dash_bytes);
}

#[test]
fn path_and_saved_state_growth_are_geometric_and_charge_live_move_work() {
    let source = operator();
    let vm_limits = ContentVmLimits::default();

    let mut path = CurrentPath::default();
    let mut path_accounting = Accounting::default();
    path.reserve(1, ContentGraphicsLimits::default(), vm_limits, 0, source, &mut path_accounting)
        .expect("initial path reserve");
    let initial_path_capacity = path.segments.capacity();
    assert!(initial_path_capacity >= 4);
    assert_eq!(path_accounting.fuel, 0);
    let point = ScenePoint::new(scalar(0), scalar(0));
    path.push(PathSegment::MoveTo(point));
    while path.segments.len() < initial_path_capacity {
        path.push(PathSegment::LineTo(point));
    }
    path.reserve(1, ContentGraphicsLimits::default(), vm_limits, 0, source, &mut path_accounting)
        .expect("grown path reserve");
    assert!(path.segments.capacity() >= initial_path_capacity * 2);
    assert_eq!(path_accounting.fuel, u64::try_from(initial_path_capacity).unwrap());
    let grown_path_capacity = path.segments.capacity();
    path.reserve(1, ContentGraphicsLimits::default(), vm_limits, 0, source, &mut path_accounting)
        .expect("spare path reserve");
    assert_eq!(path.segments.capacity(), grown_path_capacity);
    assert_eq!(path_accounting.fuel, u64::try_from(initial_path_capacity).unwrap());

    let mut machine = GraphicsVm::new();
    let mut saved_accounting = Accounting::default();
    let retention = VmRetention::new(0, 0, vm_limits);
    machine
        .reserve_saved_slot(retention, source, &mut saved_accounting)
        .expect("initial saved reserve");
    let initial_saved_capacity = machine.saved.capacity();
    assert!(initial_saved_capacity >= 4);
    assert_eq!(saved_accounting.fuel, 0);
    while machine.saved.len() < initial_saved_capacity {
        machine.push_current();
    }
    machine
        .reserve_saved_slot(retention, source, &mut saved_accounting)
        .expect("grown saved reserve");
    assert!(machine.saved.capacity() >= initial_saved_capacity * 2);
    assert_eq!(saved_accounting.fuel, u64::try_from(initial_saved_capacity).unwrap());
}

fn append_path(machine: &mut GraphicsVm) -> u64 {
    let start = ScenePoint::new(scalar(0), scalar(0));
    let end = ScenePoint::new(scalar(ONE), scalar(ONE));
    machine.path.segments.try_reserve_exact(2).expect("path reserve");
    machine.path.push(PathSegment::MoveTo(start));
    machine.path.push(PathSegment::LineTo(end));
    machine.path.current_point = Some(end);
    machine.path.subpath_start = Some(start);
    machine.path.retained_bytes()
}

fn paint(
    machine: &mut GraphicsVm,
    operation: PaintOperation,
    actions: &mut Vec<ExecutionAction>,
    accounting: &mut Accounting,
) -> bool {
    machine
        .paint(
            operation,
            false,
            ContentGraphicsLimits::default(),
            VmRetention::new(0, 0, ContentVmLimits::default()),
            0,
            0,
            actions,
            operator(),
            accounting,
        )
        .is_ok()
}

#[test]
fn action_payload_retention_counts_unique_path_and_dash_allocations_once() {
    let source = operator();
    let mut accounting = Accounting::default();
    let mut actions = Vec::new();
    let mut machine = GraphicsVm::new();

    let first_dash = dash(&[ONE, 2_000_000_000], 0);
    let first_dash_bytes = dash_bytes(&first_dash);
    machine.set_dash(first_dash, source).expect("set first dash");
    let first_path_bytes = append_path(&mut machine);
    machine.path.pending_clip = Some(PendingClip { rule: FillRule::Nonzero, source });
    assert!(
        paint(
            &mut machine,
            PaintOperation::FillStroke(FillRule::Nonzero),
            &mut actions,
            &mut accounting,
        ),
        "fill-stroke and clip plan"
    );
    assert_eq!(actions.len(), 2);
    assert_eq!(
        machine.action_payload_retained_bytes(),
        Some(first_path_bytes + first_dash_bytes)
    );

    let second_path_bytes = append_path(&mut machine);
    assert!(
        paint(&mut machine, PaintOperation::Stroke, &mut actions, &mut accounting),
        "shared-dash stroke plan"
    );
    assert_eq!(
        machine.action_payload_retained_bytes(),
        Some(first_path_bytes + second_path_bytes + first_dash_bytes)
    );

    let second_dash = dash(&[3_000_000_000, 4_000_000_000, 5_000_000_000], 0);
    let second_dash_bytes = dash_bytes(&second_dash);
    machine.set_dash(second_dash, source).expect("set second dash");
    let third_path_bytes = append_path(&mut machine);
    assert!(
        paint(&mut machine, PaintOperation::Stroke, &mut actions, &mut accounting),
        "distinct-dash stroke plan"
    );
    assert_eq!(
        machine.action_payload_retained_bytes(),
        Some(
            first_path_bytes
                + second_path_bytes
                + third_path_bytes
                + first_dash_bytes
                + second_dash_bytes
        )
    );
    assert_eq!(machine.dash_retained_bytes, first_dash_bytes + second_dash_bytes);
}

#[test]
fn a_replaced_dash_that_nothing_uses_is_released() {
    let source = operator();
    let mut machine = GraphicsVm::new();
    machine.set_dash(dash(&[ONE, ONE], 0), source).unwrap();
    let second = dash(&[ONE, ONE, ONE], 0);
    let second_bytes = dash_bytes(&second);
    machine.set_dash(second, source).unwrap();
    assert_eq!(machine.dash_retained_bytes, second_bytes);
    assert_eq!(machine.action_payload_retained_bytes(), Some(0));
}

#[test]
fn restoring_without_a_saved_state_does_nothing() {
    let mut machine = GraphicsVm::new();
    let before = machine.current;
    assert_eq!(machine.restore(), None);
    assert_eq!(machine.current, before);
}
