//! What holds of a window whatever happens to it, proved over the model
//! that the operations are specified by.

use vstd::prelude::*;
use crate::event::has_resized;
use crate::event::repaint_count;
use crate::event::WaylandWindowEvent;
use crate::event::WindowConfigure;
use crate::event::WindowAction;
use crate::event::WindowEvent;
use crate::geometry::lemma_snap_is_multiple;
use crate::geometry::lemma_unit_factor_is_identity;
use crate::geometry::pixels_to_surface_spec;
use crate::geometry::saturate;
use crate::geometry::snap_spec;
use crate::geometry::snapped_pixels_spec;
use crate::geometry::surface_to_pixels_spec;
use crate::geometry::DEFAULT_DPI;
use crate::model::Lifecycle;
use crate::model::WindowModel;
use crate::pending::PendingEvent;
use crate::state::Dimensions;
use crate::state::WindowConfig;

verus! {

/// Counting repaints distributes over concatenation.
pub proof fn lemma_repaint_count_concat(a: Seq<WindowAction>, b: Seq<WindowAction>)
    ensures
        repaint_count(a + b) == repaint_count(a) + repaint_count(b),
    decreases b.len(),
{
    if b.len() == 0 {
        assert(a + b =~= a);
    } else {
        assert((a + b).drop_last() =~= a + b.drop_last());
        lemma_repaint_count_concat(a, b.drop_last());
    }
}

/// A request to paint tells the application to paint exactly when the window
/// is open and no frame callback is outstanding, and then once.
pub proof fn lemma_paint_request_repaints_when_idle(window: WindowModel)
    ensures
        repaint_count(window.request_paint().1) == if window.has_window && !window.frame_pending {
            1nat
        } else {
            0nat
        },
        window.has_window ==> window.request_paint().0.frame_pending,
        window.has_window && window.frame_pending ==> window.request_paint().0.invalidated,
{
    reveal_with_fuel(repaint_count, 3);
    let pair = seq![
        WindowAction::RequestFrameCallback,
        WindowAction::Dispatch(WindowEvent::NeedRepaint),
    ];
    assert(pair.drop_last() =~= seq![WindowAction::RequestFrameCallback]);
    assert(pair.drop_last().drop_last() =~= Seq::<WindowAction>::empty());
}

/// A frame callback is requested exactly when the pacer goes from idle to
/// waiting, so that one is outstanding exactly while the pacer waits.
pub proof fn lemma_callback_requested_when_pacer_starts_waiting(window: WindowModel)
    ensures
        window.request_paint().1.contains(WindowAction::RequestFrameCallback) <==> (
        !window.frame_pending && window.request_paint().0.frame_pending),
        window.frame_ready().1.contains(WindowAction::RequestFrameCallback)
            <==> window.frame_ready().0.frame_pending,
{
    let pair = seq![
        WindowAction::RequestFrameCallback,
        WindowAction::Dispatch(WindowEvent::NeedRepaint),
    ];
    assert(pair[0] == WindowAction::RequestFrameCallback);
}

/// Two requests to paint an idle window, with no frame in between, tell the
/// application to paint once; the frame that follows tells it once more,
/// and leaves a callback outstanding with nothing owed.
pub proof fn lemma_paint_twice_repaints_once(window: WindowModel)
    requires
        window.has_window,
        !window.frame_pending,
    ensures
        ({
            let (first, first_actions) = window.request_paint();
            let (second, second_actions) = first.request_paint();
            let (third, third_actions) = second.frame_ready();
            &&& repaint_count(first_actions + second_actions) == 1
            &&& second.frame_pending
            &&& second.invalidated
            &&& repaint_count(third_actions) == 1
            &&& third.frame_pending
            &&& !third.invalidated
        }),
{
    let (first, first_actions) = window.request_paint();
    let (second, second_actions) = first.request_paint();
    lemma_paint_request_repaints_when_idle(window);
    lemma_paint_request_repaints_when_idle(first);
    lemma_repaint_count_concat(first_actions, second_actions);
    lemma_paint_request_repaints_when_idle(WindowModel { frame_pending: false, ..second });
}

/// A frame that nothing was owed for tells the application nothing and
/// leaves the pacer idle; one that a paint was owed for tells it once.
pub proof fn lemma_frame_ready_replays_owed_paint(window: WindowModel)
    requires
        window.has_window,
    ensures
        repaint_count(window.frame_ready().1) == if window.invalidated {
            1nat
        } else {
            0nat
        },
        window.frame_ready().0.frame_pending == window.invalidated,
        !window.frame_ready().0.invalidated,
{
    lemma_paint_request_repaints_when_idle(WindowModel { frame_pending: false, ..window });
}

/// After a pass over a pending size, the canonical dimensions of an open
/// window are those that the size comes to under the window state and scale
/// that the pass worked with.
pub proof fn lemma_reconcile_reaches_target(window: WindowModel, pending: PendingEvent)
    requires
        window.has_window,
        window.target_size(pending) is Some,
    ensures
        ({
            let next = window.reconcile(pending).0;
            next.dimensions == window.target_dimensions(
                window.target_size(pending).unwrap(),
                next.window_state,
                window.target_scale(pending),
            )
        }),
{
    reveal(WindowModel::apply_size);
}

/// A pass whose pending size comes to the dimensions that are canonical
/// already raises no `Resized` event, touches neither the rendering surface
/// nor the buffer scale, and leaves dimensions and recorded scale as they
/// were: all it calls for is a commit and a request to paint.
pub proof fn lemma_identical_configure_is_idempotent(window: WindowModel, pending: PendingEvent)
    requires
        window.has_window,
        window.target_size(pending) matches Some(size) && window.target_dimensions(
            size,
            match pending.window_state {
                Some(state) => state,
                None => window.window_state,
            },
            window.target_scale(pending),
        ) == window.dimensions,
    ensures
        ({
            let (next, actions) = window.reconcile(pending);
            let stated = WindowModel { window_state: next.window_state, ..window };
            &&& !has_resized(actions)
            &&& next.dimensions == window.dimensions
            &&& next.surface_factor == window.surface_factor
            &&& actions == (if pending.close {
                seq![WindowAction::Dispatch(WindowEvent::CloseRequested)]
            } else {
                Seq::empty()
            }) + (seq![WindowAction::CommitSurface] + stated.request_paint().1) + (if pending.refresh_decorations {
                seq![WindowAction::CommitSurface]
            } else {
                Seq::empty()
            })
        }),
{
    reveal(WindowModel::apply_size);
    let (next, actions) = window.reconcile(pending);
    assert forall|i: int| 0 <= i < actions.len() implies !(#[trigger] actions[i] matches WindowAction::Dispatch(
        WindowEvent::Resized { .. },
    )) by {}
}

/// The same record reconciled a second time raises no `Resized` event and
/// changes no dimensions.
pub proof fn lemma_reconcile_twice_resizes_once(window: WindowModel, pending: PendingEvent)
    requires
        window.has_window,
        pending.configure is Some,
    ensures
        ({
            let (first, _) = window.reconcile(pending);
            let (second, actions) = first.reconcile(pending);
            &&& !has_resized(actions)
            &&& second.dimensions == first.dimensions
        }),
{
    reveal(WindowModel::apply_size);
    let (first, _) = window.reconcile(pending);
    lemma_reconcile_reaches_target(window, pending);
    lemma_identical_configure_is_idempotent(first, pending);
}

/// A pending close request is passed on before anything else that the pass
/// calls for.
pub proof fn lemma_close_request_comes_first(window: WindowModel, pending: PendingEvent)
    requires
        pending.close,
    ensures
        window.reconcile(pending).1.len() > 0,
        window.reconcile(pending).1[0] == WindowAction::Dispatch(WindowEvent::CloseRequested),
{
}

/// Window creation is let through by the first pass over an open window that
/// has seen a configure notification, and by no other.
pub proof fn lemma_first_configure_completes_creation(window: WindowModel, pending: PendingEvent)
    ensures
        window.reconcile(pending).0.first_configure_pending == (window.first_configure_pending && !(
        pending.had_configure_event && window.has_window)),
        window.lifecycle() == Lifecycle::AwaitingFirstConfigure && pending.had_configure_event
            ==> window.reconcile(pending).0.lifecycle() == Lifecycle::Live,
{
    reveal(WindowModel::apply_size);
}

/// Where the density is a whole multiple of the reference density and that
/// multiple divides the increment, a snapped length comes back from the
/// surface units as it went: it is the snapped length itself, and so a
/// multiple of the increment.
pub proof fn lemma_snapped_size_at_whole_factor(pixels: u32, increment: u16, factor: int)
    requires
        increment > 0,
        factor > 0,
        increment as int % factor == 0,
    ensures
        snapped_pixels_spec(pixels as int, increment as int, DEFAULT_DPI as int * factor)
            == snap_spec(pixels as int, increment as int),
        snapped_pixels_spec(pixels as int, increment as int, DEFAULT_DPI as int * factor) % (
        increment as int) == 0,
{
    let step = increment as int;
    let snapped = snap_spec(pixels as int, step);
    let dpi = 96 * factor;
    lemma_snap_is_multiple(pixels as int, step);
    assert(0 <= pixels as int % step <= pixels as int) by (nonlinear_arith)
        requires
            step > 0,
            pixels >= 0,
    ;
    // the snapped length is a multiple of the factor, as the increment is
    let steps = snapped / step;
    let per_step = step / factor;
    vstd::arithmetic::div_mod::lemma_fundamental_div_mod(snapped, step);
    vstd::arithmetic::div_mod::lemma_fundamental_div_mod(step, factor);
    let surface = steps * per_step;
    assert(snapped == surface * factor) by (nonlinear_arith)
        requires
            snapped == step * steps,
            step == factor * per_step,
            surface == steps * per_step,
    ;
    assert(0 <= surface <= snapped) by (nonlinear_arith)
        requires
            snapped == surface * factor,
            factor > 0,
            snapped >= 0,
    ;
    // on the way out the division is exact
    crate::geometry::lemma_ceil_div_is_ceiling(snapped * 96, dpi);
    let out = pixels_to_surface_spec(snapped, dpi);
    assert(out == surface) by (nonlinear_arith)
        requires
            dpi == 96 * factor,
            factor > 0,
            snapped == surface * factor,
            out * dpi >= snapped * 96,
            (out - 1) * dpi < snapped * 96,
    ;
    // and so it is on the way back
    assert(surface * dpi == snapped * 96) by (nonlinear_arith)
        requires
            dpi == 96 * factor,
            snapped == surface * factor,
    ;
    assert(surface_to_pixels_spec(surface, dpi) == snapped);
}

/// At the reference density a snapped length is the snapped length itself,
/// and so a multiple of the increment.
pub proof fn lemma_snapped_size_at_reference_density(pixels: u32, increment: u16)
    requires
        increment > 0,
    ensures
        snapped_pixels_spec(pixels as int, increment as int, DEFAULT_DPI as int) == snap_spec(
            pixels as int,
            increment as int,
        ),
        snapped_pixels_spec(pixels as int, increment as int, DEFAULT_DPI as int) % (increment as int)
            == 0,
{
    lemma_snapped_size_at_whole_factor(pixels, increment, 1);
}

/// While the window may choose its size and an increment is set, each side
/// of the reconciled pixel size is a multiple of its increment, wherever the
/// density is a whole multiple of the reference density and that multiple
/// divides both increments.  At the reference density itself that is every
/// increment.
pub proof fn lemma_reconciled_size_is_multiple(
    window: WindowModel,
    pending: PendingEvent,
    factor: int,
)
    requires
        window.inv(),
        pending.wf(),
        window.has_window,
        window.target_size(pending) is Some,
        window.resize_increments is Some,
        window.reconcile(pending).0.window_state.can_resize_spec(),
        factor > 0,
        window.config.dpi_for_scale_spec(window.target_scale(pending)) as int == DEFAULT_DPI as int
            * factor,
        window.resize_increments.unwrap().0 as int % factor == 0,
        window.resize_increments.unwrap().1 as int % factor == 0,
    ensures
        window.reconcile(pending).0.dimensions.pixel_width as int % (
        window.resize_increments.unwrap().0 as int) == 0,
        window.reconcile(pending).0.dimensions.pixel_height as int % (
        window.resize_increments.unwrap().1 as int) == 0,
{
    let size = window.target_size(pending).unwrap();
    let step = window.resize_increments.unwrap();
    let scale = window.target_scale(pending);
    let dpi = window.config.dpi_for_scale_spec(scale);
    lemma_reconcile_reaches_target(window, pending);
    lemma_saturated_pixels_fit(size.0, dpi);
    lemma_saturated_pixels_fit(size.1, dpi);
    let pw = saturate(surface_to_pixels_spec(size.0 as int, dpi as int)) as u32;
    let ph = saturate(surface_to_pixels_spec(size.1 as int, dpi as int)) as u32;
    lemma_snapped_size_at_whole_factor(pw, step.0, factor);
    lemma_snapped_size_at_whole_factor(ph, step.1, factor);
    lemma_snapped_pixels_fit(pw, step.0, dpi);
    lemma_snapped_pixels_fit(ph, step.1, dpi);
}

/// A saturated pixel length is a `u32`.
pub proof fn lemma_saturated_pixels_fit(surface: u32, dpi: u64)
    ensures
        0 <= saturate(surface_to_pixels_spec(surface as int, dpi as int)) <= u32::MAX,
{
    crate::geometry::lemma_ceil_div_is_ceiling(surface as int * dpi as int, DEFAULT_DPI as int);
    assert(surface as int * dpi as int >= 0) by (nonlinear_arith)
        requires
            surface >= 0,
            dpi >= 0,
    ;
}

/// A snapped pixel length is a `u32`.
pub proof fn lemma_snapped_pixels_fit(pixels: u32, increment: u16, dpi: u64)
    requires
        increment > 0,
        dpi > 0,
    ensures
        0 <= snapped_pixels_spec(pixels as int, increment as int, dpi as int) <= u32::MAX,
{
    let d = snap_spec(pixels as int, increment as int);
    assert(0 <= pixels as int % increment as int <= pixels as int) by (nonlinear_arith)
        requires
            increment > 0,
            pixels >= 0,
    ;
    crate::geometry::lemma_ceil_div_is_ceiling(d * 96, dpi as int);
    let s = saturate(pixels_to_surface_spec(d, dpi as int));
    assert(pixels_to_surface_spec(d, dpi as int) >= 0) by (nonlinear_arith)
        requires
            d >= 0,
            dpi > 0,
            pixels_to_surface_spec(d, dpi as int) * dpi >= d * 96,
    ;
    lemma_saturated_pixels_fit(s as u32, dpi);
}

/// What a pass keeps, stated of the three operations that end in one.
proof fn lemma_passes_keep_frame(window: WindowModel, event: WaylandWindowEvent, scale: i32)
    requires
        window.inv(),
        scale > 0,
    ensures
        window.dispatch_pending_event().0.inv(),
        window.handle_window_event(event).0.inv(),
        window.scale_factor_changed(scale).0.inv(),
        window.dispatch_pending_event().0.has_window == window.has_window,
        window.handle_window_event(event).0.has_window == window.has_window,
        window.scale_factor_changed(scale).0.has_window == window.has_window,
{
    let drained = WindowModel { pending_event: PendingEvent::empty(), ..window };
    drained.lemma_reconcile_frame(window.pending_event);
    drained.lemma_reconcile_frame(window.recorded(event));
    drained.lemma_reconcile_frame(window.pending_event.with_scale(scale, window.dimensions));
}

/// Every operation keeps the invariant of the window.
pub proof fn lemma_operations_keep_invariant(window: WindowModel, event: WaylandWindowEvent, scale: i32, title: Seq<char>)
    requires
        window.inv(),
        scale > 0,
    ensures
        window.request_paint().0.inv(),
        window.show().0.inv(),
        window.frame_ready().0.inv(),
        window.close().0.inv(),
        window.set_title(title).0.inv(),
        window.dispatch_pending_event().0.inv(),
        window.handle_window_event(event).0.inv(),
        window.scale_factor_changed(scale).0.inv(),
{
    lemma_passes_keep_frame(window, event, scale);
}

/// Nothing reopens a closed window, and only closing closes an open one.
pub proof fn lemma_closed_is_terminal(window: WindowModel, event: WaylandWindowEvent, scale: i32, title: Seq<char>)
    requires
        window.inv(),
        scale > 0,
    ensures
        window.request_paint().0.has_window == window.has_window,
        window.show().0.has_window == window.has_window,
        window.frame_ready().0.has_window == window.has_window,
        window.set_title(title).0.has_window == window.has_window,
        window.dispatch_pending_event().0.has_window == window.has_window,
        window.handle_window_event(event).0.has_window == window.has_window,
        window.scale_factor_changed(scale).0.has_window == window.has_window,
        !window.close().0.has_window,
{
    lemma_passes_keep_frame(window, event, scale);
}

/// A request to paint while a frame callback is outstanding is remembered
/// and calls for nothing, whether the window is open or closed.
pub proof fn lemma_paint_while_awaiting_frame_is_remembered(window: WindowModel)
    requires
        window.frame_pending,
    ensures
        window.request_paint() == (
            WindowModel { invalidated: true, ..window },
            Seq::<WindowAction>::empty(),
        ),
{
}

/// A new window without a configured density that is first configured to a
/// size takes that very size in pixels at the reference density, lets its
/// creation complete, and has nothing pending any more.
pub proof fn lemma_first_configure_at_reference_density(
    pixel_width: u32,
    pixel_height: u32,
    config: WindowConfig,
    configure: WindowConfigure,
)
    requires
        config.dpi is None,
        configure.surface_size_spec() is Some,
    ensures
        ({
            let size = configure.surface_size_spec().unwrap();
            let next = WindowModel::initial(pixel_width, pixel_height, config).handle_window_event(
                WaylandWindowEvent::Request(configure),
            ).0;
            &&& next.dimensions == (Dimensions {
                pixel_width: size.0,
                pixel_height: size.1,
                dpi: DEFAULT_DPI,
            })
            &&& next.lifecycle() == Lifecycle::Live
            &&& next.pending_event == PendingEvent::empty()
        }),
{
    reveal(WindowModel::apply_size);
    let size = configure.surface_size_spec().unwrap();
    lemma_unit_factor_is_identity(size.0 as int);
    lemma_unit_factor_is_identity(size.1 as int);
}

/// A scale told in a pass that leaves the dimensions alone is not lost: the
/// next pass without a scale of its own works with it.
pub proof fn lemma_told_scale_is_kept(window: WindowModel, pending: PendingEvent, later: PendingEvent)
    requires
        window.has_window,
        pending.scale_factor is Some,
        later.scale_factor is None,
    ensures
        window.reconcile(pending).0.output_scale == pending.scale_factor.unwrap(),
        window.reconcile(pending).0.target_scale(later) == pending.scale_factor.unwrap(),
{
    reveal(WindowModel::apply_size);
}

/// A closed window calls for nothing: a request to paint is at most
/// remembered, while a frame callback is still outstanding; showing it
/// changes nothing; a frame changes nothing but the pacer's flags; and a pass
/// passes on the close request it may have been handed and leaves the
/// dimensions alone.
pub proof fn lemma_closed_window_is_inert(window: WindowModel, pending: PendingEvent)
    requires
        !window.has_window,
    ensures
        window.request_paint() == (
            WindowModel { invalidated: window.invalidated || window.frame_pending, ..window },
            Seq::<WindowAction>::empty(),
        ),
        window.show() == (window, Seq::<WindowAction>::empty()),
        window.frame_ready() == (
            WindowModel { frame_pending: false, ..window },
            Seq::<WindowAction>::empty(),
        ),
        window.reconcile(pending).1 == if pending.close {
            seq![WindowAction::Dispatch(WindowEvent::CloseRequested)]
        } else {
            Seq::<WindowAction>::empty()
        },
        window.reconcile(pending).0.dimensions == window.dimensions,
{
    assert(window.reconcile(pending).1 =~= if pending.close {
        seq![WindowAction::Dispatch(WindowEvent::CloseRequested)]
    } else {
        Seq::<WindowAction>::empty()
    });
}

} // verus!
