//! The per-window procedure: filter, style, then measure or resize.
//!
//! The procedure needs answers from the window system at several points. It
//! is therefore a state machine: [`window_callback`] takes the stage reached
//! and the answer to the last action, and gives the next stage and the next
//! action. The caller performs each action and feeds the answer back, until
//! the action is [`Action::Finish`].

use crate::geometry::{NativeSize, Rect};
use crate::size::{Extent, Size};
use crate::style::{CornerPreference, PlacementFlags, WindowStyles};
use crate::target::{TargetCriteria, TargetInformation};
use vstd::prelude::*;
use vstd::string::*;

verus! {

/// What a run is asked to do, as mathematical values.
pub struct TransformRequest {
    pub target: TargetCriteria,
    /// The client size to give each target; `None` asks for a measurement.
    pub size: Option<Extent>,
    pub border: Option<bool>,
    pub border_color: Option<u32>,
    pub corner: Option<CornerPreference>,
}

/// The validated configuration of a run.
#[derive(Debug, Clone)]
pub struct Cli {
    /// Which windows the run applies to, and the size offset.
    pub target: TargetInformation,
    /// The client size to give each target; `None` asks for a measurement.
    pub size: Option<Size>,
    /// Turn the frame on or off.
    pub border: Option<bool>,
    /// The packed border color.
    pub border_color: Option<u32>,
    /// How corners are to be rendered.
    pub corner: Option<CornerPreference>,
}

impl View for Cli {
    type V = TransformRequest;

    open spec fn view(&self) -> TransformRequest {
        TransformRequest {
            target: self.target@,
            size: match self.size {
                Some(s) => Some(s@),
                None => None,
            },
            border: self.border,
            border_color: self.border_color,
            corner: self.corner,
        }
    }
}

/// Why the transform of a window failed.
#[derive(Debug, Copy, Clone, PartialEq, Eq, Structural)]
pub enum TransformError {
    /// The client area could not be measured.
    ClientMeasurement,
    /// The outer extent could not be measured.
    WindowMeasurement,
    /// The window system refused the resize.
    Resize,
    /// The offset exceeds the client area, so there is no size to report.
    OffsetExceedsClient,
    /// The client area was measured larger than the window around it.
    ClientExceedsWindow,
    /// The outer size to request does not fit a native size.
    SizeOutOfRange,
    /// The answer does not belong to the action that was asked for.
    UnexpectedEvent,
}

/// How the procedure ended for one window.
#[derive(Debug, Copy, Clone, PartialEq, Eq, Structural)]
pub enum Outcome {
    /// The window is no target; nothing was changed.
    Skipped,
    /// No size was requested; this is the measurement to report.
    Measured(Size),
    /// The window was resized.
    Resized,
    /// A mandatory step failed.
    Failed(TransformError),
}

impl Outcome {
    /// Whether the outcome ends the whole run: a failure of a mandatory step
    /// does, anything else lets the run go on with the next window.
    pub open spec fn fatal(self) -> bool {
        self is Failed
    }

    /// The line of output that the outcome calls for: a measurement is
    /// reported as `<width>x<height>` followed by a tab, anything else is
    /// silent.
    pub open spec fn output(self) -> Option<Seq<char>> {
        match self {
            Outcome::Measured(size) => Some(size@.text().push('\t')),
            _ => None,
        }
    }

    /// Whether the outcome ends the whole run.
    pub fn is_fatal(&self) -> (b: bool)
        ensures
            b == self.fatal(),
    {
        match self {
            Outcome::Failed(_) => true,
            _ => false,
        }
    }

    /// The line of output that the outcome calls for, if any.
    pub fn report_line(&self) -> (line: Option<String>)
        ensures
            line is Some <==> self.output() is Some,
            line matches Some(text) ==> Some(text@) == self.output(),
    {
        match self {
            Outcome::Measured(size) => {
                proof {
                    reveal_strlit("\t");
                }
                let text = size.to_string().concat("\t");
                Some(text)
            },
            _ => None,
        }
    }
}

/// What the caller is to do next.
#[derive(Debug, Copy, Clone, PartialEq, Eq, Structural)]
pub enum Action {
    /// Read the window title.
    QueryTitle,
    /// Resolve the executable path of the owning process.
    QueryPath,
    /// Read the two style words.
    ReadStyles,
    /// Write the two style words.
    WriteStyles(WindowStyles),
    /// Make the window system recompute the frame, without moving, sizing or
    /// restacking the window, as the flags say.
    RefreshFrame(PlacementFlags),
    /// Set the border color attribute.
    SetBorderColor(u32),
    /// Set the corner preference attribute to this native value.
    SetCornerPreference(i32),
    /// Measure the client area.
    MeasureClient,
    /// Measure the outer extent of the window.
    MeasureWindow,
    /// Resize the window to this outer size, keeping its position and its
    /// place in the stacking order, as the flags say.
    Resize(NativeSize, PlacementFlags),
    /// Nothing more is to be done for this window.
    Finish(Outcome),
}

/// The answer to an action.
#[derive(Debug)]
pub enum Event {
    /// A window is handed in; answers nothing.
    Begin,
    /// The title, or `None` if it could not be read.
    Title(Option<String>),
    /// The executable path, or `None` if it could not be resolved.
    Path(Option<String>),
    /// The two style words.
    Styles(WindowStyles),
    /// An action without a result was carried out; `true` if the window
    /// system accepted it.
    Completed(bool),
    /// The client rectangle, or `None` if the measurement failed.
    ClientRect(Option<Rect>),
    /// The window rectangle, or `None` if the measurement failed.
    WindowRect(Option<Rect>),
}

/// An [`Event`] as mathematical values.
pub enum Observation {
    Begin,
    Title(Option<Seq<char>>),
    Path(Option<Seq<char>>),
    Styles(WindowStyles),
    Completed(bool),
    ClientRect(Option<Rect>),
    WindowRect(Option<Rect>),
}

/// What is known of a text that may have failed to be read.
pub open spec fn known_string(text: Option<String>) -> Option<Seq<char>> {
    match text {
        Some(s) => Some(s@),
        None => None,
    }
}

impl View for Event {
    type V = Observation;

    open spec fn view(&self) -> Observation {
        match *self {
            Event::Begin => Observation::Begin,
            Event::Title(t) => Observation::Title(known_string(t)),
            Event::Path(p) => Observation::Path(known_string(p)),
            Event::Styles(s) => Observation::Styles(s),
            Event::Completed(ok) => Observation::Completed(ok),
            Event::ClientRect(r) => Observation::ClientRect(r),
            Event::WindowRect(r) => Observation::WindowRect(r),
        }
    }
}

/// How far the procedure has come: which answer it waits for.
#[derive(Debug, Copy, Clone, PartialEq, Eq, Structural)]
pub enum Stage {
    /// No window yet.
    Idle,
    /// The title was asked for.
    Title,
    /// The executable path was asked for.
    Path,
    /// The style words were asked for.
    Styles,
    /// The new style words were handed out.
    StylesWritten,
    /// The frame refresh was asked for.
    FrameRefreshed,
    /// The border color was handed out.
    BorderColor,
    /// The corner preference was handed out.
    Corner,
    /// The client area is being measured.
    Client,
    /// The window is being measured; the client area was this.
    Window { client: Size },
    /// The resize was asked for.
    Resized,
    /// The procedure has ended.
    Finished,
}

/// The size to report for a client area: the client size less the offset,
/// or nothing where the offset exceeds it.
pub open spec fn measurement(client: Extent, offset: Extent) -> Option<Extent> {
    if client.covers(offset) {
        Some(client.minus(offset))
    } else {
        None
    }
}

/// The outer size to request so that the client area becomes `size` plus
/// `offset`: the border, which is what the window has beyond its client
/// area, is added on.
pub open spec fn resize_target(size: Extent, offset: Extent, client: Extent, window: Extent) -> Extent
    recommends
        window.covers(client),
{
    size.plus(offset).plus(window.minus(client))
}

/// The size that a measured rectangle spans.
pub open spec fn measured(rect: Rect) -> Size {
    rect@.extent().to_size()
}

/// The last step of a run: stop with `outcome`.
pub open spec fn finish(outcome: Outcome) -> (Stage, Action) {
    (Stage::Finished, Action::Finish(outcome))
}

/// The sizing phase starts by measuring the client area.
pub open spec fn begin_sizing() -> (Stage, Action) {
    (Stage::Client, Action::MeasureClient)
}

/// The corner step, or what follows it where no preference is requested.
pub open spec fn begin_corner(req: TransformRequest) -> (Stage, Action) {
    match req.corner {
        Some(c) => (Stage::Corner, Action::SetCornerPreference(c.native_value())),
        None => begin_sizing(),
    }
}

/// The border color step, or what follows it where no color is requested.
pub open spec fn begin_border_color(req: TransformRequest) -> (Stage, Action) {
    match req.border_color {
        Some(color) => (Stage::BorderColor, Action::SetBorderColor(color)),
        None => begin_corner(req),
    }
}

/// The border toggle, or what follows it where no toggle is requested.
pub open spec fn begin_styling(req: TransformRequest) -> (Stage, Action) {
    match req.border {
        Some(_) => (Stage::Styles, Action::ReadStyles),
        None => begin_border_color(req),
    }
}

/// The path axis of the filter, or what follows it where paths are not
/// filtered.
pub open spec fn begin_path(req: TransformRequest) -> (Stage, Action) {
    if req.target.filters_by_path() {
        (Stage::Path, Action::QueryPath)
    } else {
        begin_styling(req)
    }
}

/// The title axis of the filter, or what follows it where titles are not
/// filtered.
pub open spec fn begin_filter(req: TransformRequest) -> (Stage, Action) {
    if req.target.filters_by_title() {
        (Stage::Title, Action::QueryTitle)
    } else {
        begin_path(req)
    }
}

/// What follows the measurement of the client area.
pub open spec fn after_client(req: TransformRequest, client: Size) -> (Stage, Action) {
    match req.size {
        None => match measurement(client@, req.target.offset) {
            Some(reported) => finish(Outcome::Measured(reported.to_size())),
            None => finish(Outcome::Failed(TransformError::OffsetExceedsClient)),
        },
        Some(_) => (Stage::Window { client }, Action::MeasureWindow),
    }
}

/// What follows the measurement of the window.
pub open spec fn after_window(req: TransformRequest, client: Size, window: Size) -> (
    Stage,
    Action,
) {
    match req.size {
        None => finish(Outcome::Failed(TransformError::UnexpectedEvent)),
        Some(size) => if !window@.covers(client@) {
            finish(Outcome::Failed(TransformError::ClientExceedsWindow))
        } else {
            let outer = resize_target(size, req.target.offset, client@, window@);
            if outer.fits_native() {
                (
                    Stage::Resized,
                    Action::Resize(
                        NativeSize { cx: outer.width as i32, cy: outer.height as i32 },
                        PlacementFlags::resize_only(),
                    ),
                )
            } else {
                finish(Outcome::Failed(TransformError::SizeOutOfRange))
            }
        },
    }
}

/// The transition function of the procedure.
///
/// Filtering comes first and stops at the first axis that fails, so the
/// path is not resolved for a window whose title does not pass. Styling
/// comes before any measurement, since a changed frame changes what the
/// window has beyond its client area; a styling action that the window
/// system refuses does not stop the procedure. Measuring and resizing are
/// mandatory: their failure ends the procedure with an error.
pub open spec fn step(req: TransformRequest, stage: Stage, obs: Observation) -> (Stage, Action) {
    match (stage, obs) {
        (Stage::Idle, Observation::Begin) => begin_filter(req),
        (Stage::Title, Observation::Title(title)) => if req.target.title_passes(title) {
            begin_path(req)
        } else {
            finish(Outcome::Skipped)
        },
        (Stage::Path, Observation::Path(path)) => if req.target.path_passes(path) {
            begin_styling(req)
        } else {
            finish(Outcome::Skipped)
        },
        (Stage::Styles, Observation::Styles(styles)) => match req.border {
            Some(on) => (Stage::StylesWritten, Action::WriteStyles(styles.with_border(on))),
            None => finish(Outcome::Failed(TransformError::UnexpectedEvent)),
        },
        (Stage::StylesWritten, Observation::Completed(_)) => (
            Stage::FrameRefreshed,
            Action::RefreshFrame(PlacementFlags::frame_refresh()),
        ),
        (Stage::FrameRefreshed, Observation::Completed(_)) => begin_border_color(req),
        (Stage::BorderColor, Observation::Completed(_)) => begin_corner(req),
        (Stage::Corner, Observation::Completed(_)) => begin_sizing(),
        (Stage::Client, Observation::ClientRect(Some(rect))) => after_client(
            req,
            measured(rect),
        ),
        (Stage::Client, Observation::ClientRect(None)) => finish(
            Outcome::Failed(TransformError::ClientMeasurement),
        ),
        (Stage::Window { client }, Observation::WindowRect(Some(rect))) => after_window(
            req,
            client,
            measured(rect),
        ),
        (Stage::Window { client }, Observation::WindowRect(None)) => finish(
            Outcome::Failed(TransformError::WindowMeasurement),
        ),
        (Stage::Resized, Observation::Completed(ok)) => if ok {
            finish(Outcome::Resized)
        } else {
            finish(Outcome::Failed(TransformError::Resize))
        },
        _ => finish(Outcome::Failed(TransformError::UnexpectedEvent)),
    }
}

/// What the window system answers about one window while the procedure
/// runs on it.
pub struct WindowFacts {
    /// The title, or `None` if it cannot be read.
    pub title: Option<Seq<char>>,
    /// The executable path, or `None` if it cannot be resolved.
    pub path: Option<Seq<char>>,
    /// The style words before any toggle.
    pub styles: WindowStyles,
    /// The client rectangle once the styling is done, or `None` if it cannot
    /// be measured.
    pub client: Option<Rect>,
    /// The window rectangle once the styling is done, or `None` if it cannot
    /// be measured.
    pub window: Option<Rect>,
    /// Whether the window system accepts an action that has no result.
    pub accepts: spec_fn(Action) -> bool,
}

/// The answer of the window system to an action.
pub open spec fn respond(facts: WindowFacts, action: Action) -> Observation {
    match action {
        Action::QueryTitle => Observation::Title(facts.title),
        Action::QueryPath => Observation::Path(facts.path),
        Action::ReadStyles => Observation::Styles(facts.styles),
        Action::MeasureClient => Observation::ClientRect(facts.client),
        Action::MeasureWindow => Observation::WindowRect(facts.window),
        _ => Observation::Completed((facts.accepts)(action)),
    }
}

/// The actions that follow once `pending` has come out of a step: the
/// pending action, then what the answers of the window system lead to, up
/// to the final action or until `fuel` further steps are taken.
pub open spec fn play(
    req: TransformRequest,
    facts: WindowFacts,
    pending: (Stage, Action),
    fuel: nat,
) -> Seq<Action>
    decreases fuel,
{
    let (stage, action) = pending;
    if action is Finish || fuel == 0 {
        seq![action]
    } else {
        seq![action] + play(
            req,
            facts,
            step(req, stage, respond(facts, action)),
            (fuel - 1) as nat,
        )
    }
}

/// The actions of a whole run of the procedure on one window.
pub open spec fn run(req: TransformRequest, facts: WindowFacts) -> Seq<Action> {
    play(req, facts, step(req, Stage::Idle, Observation::Begin), 10)
}

/// What the filter asks for: the title where titles are filtered, then the
/// path where paths are filtered and the title has passed.
pub open spec fn filter_script(req: TransformRequest, facts: WindowFacts) -> Seq<Action> {
    let title = if req.target.filters_by_title() {
        seq![Action::QueryTitle]
    } else {
        Seq::empty()
    };
    let path = if req.target.title_passes(facts.title) && req.target.filters_by_path() {
        seq![Action::QueryPath]
    } else {
        Seq::empty()
    };
    title + path
}

/// The styling of a target: border toggle, border color, corner preference,
/// each only where requested, in this order.
pub open spec fn styling_script(req: TransformRequest, facts: WindowFacts) -> Seq<Action> {
    let border = match req.border {
        Some(on) => seq![
            Action::ReadStyles,
            Action::WriteStyles(facts.styles.with_border(on)),
            Action::RefreshFrame(PlacementFlags::frame_refresh()),
        ],
        None => Seq::empty(),
    };
    let color = match req.border_color {
        Some(c) => seq![Action::SetBorderColor(c)],
        None => Seq::empty(),
    };
    let corner = match req.corner {
        Some(c) => seq![Action::SetCornerPreference(c.native_value())],
        None => Seq::empty(),
    };
    border + color + corner
}

/// How the sizing of a target ends once both rectangles are measured and a
/// size is requested.
pub open spec fn resize_script(
    size: Extent,
    offset: Extent,
    client: Size,
    window: Size,
    accepts: spec_fn(Action) -> bool,
) -> Seq<Action> {
    let outer = resize_target(size, offset, client@, window@);
    let request = Action::Resize(
        NativeSize { cx: outer.width as i32, cy: outer.height as i32 },
        PlacementFlags::resize_only(),
    );
    if !window@.covers(client@) {
        seq![Action::Finish(Outcome::Failed(TransformError::ClientExceedsWindow))]
    } else if !outer.fits_native() {
        seq![Action::Finish(Outcome::Failed(TransformError::SizeOutOfRange))]
    } else if accepts(request) {
        seq![request, Action::Finish(Outcome::Resized)]
    } else {
        seq![request, Action::Finish(Outcome::Failed(TransformError::Resize))]
    }
}

/// The sizing of a target: the client area is measured; without a requested
/// size the measurement less the offset is the outcome; with one, the window
/// is measured too and resized to the requested size plus the offset plus
/// its border. A measurement that fails ends the run.
pub open spec fn sizing_script(req: TransformRequest, facts: WindowFacts) -> Seq<Action> {
    seq![Action::MeasureClient] + match facts.client {
        None => seq![Action::Finish(Outcome::Failed(TransformError::ClientMeasurement))],
        Some(client) => match req.size {
            None => seq![
                Action::Finish(
                    match measurement(measured(client)@, req.target.offset) {
                        Some(reported) => Outcome::Measured(reported.to_size()),
                        None => Outcome::Failed(TransformError::OffsetExceedsClient),
                    },
                ),
            ],
            Some(size) => seq![Action::MeasureWindow] + match facts.window {
                None => seq![Action::Finish(Outcome::Failed(TransformError::WindowMeasurement))],
                Some(window) => resize_script(
                    size,
                    req.target.offset,
                    measured(client),
                    measured(window),
                    facts.accepts,
                ),
            },
        },
    }
}

/// The actions that the procedure is to take on one window: the filter; for
/// a window that is no target nothing more; for a target the styling and
/// then the sizing.
pub open spec fn script(req: TransformRequest, facts: WindowFacts) -> Seq<Action> {
    if req.target.admits(facts.title, facts.path) {
        filter_script(req, facts) + styling_script(req, facts) + sizing_script(req, facts)
    } else {
        filter_script(req, facts) + seq![Action::Finish(Outcome::Skipped)]
    }
}

proof fn lemma_play_sizing(req: TransformRequest, facts: WindowFacts, fuel: nat)
    requires
        fuel >= 3,
    ensures
        play(req, facts, begin_sizing(), fuel) == sizing_script(req, facts),
{
    reveal_with_fuel(play, 4);
}

proof fn lemma_play_corner(req: TransformRequest, facts: WindowFacts, fuel: nat)
    requires
        fuel >= 4,
    ensures
        play(req, facts, begin_corner(req), fuel) == match req.corner {
            Some(c) => seq![Action::SetCornerPreference(c.native_value())],
            None => Seq::empty(),
        } + sizing_script(req, facts),
{
    lemma_play_sizing(req, facts, fuel);
    lemma_play_sizing(req, facts, (fuel - 1) as nat);
}

proof fn lemma_play_styling(req: TransformRequest, facts: WindowFacts, fuel: nat)
    requires
        fuel >= 8,
    ensures
        play(req, facts, begin_styling(req), fuel) == styling_script(req, facts) + sizing_script(
            req,
            facts,
        ),
{
    let rest = sizing_script(req, facts);
    let corner: Seq<Action> = match req.corner {
        Some(c) => seq![Action::SetCornerPreference(c.native_value())],
        None => Seq::empty(),
    };
    let color: Seq<Action> = match req.border_color {
        Some(c) => seq![Action::SetBorderColor(c)],
        None => Seq::empty(),
    };
    let after_border = (fuel - if req.border is Some { 3nat } else { 0nat }) as nat;
    lemma_play_corner(req, facts, after_border);
    lemma_play_corner(req, facts, (after_border - 1) as nat);
    if let Some(on) = req.border {
        let border = seq![
            Action::ReadStyles,
            Action::WriteStyles(facts.styles.with_border(on)),
            Action::RefreshFrame(PlacementFlags::frame_refresh()),
        ];
        reveal_with_fuel(play, 4);
        assert(play(req, facts, begin_styling(req), fuel) =~= border + (color + corner + rest));
    }
}

proof fn lemma_play_path(req: TransformRequest, facts: WindowFacts, fuel: nat)
    requires
        fuel >= 9,
    ensures
        play(req, facts, begin_path(req), fuel) == if req.target.filters_by_path() {
            seq![Action::QueryPath]
        } else {
            Seq::empty()
        } + if req.target.path_passes(facts.path) {
            styling_script(req, facts) + sizing_script(req, facts)
        } else {
            seq![Action::Finish(Outcome::Skipped)]
        },
{
    lemma_play_styling(req, facts, fuel);
    lemma_play_styling(req, facts, (fuel - 1) as nat);
    reveal_with_fuel(play, 2);
}

/// The procedure does what its script says: on every window, whatever the
/// window system answers, the actions of a run are those of the script, in
/// that order.
pub proof fn lemma_run_follows_script(req: TransformRequest, facts: WindowFacts)
    ensures
        run(req, facts) == script(req, facts),
{
    lemma_play_path(req, facts, 10);
    lemma_play_path(req, facts, 9);
    reveal_with_fuel(play, 2);
    assert(run(req, facts) =~= script(req, facts));
}

/// The outcome of a run: what its last action carries.
pub open spec fn outcome_of(req: TransformRequest, facts: WindowFacts) -> Outcome {
    match run(req, facts).last() {
        Action::Finish(outcome) => outcome,
        _ => Outcome::Failed(TransformError::UnexpectedEvent),
    }
}

/// A window that is no target is looked at and left alone: the run asks for
/// its title or its path at most and then skips it, which prints nothing
/// and does not end the run.
pub proof fn lemma_no_target_is_left_alone(req: TransformRequest, facts: WindowFacts)
    requires
        !req.target.admits(facts.title, facts.path),
    ensures
        run(req, facts).last() == Action::Finish(Outcome::Skipped),
        forall|i: int|
            0 <= i < run(req, facts).len() - 1 ==> #[trigger] run(req, facts)[i]
                == Action::QueryTitle || run(req, facts)[i] == Action::QueryPath,
        outcome_of(req, facts).output() is None,
        !outcome_of(req, facts).fatal(),
{
    lemma_run_follows_script(req, facts);
}

/// A target is never skipped, and the path of a window is not asked for
/// unless paths are filtered and the title has passed.
pub proof fn lemma_target_is_not_skipped(req: TransformRequest, facts: WindowFacts)
    ensures
        req.target.admits(facts.title, facts.path) ==> outcome_of(req, facts) != Outcome::Skipped,
        run(req, facts).contains(Action::QueryPath) ==> req.target.filters_by_path()
            && req.target.title_passes(facts.title),
{
    lemma_run_follows_script(req, facts);
    let all = script(req, facts);
    let filter = filter_script(req, facts);
    let styling = styling_script(req, facts);
    let sizing = sizing_script(req, facts);
    if req.target.admits(facts.title, facts.path) {
        assert(all.last() == sizing.last());
    }
    if all.contains(Action::QueryPath) {
        let i = choose|i: int| 0 <= i < all.len() && all[i] == Action::QueryPath;
        if req.target.admits(facts.title, facts.path) && i >= filter.len() {
            if i < filter.len() + styling.len() {
                assert(all[i] == styling[i - filter.len()]);
            } else {
                assert(all[i] == sizing[i - filter.len() - styling.len()]);
            }
        }
    }
}

/// A window that is resized to the outer size that the procedure computes
/// has the requested size as its client area, offset included: measured
/// again with the same offset, it reports the requested size, and with no
/// offset at all that size plus the offset of the resize.
pub proof fn lemma_resize_round_trip(size: Extent, offset: Extent, client: Extent, window: Extent)
    requires
        window.covers(client),
    ensures
        ({
            let border = window.minus(client);
            let outer = resize_target(size, offset, client, window);
            &&& outer.covers(border)
            &&& measurement(outer.minus(border), offset) == Some(size)
            &&& measurement(outer.minus(border), Extent { width: 0, height: 0 }) == Some(
                size.plus(offset),
            )
        }),
{
}

/// What is known of a text that may have failed to be read, borrowed.
fn borrow_text(text: &Option<String>) -> (r: Option<&str>)
    ensures
        crate::target::known_text(r) == known_string(*text),
{
    match text {
        Some(s) => Some(s.as_str()),
        None => None,
    }
}

fn start_corner(op: &Cli) -> (next: (Stage, Action))
    ensures
        next == begin_corner(op@),
{
    match op.corner {
        Some(c) => (Stage::Corner, Action::SetCornerPreference(c.to_native())),
        None => (Stage::Client, Action::MeasureClient),
    }
}

fn start_border_color(op: &Cli) -> (next: (Stage, Action))
    ensures
        next == begin_border_color(op@),
{
    match op.border_color {
        Some(color) => (Stage::BorderColor, Action::SetBorderColor(color)),
        None => start_corner(op),
    }
}

fn start_styling(op: &Cli) -> (next: (Stage, Action))
    ensures
        next == begin_styling(op@),
{
    match op.border {
        Some(_) => (Stage::Styles, Action::ReadStyles),
        None => start_border_color(op),
    }
}

fn start_path(op: &Cli) -> (next: (Stage, Action))
    ensures
        next == begin_path(op@),
{
    if op.target.filters_by_path() {
        (Stage::Path, Action::QueryPath)
    } else {
        start_styling(op)
    }
}

fn start_filter(op: &Cli) -> (next: (Stage, Action))
    ensures
        next == begin_filter(op@),
{
    if op.target.filters_by_title() {
        (Stage::Title, Action::QueryTitle)
    } else {
        start_path(op)
    }
}

fn stop(outcome: Outcome) -> (next: (Stage, Action))
    ensures
        next == finish(outcome),
{
    (Stage::Finished, Action::Finish(outcome))
}

fn fail(error: TransformError) -> (next: (Stage, Action))
    ensures
        next == finish(Outcome::Failed(error)),
{
    stop(Outcome::Failed(error))
}

/// The size to report for a client area, if the offset leaves one.
pub fn measure(client: Size, offset: Size) -> (r: Option<Size>)
    ensures
        r is Some <==> measurement(client@, offset@) is Some,
        r matches Some(reported) ==> Some(reported@) == measurement(client@, offset@),
{
    client.checked_sub(offset)
}

/// The outer size to request so that the client area becomes `size` plus
/// `offset`, given what the window and its client area measure now.
/// `None` where the client area exceeds the window or the outer size does
/// not fit a native size.
pub fn outer_size(size: Size, offset: Size, client: Size, window: Size) -> (r: Option<NativeSize>)
    ensures
        r is Some <==> window@.covers(client@) && resize_target(
            size@,
            offset@,
            client@,
            window@,
        ).fits_native(),
        r matches Some(native) ==> native.cx == resize_target(
            size@,
            offset@,
            client@,
            window@,
        ).width && native.cy == resize_target(size@, offset@, client@, window@).height,
{
    let border = match window.checked_sub(client) {
        Some(b) => b,
        None => { return None; },
    };
    let inner = match size.checked_add(offset) {
        Some(s) => s,
        None => { return None; },
    };
    let outer = match inner.checked_add(border) {
        Some(s) => s,
        None => { return None; },
    };
    if outer.x > i32::MAX as usize || outer.y > i32::MAX as usize {
        return None;
    }
    Some(NativeSize::from(outer))
}

fn continue_after_client(op: &Cli, client: Size) -> (next: (Stage, Action))
    ensures
        next == after_client(op@, client),
{
    match op.size {
        None => match measure(client, op.target.offset) {
            Some(reported) => stop(Outcome::Measured(reported)),
            None => fail(TransformError::OffsetExceedsClient),
        },
        Some(_) => (Stage::Window { client }, Action::MeasureWindow),
    }
}

fn continue_after_window(op: &Cli, client: Size, window: Size) -> (next: (Stage, Action))
    ensures
        next == after_window(op@, client, window),
{
    match op.size {
        None => fail(TransformError::UnexpectedEvent),
        Some(size) => {
            if window.x < client.x || window.y < client.y {
                return fail(TransformError::ClientExceedsWindow);
            }
            match outer_size(size, op.target.offset, client, window) {
                Some(native) => (
                    Stage::Resized,
                    Action::Resize(native, PlacementFlags::for_resize()),
                ),
                None => fail(TransformError::SizeOutOfRange),
            }
        },
    }
}

/// One step of the procedure for one window: from the stage reached and the
/// answer to the last action, the next stage and the next action.
///
/// A window is started with [`Stage::Idle`] and [`Event::Begin`]. The caller
/// performs the action, hands the answer in with the stage that came back,
/// and stops at [`Action::Finish`].
pub fn window_callback(op: &Cli, stage: Stage, event: Event) -> (next: (Stage, Action))
    ensures
        next == step(op@, stage, event@),
{
    match (stage, event) {
        (Stage::Idle, Event::Begin) => start_filter(op),
        (Stage::Title, Event::Title(title)) => {
            if op.target.title_passes(borrow_text(&title)) {
                start_path(op)
            } else {
                stop(Outcome::Skipped)
            }
        },
        (Stage::Path, Event::Path(path)) => {
            if op.target.path_passes(borrow_text(&path)) {
                start_styling(op)
            } else {
                stop(Outcome::Skipped)
            }
        },
        (Stage::Styles, Event::Styles(styles)) => match op.border {
            Some(on) => (Stage::StylesWritten, Action::WriteStyles(styles.toggle_border(on))),
            None => fail(TransformError::UnexpectedEvent),
        },
        (Stage::StylesWritten, Event::Completed(_)) => (
            Stage::FrameRefreshed,
            Action::RefreshFrame(PlacementFlags::for_frame_refresh()),
        ),
        (Stage::FrameRefreshed, Event::Completed(_)) => start_border_color(op),
        (Stage::BorderColor, Event::Completed(_)) => start_corner(op),
        (Stage::Corner, Event::Completed(_)) => (Stage::Client, Action::MeasureClient),
        (Stage::Client, Event::ClientRect(Some(rect))) => continue_after_client(
            op,
            Size::from(rect),
        ),
        (Stage::Client, Event::ClientRect(None)) => fail(TransformError::ClientMeasurement),
        (Stage::Window { client }, Event::WindowRect(Some(rect))) => continue_after_window(
            op,
            client,
            Size::from(rect),
        ),
        (Stage::Window { client: _ }, Event::WindowRect(None)) => fail(
            TransformError::WindowMeasurement,
        ),
        (Stage::Resized, Event::Completed(ok)) => {
            if ok {
                stop(Outcome::Resized)
            } else {
                fail(TransformError::Resize)
            }
        },
        _ => fail(TransformError::UnexpectedEvent),
    }
}

} // verus!
