use vstd::prelude::*;

use crate::error::Error;
use crate::geometry::{
    ADDRESS_BAR_HEIGHT, BLACK, CONTENT_AREA_HEIGHT, CONTENT_AREA_WIDTH, DARKGRAY, GRAY, LIGHTGRAY,
    TITLE_BAR_HEIGHT, TOOLBAR_HEIGHT, WHITE, WINDOW_PADDING, WINDOW_WIDTH,
};

verus! {

/// The font-size categories of the page model.
#[derive(Clone, Copy, Debug, PartialEq, Eq, Structural)]
pub enum FontSize {
    Medium,
    XLarge,
    XXLarge,
}

/// The string-size categories of the host window.
#[derive(Clone, Copy, Debug, PartialEq, Eq, Structural)]
pub enum StringSize {
    Medium,
    Large,
    XLarge,
}

/// The host category that a page-model category is drawn with.
pub open spec fn string_size_of(size: FontSize) -> StringSize {
    match size {
        FontSize::Medium => StringSize::Medium,
        FontSize::XLarge => StringSize::Large,
        FontSize::XXLarge => StringSize::XLarge,
    }
}

pub fn convert_font_size(size: FontSize) -> (r: StringSize)
    ensures
        r == string_size_of(size),
{
    match size {
        FontSize::Medium => StringSize::Medium,
        FontSize::XLarge => StringSize::Large,
        FontSize::XXLarge => StringSize::XLarge,
    }
}

/// The mapping of font sizes is deterministic and sends distinct categories to
/// distinct host categories.
pub proof fn lemma_font_size_mapping(a: FontSize, b: FontSize)
    ensures
        a == b ==> string_size_of(a) == string_size_of(b),
        a != b ==> string_size_of(a) != string_size_of(b),
{
}

/// A paint instruction of the page model, in content-area coordinates.
#[derive(Clone, Debug, PartialEq, Eq)]
pub enum DisplayItem {
    Text { text: String, color: u32, font_size: FontSize, underline: bool, x: i64, y: i64 },
    Rect { color: u32, x: i64, y: i64, width: i64, height: i64 },
}

/// A drawing primitive of the host window, in window coordinates.
#[derive(Clone, Debug, PartialEq, Eq)]
pub enum DrawCommand {
    FillRect { color: u32, x: i64, y: i64, width: i64, height: i64 },
    DrawLine { color: u32, x0: i64, y0: i64, x1: i64, y1: i64 },
    DrawString { color: u32, x: i64, y: i64, text: String, size: StringSize, underline: bool },
}

/// What a drawing primitive does, with its text as characters.
pub enum Draw {
    FillRect { color: u32, x: int, y: int, width: int, height: int },
    DrawLine { color: u32, x0: int, y0: int, x1: int, y1: int },
    DrawString { color: u32, x: int, y: int, text: Seq<char>, size: StringSize, underline: bool },
}

impl View for DrawCommand {
    type V = Draw;

    open spec fn view(&self) -> Draw {
        match self {
            DrawCommand::FillRect { color, x, y, width, height } => Draw::FillRect {
                color: *color,
                x: *x as int,
                y: *y as int,
                width: *width as int,
                height: *height as int,
            },
            DrawCommand::DrawLine { color, x0, y0, x1, y1 } => Draw::DrawLine {
                color: *color,
                x0: *x0 as int,
                y0: *y0 as int,
                x1: *x1 as int,
                y1: *y1 as int,
            },
            DrawCommand::DrawString { color, x, y, text, size, underline } => Draw::DrawString {
                color: *color,
                x: *x as int,
                y: *y as int,
                text: text@,
                size: *size,
                underline: *underline,
            },
        }
    }
}

/// One primitive to draw, and the message that its failure is reported with.
/// Where `with_host_error` is set, the host's own error text follows the message.
#[derive(Clone, Debug)]
pub struct PaintStep {
    pub command: DrawCommand,
    pub message: String,
    pub with_host_error: bool,
}

/// What is made visible after the steps of a plan have been drawn.
#[derive(Clone, Copy, Debug, PartialEq, Eq, Structural)]
pub enum Flush {
    Window,
    Area { x: i64, y: i64, width: i64, height: i64 },
}

/// Primitives to draw in order, stopping at the first that fails, then one flush.
#[derive(Clone, Debug)]
pub struct Plan {
    pub steps: Vec<PaintStep>,
    pub flush: Flush,
}

/// Whether `e` reports a failed host primitive with the message `m`.
pub open spec fn is_ui_failure(e: Error, m: Seq<char>) -> bool {
    e matches Error::InvalidUI(s) && s@ == m
}

/// The primitives of a plan, in order.
pub open spec fn draws_of(p: Plan) -> Seq<Draw> {
    p.steps@.map_values(|s: PaintStep| s.command@)
}

/// The text of the error that step `s` reports when the host fails it with the error text `host`.
pub open spec fn failure_text(s: PaintStep, host: Seq<char>) -> Seq<char> {
    if s.with_host_error {
        s.message@ + host
    } else {
        s.message@
    }
}

/// Whether step `s` reports its failure with the message `m` alone.
pub open spec fn fails_with(s: PaintStep, m: Seq<char>) -> bool {
    s.message@ == m && !s.with_host_error
}

/// Whether every step of `p` reports its failure with the message `m` alone.
pub open spec fn all_fail_with(p: Plan, m: Seq<char>) -> bool {
    forall|i: int| 0 <= i < p.steps@.len() ==> fails_with(#[trigger] p.steps@[i], m)
}

/// Whether every step of `p` reports its failure with the message `m` followed
/// by the host's error text.
pub open spec fn all_fail_with_host_error(p: Plan, m: Seq<char>) -> bool {
    forall|i: int|
        0 <= i < p.steps@.len() ==> (#[trigger] p.steps@[i]).message@ == m
            && p.steps@[i].with_host_error
}

/// Whether a display item can be moved into window coordinates without overflow.
pub open spec fn item_fits(item: DisplayItem) -> bool {
    let (x, y) = match item {
        DisplayItem::Text { x, y, .. } => (x, y),
        DisplayItem::Rect { x, y, .. } => (x, y),
    };
    x + WINDOW_PADDING <= i64::MAX && y + WINDOW_PADDING + TOOLBAR_HEIGHT <= i64::MAX
}

/// The primitive that draws a display item: shifted by the padding, and below the toolbar.
pub open spec fn draw_of_item(item: DisplayItem) -> Draw {
    match item {
        DisplayItem::Text { text, color, font_size, underline, x, y } => Draw::DrawString {
            color,
            x: x + WINDOW_PADDING,
            y: y + WINDOW_PADDING + TOOLBAR_HEIGHT,
            text: text@,
            size: string_size_of(font_size),
            underline,
        },
        DisplayItem::Rect { color, x, y, width, height } => Draw::FillRect {
            color,
            x: x + WINDOW_PADDING,
            y: y + WINDOW_PADDING + TOOLBAR_HEIGHT,
            width: width as int,
            height: height as int,
        },
    }
}

pub open spec fn draw_failure_message() -> Seq<char> {
    "failed to draw a string"@
}

pub open spec fn toolbar_failure_message() -> Seq<char> {
    "failed to initialize a toolbar with error: "@
}

pub open spec fn content_clear_failure_message() -> Seq<char> {
    "failed to clear a content area"@
}

pub open spec fn address_clear_failure_message() -> Seq<char> {
    "failed to clear an address bar"@
}

pub open spec fn address_draw_failure_message() -> Seq<char> {
    "failed to update an address bar"@
}

impl DisplayItem {
    /// Whether the item can be moved into window coordinates without overflow.
    pub fn fits(&self) -> (r: bool)
        ensures
            r == item_fits(*self),
    {
        let (x, y) = match self {
            DisplayItem::Text { x, y, .. } => (*x, *y),
            DisplayItem::Rect { x, y, .. } => (*x, *y),
        };
        x <= i64::MAX - WINDOW_PADDING && y <= i64::MAX - WINDOW_PADDING - TOOLBAR_HEIGHT
    }
}

fn step(command: DrawCommand, message: &str) -> (r: PaintStep)
    ensures
        r.command == command,
        fails_with(r, message@),
{
    PaintStep { command, message: String::from_str(message), with_host_error: false }
}

fn step_with_host_error(command: DrawCommand, message: &str) -> (r: PaintStep)
    ensures
        r.command == command,
        r.message@ == message@,
        r.with_host_error,
{
    PaintStep { command, message: String::from_str(message), with_host_error: true }
}

/// Where the drawing of a plan stands.
#[derive(Clone, Debug, PartialEq, Eq)]
pub enum PlanProgress {
    /// Draw the step at this position next.
    Draw(usize),
    /// Every step was drawn: make this visible; the plan has succeeded.
    Flush(Flush),
    /// A step failed: nothing more is drawn or flushed; the plan fails with this error.
    Failed(Error),
}

impl PaintStep {
    /// The error that this step reports when the host fails it with the error text `host_error`.
    pub fn failure(&self, host_error: &String) -> (r: Error)
        ensures
            is_ui_failure(r, failure_text(*self, host_error@)),
    {
        let mut m = self.message.clone();
        if self.with_host_error {
            m.append(host_error.as_str());
        }
        Error::InvalidUI(m)
    }
}

impl Plan {
    /// Where drawing begins: at the first step, or straight at the flush when there is none.
    pub fn start(&self) -> (r: PlanProgress)
        ensures
            self.steps@.len() == 0 ==> r == PlanProgress::Flush(self.flush),
            self.steps@.len() > 0 ==> r == PlanProgress::Draw(0),
    {
        if self.steps.len() == 0 {
            PlanProgress::Flush(self.flush)
        } else {
            PlanProgress::Draw(0)
        }
    }

    /// Where drawing goes after step `index` was drawn with `outcome`: on a host
    /// error, the plan fails with the step's error; else on to the next step, or
    /// to the flush after the last.
    pub fn after_step(&self, index: usize, outcome: Result<(), String>) -> (r: PlanProgress)
        requires
            index < self.steps@.len(),
        ensures
            outcome matches Err(h) ==> (r matches PlanProgress::Failed(e) && is_ui_failure(
                e,
                failure_text(self.steps@[index as int], h@),
            )),
            outcome is Ok && index + 1 < self.steps@.len() ==> r == PlanProgress::Draw(
                (index + 1) as usize,
            ),
            outcome is Ok && index + 1 == self.steps@.len() ==> r == PlanProgress::Flush(
                self.flush,
            ),
    {
        match outcome {
            Err(h) => PlanProgress::Failed(self.steps[index].failure(&h)),
            Ok(()) => if index < self.steps.len() - 1 {
                PlanProgress::Draw(index + 1)
            } else {
                PlanProgress::Flush(self.flush)
            },
        }
    }
}

/// The primitive that draws one display item.
fn item_command(item: &DisplayItem) -> (r: DrawCommand)
    requires
        item_fits(*item),
    ensures
        r@ == draw_of_item(*item),
{
    match item {
        DisplayItem::Text { text, color, font_size, underline, x, y } => DrawCommand::DrawString {
            color: *color,
            x: *x + WINDOW_PADDING,
            y: *y + WINDOW_PADDING + TOOLBAR_HEIGHT,
            text: text.clone(),
            size: convert_font_size(*font_size),
            underline: *underline,
        },
        DisplayItem::Rect { color, x, y, width, height } => DrawCommand::FillRect {
            color: *color,
            x: *x + WINDOW_PADDING,
            y: *y + WINDOW_PADDING + TOOLBAR_HEIGHT,
            width: *width,
            height: *height,
        },
    }
}

/// Draws the page's display items in model order, later items over earlier
/// ones, then flushes the whole window once.
pub fn content_plan(items: &Vec<DisplayItem>) -> (r: Plan)
    requires
        forall|i: int| 0 <= i < items@.len() ==> item_fits(#[trigger] items@[i]),
    ensures
        draws_of(r) == items@.map_values(|it: DisplayItem| draw_of_item(it)),
        all_fail_with(r, draw_failure_message()),
        r.flush == Flush::Window,
{
    let mut steps: Vec<PaintStep> = Vec::new();
    let mut i: usize = 0;
    while i < items.len()
        invariant
            i <= items@.len(),
            forall|j: int| 0 <= j < items@.len() ==> item_fits(#[trigger] items@[j]),
            steps@.len() == i,
            forall|j: int|
                0 <= j < i ==> (#[trigger] steps@[j]).command@ == draw_of_item(items@[j])
                    && fails_with(steps@[j], draw_failure_message()),
        decreases items@.len() - i,
    {
        let s = step(item_command(&items[i]), "failed to draw a string");
        steps.push(s);
        i = i + 1;
    }
    let r = Plan { steps, flush: Flush::Window };
    assert(draws_of(r) =~= items@.map_values(|it: DisplayItem| draw_of_item(it)));
    r
}

/// The primitives of the toolbar: its background, its separators, the
/// `Address:` label and the empty address-bar frame.
pub open spec fn toolbar_draws() -> Seq<Draw> {
    seq![
        Draw::FillRect { color: LIGHTGRAY, x: 0, y: 0, width: WINDOW_WIDTH as int, height: TOOLBAR_HEIGHT as int },
        Draw::DrawLine { color: GRAY, x0: 0, y0: TOOLBAR_HEIGHT as int, x1: WINDOW_WIDTH - 1, y1: TOOLBAR_HEIGHT as int },
        Draw::DrawLine { color: DARKGRAY, x0: 0, y0: TITLE_BAR_HEIGHT + 1, x1: WINDOW_WIDTH - 1, y1: TITLE_BAR_HEIGHT + 1 },
        Draw::DrawString { color: BLACK, x: 5, y: 5, text: "Address:"@, size: StringSize::Medium, underline: false },
        Draw::FillRect { color: WHITE, x: 70, y: 2, width: WINDOW_WIDTH - 74, height: 2 + ADDRESS_BAR_HEIGHT },
        Draw::DrawLine { color: GRAY, x0: 70, y0: 2, x1: WINDOW_WIDTH - 4, y1: 2 },
        Draw::DrawLine { color: BLACK, x0: 71, y0: 3, x1: WINDOW_WIDTH - 5, y1: 3 },
        Draw::DrawLine { color: GRAY, x0: 71, y0: 3, x1: 71, y1: 1 + ADDRESS_BAR_HEIGHT },
    ]
}

/// Draws the toolbar once, at start-up, then flushes the whole window.
pub fn toolbar_plan() -> (r: Plan)
    ensures
        draws_of(r) == toolbar_draws(),
        all_fail_with_host_error(r, toolbar_failure_message()),
        r.flush == Flush::Window,
{
    let m = "failed to initialize a toolbar with error: ";
    let steps = vec![
        step_with_host_error(DrawCommand::FillRect { color: LIGHTGRAY, x: 0, y: 0, width: WINDOW_WIDTH, height: TOOLBAR_HEIGHT }, m),
        step_with_host_error(DrawCommand::DrawLine { color: GRAY, x0: 0, y0: TOOLBAR_HEIGHT, x1: WINDOW_WIDTH - 1, y1: TOOLBAR_HEIGHT }, m),
        step_with_host_error(DrawCommand::DrawLine { color: DARKGRAY, x0: 0, y0: TITLE_BAR_HEIGHT + 1, x1: WINDOW_WIDTH - 1, y1: TITLE_BAR_HEIGHT + 1 }, m),
        step_with_host_error(DrawCommand::DrawString { color: BLACK, x: 5, y: 5, text: String::from_str("Address:"), size: StringSize::Medium, underline: false }, m),
        step_with_host_error(DrawCommand::FillRect { color: WHITE, x: 70, y: 2, width: WINDOW_WIDTH - 74, height: 2 + ADDRESS_BAR_HEIGHT }, m),
        step_with_host_error(DrawCommand::DrawLine { color: GRAY, x0: 70, y0: 2, x1: WINDOW_WIDTH - 4, y1: 2 }, m),
        step_with_host_error(DrawCommand::DrawLine { color: BLACK, x0: 71, y0: 3, x1: WINDOW_WIDTH - 5, y1: 3 }, m),
        step_with_host_error(DrawCommand::DrawLine { color: GRAY, x0: 71, y0: 3, x1: 71, y1: 1 + ADDRESS_BAR_HEIGHT }, m),
    ];
    let r = Plan { steps, flush: Flush::Window };
    assert(draws_of(r) =~= toolbar_draws());
    r
}

/// The primitive that blanks the content area, below the toolbar.
pub open spec fn content_clear_draw() -> Draw {
    Draw::FillRect {
        color: WHITE,
        x: 0,
        y: TOOLBAR_HEIGHT + 2,
        width: CONTENT_AREA_WIDTH as int,
        height: CONTENT_AREA_HEIGHT - 2,
    }
}

/// Blanks the content area, then flushes the whole window.
pub fn clear_content_plan() -> (r: Plan)
    ensures
        draws_of(r) == seq![content_clear_draw()],
        all_fail_with(r, content_clear_failure_message()),
        r.flush == Flush::Window,
{
    let steps = vec![
        step(
            DrawCommand::FillRect {
                color: WHITE,
                x: 0,
                y: TOOLBAR_HEIGHT + 2,
                width: CONTENT_AREA_WIDTH,
                height: CONTENT_AREA_HEIGHT - 2,
            },
            "failed to clear a content area",
        ),
    ];
    let r = Plan { steps, flush: Flush::Window };
    assert(draws_of(r) =~= seq![content_clear_draw()]);
    r
}

/// The primitive that blanks the inside of the address bar.
pub open spec fn address_clear_draw() -> Draw {
    Draw::FillRect {
        color: WHITE,
        x: 72,
        y: 4,
        width: WINDOW_WIDTH - 76,
        height: ADDRESS_BAR_HEIGHT - 2,
    }
}

/// The primitive that writes `text` into the address bar.
pub open spec fn address_text_draw(text: Seq<char>) -> Draw {
    Draw::DrawString { color: BLACK, x: 74, y: 6, text, size: StringSize::Medium, underline: false }
}

/// The part of the screen that holds the address bar, for a window at `origin`.
pub open spec fn address_bar_flush(origin: (i64, i64)) -> Flush {
    Flush::Area {
        x: origin.0,
        y: (origin.1 + TITLE_BAR_HEIGHT) as i64,
        width: WINDOW_WIDTH,
        height: TITLE_BAR_HEIGHT,
    }
}

fn address_bar_area(origin: (i64, i64)) -> (r: Flush)
    requires
        origin.1 + TITLE_BAR_HEIGHT <= i64::MAX,
    ensures
        r == address_bar_flush(origin),
{
    Flush::Area {
        x: origin.0,
        y: origin.1 + TITLE_BAR_HEIGHT,
        width: WINDOW_WIDTH,
        height: TITLE_BAR_HEIGHT,
    }
}

fn address_clear_step() -> (r: PaintStep)
    ensures
        r.command@ == address_clear_draw(),
        fails_with(r, address_clear_failure_message()),
{
    step(
        DrawCommand::FillRect {
            color: WHITE,
            x: 72,
            y: 4,
            width: WINDOW_WIDTH - 76,
            height: ADDRESS_BAR_HEIGHT - 2,
        },
        "failed to clear an address bar",
    )
}

/// Blanks the address bar of a window at `origin`, then flushes its area.
pub fn clear_address_bar_plan(origin: (i64, i64)) -> (r: Plan)
    requires
        origin.1 + TITLE_BAR_HEIGHT <= i64::MAX,
    ensures
        draws_of(r) == seq![address_clear_draw()],
        all_fail_with(r, address_clear_failure_message()),
        r.flush == address_bar_flush(origin),
{
    let steps = vec![address_clear_step()];
    let r = Plan { steps, flush: address_bar_area(origin) };
    assert(draws_of(r) =~= seq![address_clear_draw()]);
    r
}

/// Blanks the address bar of a window at `origin`, writes `text` into it, then
/// flushes its area. A failed blanking stops the plan before the text.
pub fn address_bar_plan(text: &String, origin: (i64, i64)) -> (r: Plan)
    requires
        origin.1 + TITLE_BAR_HEIGHT <= i64::MAX,
    ensures
        draws_of(r) == seq![address_clear_draw(), address_text_draw(text@)],
        fails_with(r.steps@[0], address_clear_failure_message()),
        fails_with(r.steps@[1], address_draw_failure_message()),
        r.flush == address_bar_flush(origin),
{
    let draw = step(
        DrawCommand::DrawString {
            color: BLACK,
            x: 74,
            y: 6,
            text: text.clone(),
            size: StringSize::Medium,
            underline: false,
        },
        "failed to update an address bar",
    );
    let steps = vec![address_clear_step(), draw];
    let r = Plan { steps, flush: address_bar_area(origin) };
    assert(draws_of(r) =~= seq![address_clear_draw(), address_text_draw(text@)]);
    r
}

} // verus!
