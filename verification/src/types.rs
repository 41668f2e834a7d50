//! Plain data carried between the runtime and its hosts: events, roles and
//! the small enums that styling and painting are configured with.
use vstd::prelude::*;

use crate::ids::{AnimationId, StableNodeId};
use crate::text_input::TextSelection;

verus! {

/// Runtime-side finished / cancelled hook of an animation.
#[derive(Debug, Clone, Copy, PartialEq, Eq, Structural)]
pub enum AnimationEventKind {
    Finished,
    Cancelled,
}

#[derive(Debug, Clone, Copy, PartialEq, Eq)]
pub struct AnimationEvent {
    pub id: AnimationId,
    pub target: StableNodeId,
    pub kind: AnimationEventKind,
}

/// Effective retained-document presence for a node. Parked nodes keep their
/// identity and view state but are excluded from layout, rendering, input,
/// focus and accessibility until the same subtree is inserted again.
#[derive(Debug, Clone, Copy, PartialEq, Eq, Default, Structural)]
pub enum MountState {
    #[default]
    Mounted,
    Parked,
}

#[derive(Debug, Clone, Copy, PartialEq, Eq, Structural)]
pub enum MenuSurfaceKind {
    Popover,
    ActionMenu,
    ContextMenu,
}

#[derive(Debug, Clone, Copy, PartialEq, Eq, Default, Structural)]
pub enum TextHorizontalAlignment {
    #[default]
    Start,
    Center,
    End,
}

#[derive(Debug, Clone, Copy, PartialEq, Eq, Default, Structural)]
pub enum TextVerticalAlignment {
    #[default]
    Top,
    Center,
    Bottom,
}

/// Finite-metrics text shaper for CPU hosts; its measurements are
/// floating-point and happen on the host side.
#[derive(Debug, Default, Clone, Copy)]
pub struct MeasureTextShaper;

#[derive(Debug, Clone, PartialEq, Eq, Default)]
pub struct TextContent {
    pub value: String,
}

#[derive(Debug, Clone, Copy, PartialEq, Eq, Default, Structural)]
pub enum TextShaping {
    #[default]
    Auto,
    Advanced,
}

/// Exclusive overlay state attached to an overlay host. `active` must be a
/// direct child of the host; `restore_focus` remains in the same document.
#[derive(Debug, Clone, Copy, PartialEq, Eq, Default)]
pub struct OverlayHostState {
    pub active: Option<StableNodeId>,
    pub restore_focus: Option<StableNodeId>,
}

#[derive(Debug, Clone, Copy, PartialEq, Eq, Structural)]
pub struct InteractionState {
    pub pointer_events: bool,
    pub focusable: bool,
}

impl InteractionState {
    /// The default interaction: pointer events on, not focusable.
    pub fn new() -> (state: Self)
        ensures
            state == (InteractionState { pointer_events: true, focusable: false }),
    {
        InteractionState { pointer_events: true, focusable: false }
    }
}

/// Interaction of a leaf that neither takes pointer events nor focus.
pub fn inert() -> (state: InteractionState)
    ensures
        state == (InteractionState { pointer_events: false, focusable: false }),
{
    InteractionState { pointer_events: false, focusable: false }
}

#[derive(Debug, Clone, Copy, PartialEq, Eq, Default, Structural)]
pub enum AccessibilityRole {
    Document,
    Text,
    Button,
    TextInput,
    Checkbox,
    Switch,
    Slider,
    ComboBox,
    ProgressIndicator,
    List,
    ListItem,
    Table,
    Row,
    Cell,
    ColumnHeader,
    TabList,
    Tab,
    RadioGroup,
    Radio,
    Separator,
    Dialog,
    AlertDialog,
    Menu,
    MenuItem,
    Tooltip,
    Status,
    Image,
    Main,
    Navigation,
    Banner,
    ContentInfo,
    Complementary,
    Region,
    Search,
    Form,
    #[default]
    Generic,
}

/// Backend-neutral action requested by a platform accessibility service.
#[derive(Debug, Clone, PartialEq, Eq)]
pub enum AccessibilityAction {
    Click,
    Focus,
    SetValue(String),
    SetSelection(TextSelection),
}

#[derive(Debug, Clone, PartialEq, Eq)]
pub struct AccessibilityActionRequest {
    pub target: StableNodeId,
    pub action: AccessibilityAction,
}

/// Stable capture/target/bubble route derived from the retained hierarchy.
#[derive(Debug, Clone, PartialEq, Eq)]
pub struct EventRoute {
    /// Ancestors from the document root down to the target's parent.
    pub capture: Vec<StableNodeId>,
    pub target: StableNodeId,
    /// Ancestors from the target's parent back to the document root.
    pub bubble: Vec<StableNodeId>,
}

#[derive(Debug, Clone, Copy, PartialEq, Eq)]
pub struct PointerCaptureChange {
    pub pointer_id: u64,
    pub target: StableNodeId,
    pub captured: bool,
}

/// Input-method preedit text and its selection, kept apart from committed text.
#[derive(Debug, Clone, PartialEq, Eq)]
pub struct ImeComposition {
    pub text: String,
    pub selection: Option<(usize, usize)>,
}

/// Interaction state of a painted node; a change re-records the painter.
#[derive(Debug, Clone, Copy, PartialEq, Eq, Default, Hash, Structural)]
pub struct PaintState {
    pub hovered: bool,
    pub pressed: bool,
    pub focused: bool,
    pub disabled: bool,
    pub selected: bool,
}

/// Fill rule, as SVG `fill-rule`.
#[derive(Debug, Clone, Copy, PartialEq, Eq, Default, Structural)]
pub enum FillRule {
    #[default]
    NonZero,
    EvenOdd,
}

/// Stroke corner join, as Canvas `lineJoin`.
#[derive(Debug, Clone, Copy, PartialEq, Eq, Default, Structural)]
pub enum LineJoin {
    #[default]
    Miter,
    Round,
    Bevel,
}

/// Open-path end cap, as Canvas `lineCap`.
#[derive(Debug, Clone, Copy, PartialEq, Eq, Default, Structural)]
pub enum LineCap {
    #[default]
    Butt,
    Round,
    Square,
}

/// How a gradient extends outside `0..=1`.
#[derive(Debug, Clone, Copy, PartialEq, Eq, Default, Structural)]
pub enum GradientExtend {
    #[default]
    Pad,
    Repeat,
    Reflect,
}

/// How an image sits in its rectangle, as CSS `object-fit`.
#[derive(Debug, Clone, Copy, PartialEq, Eq, Default, Structural)]
pub enum ImageFit {
    Fill,
    #[default]
    Contain,
    Cover,
    /// The image at its own size (CSS `object-fit: none`).
    Natural,
    ScaleDown,
}

/// Paint phase: behind the children (background) or over them (foreground).
#[derive(Debug, Clone, Copy, PartialEq, Eq, Structural)]
pub enum PaintPhase {
    BehindChildren,
    OverChildren,
}

/// Request to remove a dismissible chip; closing stays host-owned.
#[derive(Debug, Clone, Copy, PartialEq, Eq)]
pub struct ChipDismissed;

/// The visible month of a date picker changed.
#[derive(Debug, Clone, Copy, PartialEq, Eq, Structural)]
pub struct DateCursorMoved {
    pub year: i32,
    pub month: u8,
}

/// Child nodes a date picker owns.
#[derive(Debug, Clone, Default, PartialEq, Eq)]
pub struct DatePickerSlots {
    pub previous: Option<StableNodeId>,
    pub heading: Option<StableNodeId>,
    pub next: Option<StableNodeId>,
    pub header: Option<StableNodeId>,
    pub grid: Option<StableNodeId>,
    pub days: Vec<StableNodeId>,
}

/// Visual level of a breadcrumb segment: muted path prefix or the current level.
#[derive(Debug, Clone, Copy, PartialEq, Eq, Structural)]
pub enum BreadcrumbTone {
    Parent,
    Current,
}

/// One path segment: label, level, and whether it can be activated.
#[derive(Debug, Clone, PartialEq, Eq)]
pub struct BreadcrumbItem {
    pub label: String,
    pub tone: BreadcrumbTone,
    pub interactive: bool,
}

impl BreadcrumbItem {
    /// A static segment at the current level.
    pub fn new(label: String) -> (item: Self)
        ensures
            item.label == label,
            item.tone == BreadcrumbTone::Current,
            !item.interactive,
    {
        BreadcrumbItem { label, tone: BreadcrumbTone::Current, interactive: false }
    }

    pub fn tone(self, tone: BreadcrumbTone) -> (item: Self)
        ensures
            item.label == self.label,
            item.tone == tone,
            item.interactive == self.interactive,
    {
        BreadcrumbItem { tone, ..self }
    }

    pub fn interactive(self, interactive: bool) -> (item: Self)
        ensures
            item.label == self.label,
            item.tone == self.tone,
            item.interactive == interactive,
    {
        BreadcrumbItem { interactive, ..self }
    }
}

/// A segment was activated; carries its index.
#[derive(Debug, Clone, Copy, PartialEq, Eq, Structural)]
pub struct BreadcrumbEvent {
    pub index: usize,
}

/// Whether a component projects a real control or stays a layout primitive.
#[derive(Clone, Copy, Debug, PartialEq, Eq, Structural)]
pub enum ComponentBindKind {
    /// The semantic projection produced a real control; generic style is skipped.
    Projected,
    /// Tag-only or layout primitive; generic style and accessibility are kept.
    Layout,
}

/// Choice-control option. The application owns identity; this is display
/// and disable state only.
#[derive(Debug, Clone, Copy, PartialEq, Eq)]
pub struct SemanticOption<'a> {
    pub value: &'a str,
    pub label: &'a str,
    pub disabled: bool,
}

} // verus!
