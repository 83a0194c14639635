//! The elements that the picker is drawn with.
use vstd::prelude::*;

verus! {

/// How far an element extends.
#[derive(Clone, Copy, Debug, PartialEq, Eq, Structural)]
pub enum Length {
    Pixels(u32),
    /// In multiples of the size of the interface's text.
    Rems(u32),
    /// As far as the element around it.
    Full,
}

/// Colors that the window's theme gives.
#[derive(Clone, Copy, Debug, PartialEq, Eq, Structural)]
pub enum ThemeColor {
    BorderVariant,
}

/// Distances, as steps of the scale that elements are laid out with.
#[derive(Clone, Copy, Debug, PartialEq, Eq, Structural)]
pub enum Spacing {
    Two,
}

/// How the parts of a row are spread over it.
#[derive(Clone, Copy, Debug, PartialEq, Eq, Structural)]
pub enum Justify {
    /// The first at the start, the last at the end.
    Between,
}

/// The box around the picker.
#[derive(Clone, Copy, Debug)]
pub struct Frame {
    /// The name by which key bindings refer to the picker.
    pub key_context: &'static str,
    pub width: Length,
}

/// The pictures that the picker uses.
#[derive(Clone, Copy, Debug, PartialEq, Eq, Structural)]
pub enum IconName {
    Check,
    ArrowUpRight,
}

/// How large an icon is drawn.
#[derive(Clone, Copy, Debug, PartialEq, Eq, Structural)]
pub enum IconSize {
    Normal,
    Small,
}

/// The colors of icons.
#[derive(Clone, Copy, Debug, PartialEq, Eq, Structural)]
pub enum IconColor {
    Muted,
}

/// A picture.
#[derive(Clone, Copy, Debug, PartialEq, Eq, Structural)]
pub struct Icon {
    pub name: IconName,
    pub size: IconSize,
    pub color: IconColor,
}

/// How close list items stand.
#[derive(Clone, Copy, Debug, PartialEq, Eq, Structural)]
pub enum ListItemSpacing {
    Sparse,
}

/// A line of the list of matches.
#[derive(Debug)]
pub struct ListItem {
    pub id: usize,
    pub inset: bool,
    pub spacing: ListItemSpacing,
    /// Whether it is drawn as selected.
    pub toggle_state: bool,
    pub label: String,
    /// The places in the label that are highlighted.
    pub highlights: Vec<usize>,
    /// What stands at the end of the line.
    pub end_slot: Option<Icon>,
}

/// A line of the list of matches, with its label as a sequence of characters.
#[verifier::ext_equal]
pub struct ListItemView {
    pub id: int,
    pub inset: bool,
    pub spacing: ListItemSpacing,
    pub toggle_state: bool,
    pub label: Seq<char>,
    pub highlights: Seq<usize>,
    pub end_slot: Option<Icon>,
}

impl View for ListItem {
    type V = ListItemView;

    open spec fn view(&self) -> ListItemView {
        ListItemView {
            id: self.id as int,
            inset: self.inset,
            spacing: self.spacing,
            toggle_state: self.toggle_state,
            label: self.label@,
            highlights: self.highlights@,
            end_slot: self.end_slot,
        }
    }
}

impl DeepView for ListItem {
    type V = ListItemView;

    open spec fn deep_view(&self) -> ListItemView {
        self@
    }
}

/// The kinds of extensions that can be browsed.
#[derive(Clone, Copy, Debug, PartialEq, Eq, Structural)]
pub enum ExtensionCategoryFilter {
    Themes,
}

/// What a button of the footer does.
#[derive(Clone, Copy, Debug)]
pub enum FooterAction {
    /// Opens a page in the browser.
    OpenUrl(&'static str),
    /// Opens the list of extensions, of one category and with none singled out.
    Extensions(ExtensionCategoryFilter),
}

/// A button of the footer.
#[derive(Clone, Copy, Debug)]
pub struct FooterButton {
    pub id: &'static str,
    pub label: &'static str,
    pub end_icon: Option<Icon>,
    pub on_click: FooterAction,
}

/// What stands below the list of matches: a row of two buttons.
#[derive(Clone, Copy, Debug)]
pub struct Footer {
    /// The distance between its border and its parts.
    pub padding: Spacing,
    pub width: Length,
    pub justify: Justify,
    /// The distance between its parts.
    pub gap: Spacing,
    /// How thick the border at its top is.
    pub border_top: Length,
    pub border_color: ThemeColor,
    /// The button on the left.
    pub start: FooterButton,
    /// The button on the right.
    pub end: FooterButton,
}

} // verus!
