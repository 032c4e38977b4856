//! The closed set of controls a column can be shown with, and text alignment.

use vstd::prelude::*;

verus! {

/// A UI control kind.
#[derive(Debug, Clone, PartialEq)]
pub enum Widget {
    Textbox,
    UuidTextbox,
    Password,
    TagSelection,
    MultilineText,
    MarkdownHtml,
    CodeHighlighter,
    ColorSelector,
    DatePicker,
    DateTimePicker,

    LogoImage,
    MediumImage,
    LargeImageEmbed,

    /// dropdown over a few fixed choices, for enums,
    /// where nothing more has to be fetched
    FixDropdown(Vec<String>),
    Radiogroup(Vec<String>),
    Checkboxgroup(Vec<String>),

    Dropdown,
    DropdownWithImage,
    AutocompleteDropdown,
    DialogDropdown,
    TableLookupDropdown,

    Checkbox,
    /// check mark, such as for "is_active"
    CheckmarkStatusImage,
    /// on/off: dull gray or bright green light
    IndicatorStatusImage,
    /// switch button with on/off
    ToggleButton,
    PrimaryUrlLink,
    UrlLink,
    UrlTextbox,

    VideoLink,
    YoutubeVideoEmbed,
    TweetEmbed,

    PrimaryButton,
    SecondaryButton,
    AuxilliaryButton,

    FileDownloadLink,
    FileUpload,
    Maplookup,
    CountryList,
    CountryListWithFlag,
    TimezoneLookup,

    PdfViewer,
    ExcelViewer,
    CsvRenderer,
    VideoPlayer,
    AudioPlayer,

    Viewer3D,
}

/// The lookup family: controls backed by a paginated list of choices
/// fetched from the server.
pub open spec fn is_lookup(w: Widget) -> bool {
    match w {
        Widget::Dropdown
        | Widget::DropdownWithImage
        | Widget::AutocompleteDropdown
        | Widget::DialogDropdown
        | Widget::TableLookupDropdown => true,
        _ => false,
    }
}

impl Widget {
    /// Whether this control belongs to the lookup family.
    pub fn is_lookup(&self) -> (r: bool)
        ensures
            r == is_lookup(*self),
    {
        match self {
            Widget::Dropdown
            | Widget::DropdownWithImage
            | Widget::AutocompleteDropdown
            | Widget::DialogDropdown
            | Widget::TableLookupDropdown => true,
            _ => false,
        }
    }
}

/// Horizontal alignment of the text in a control.
#[derive(Debug, Clone, Copy, PartialEq, Eq, Structural)]
pub enum Alignment {
    Left,
    Right,
    Center,
}

} // verus!
