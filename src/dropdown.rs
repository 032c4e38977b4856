//! Shapes of the paginated choice lists that back lookup controls.
//!
//! A list is declared empty: the layer that fetches data fills it page by
//! page, until the last page is reached.

use vstd::prelude::*;

verus! {

/// One selectable choice, shown as plain text.
#[derive(Debug, Clone, PartialEq)]
pub struct DropdownRecord {
    pub identifier: String,
    pub display: String,
}

impl DropdownRecord {
    pub fn new(identifier: String, display: String) -> (r: DropdownRecord)
        ensures
            r.identifier == identifier,
            r.display == display,
    {
        DropdownRecord { identifier, display }
    }

}

/// A plain list of choices.
#[derive(Debug, Clone, PartialEq)]
pub struct DropdownList {
    /// api url of the next page to load
    pub api_url: String,
    /// the choice currently selected
    pub selected: Option<DropdownRecord>,
    /// the choices loaded so far; more load on scroll until the last page
    pub selection: Vec<DropdownRecord>,
    /// whether every page has been loaded
    pub reached_last_page: bool,
}

impl DropdownList {
    /// An empty list whose first page is fetched from `api_url`.
    pub fn new(api_url: String) -> (r: DropdownList)
        ensures
            r.api_url == api_url,
            r.selected is None,
            r.selection@.len() == 0,
            !r.reached_last_page,
    {
        DropdownList { api_url, selected: None, selection: Vec::new(), reached_last_page: false }
    }
}

/// A picture shown beside a choice.
#[derive(Debug, Clone, PartialEq)]
pub enum Image {
    Url(String),
    DataUrl(String),
    /// media type, and the bytes of the image
    Blob(String, Vec<u8>),
    CssClass(String),
}

/// One selectable choice, shown with a picture.
#[derive(Debug, Clone, PartialEq)]
pub struct DropdownRecordWithImage {
    pub identifier: String,
    pub display: String,
    /// the picture shown with the display text
    pub image: Image,
}

impl DropdownRecordWithImage {
    pub fn new(identifier: String, display: String, image: Image) -> (r: DropdownRecordWithImage)
        ensures
            r.identifier == identifier,
            r.display == display,
            r.image == image,
    {
        DropdownRecordWithImage { identifier, display, image }
    }
}

/// A list of choices with pictures.
#[derive(Debug, Clone, PartialEq)]
pub struct DropdownListWithImage {
    /// api url of the next page to load
    pub api_url: String,
    /// the choice currently selected
    pub selected: Option<DropdownRecordWithImage>,
    /// the choices loaded so far; more load on scroll until the last page
    pub choices: Vec<DropdownRecordWithImage>,
    /// whether every page has been loaded
    pub reached_last_page: bool,
}

impl DropdownListWithImage {
    /// An empty list whose first page is fetched from `api_url`.
    pub fn new(api_url: String) -> (r: DropdownListWithImage)
        ensures
            r.api_url == api_url,
            r.selected is None,
            r.choices@.len() == 0,
            !r.reached_last_page,
    {
        DropdownListWithImage {
            api_url,
            selected: None,
            choices: Vec::new(),
            reached_last_page: false,
        }
    }
}

/// A list of plain choices that the client filters as the user types.
#[derive(Debug, Clone, PartialEq)]
pub struct DropdownListWithAutocomplete {
    /// api url of the next page to load
    pub api_url: String,
    /// the choice currently selected
    pub selected: Option<DropdownRecord>,
    /// the choices loaded so far; more load on scroll until the last page
    pub choices: Vec<DropdownRecord>,
    /// whether every page has been loaded
    pub reached_last_page: bool,
}

impl DropdownListWithAutocomplete {
    /// An empty list whose first page is fetched from `api_url`.
    pub fn new(api_url: String) -> (r: DropdownListWithAutocomplete)
        ensures
            r.api_url == api_url,
            r.selected is None,
            r.choices@.len() == 0,
            !r.reached_last_page,
    {
        DropdownListWithAutocomplete {
            api_url,
            selected: None,
            choices: Vec::new(),
            reached_last_page: false,
        }
    }
}

/// The choice list behind a lookup control, in one of four shapes.
#[derive(Debug, Clone, PartialEq)]
pub enum DropdownData {
    DropdownList(DropdownList),
    /// pictures shown as they are
    DropdownListWithImage(DropdownListWithImage),
    /// pictures shown with rounded corners
    DropdownListWithRoundedImage(DropdownListWithImage),
    DropdownListWithAutocomplete(DropdownListWithAutocomplete),
}

} // verus!
