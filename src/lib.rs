//! Derives how a database column is shown as a UI control: which widget,
//! its width and height in characters, its text alignment, and whether it
//! may carry a paginated list of choices.

pub mod column;
pub mod control;
pub mod dropdown;
pub mod reference;
pub mod widget;

pub use column::{Column, ColumnStat, SqlType};
pub use control::ControlWidget;
pub use dropdown::{
    DropdownData, DropdownList, DropdownListWithAutocomplete, DropdownListWithImage,
    DropdownRecord, DropdownRecordWithImage, Image,
};
pub use reference::Reference;
pub use widget::{Alignment, Widget};
