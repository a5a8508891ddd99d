//! The core of a single-document note service: the text codec, the
//! set-once cell that holds the document's path, and the decisions of the
//! load and save operations.
//!
//! Nothing here touches the disk, the network or a window. The caller
//! performs those effects and hands their results back as plain values.

pub mod codec;
pub mod document;
pub mod path_cell;
pub mod title;

pub use codec::{decode_content, encode_content, CodecError, Encodes};
pub use document::{
    load_begin, load_finish, save_begin, save_finish, save_with_choice, Chosen, Data, LoadStep,
    SaveStep, Settings,
};
pub use path_cell::PathCell;
pub use title::{file_name, title_after_load, title_after_save, PathStyle};
