//! A scriptable ID3v2 tag editor: frame queries, tag mutation and version
//! conversion, with every operation's behaviour stated as a contract.
//!
//! A tag is an ordered collection of frames under a declared version. A
//! query is a frame that carries the keys of the frame looked for and no
//! payload. The modules state in `spec` functions what each operation
//! yields, and the executable functions are proved to compute just that.

pub mod access;
pub mod action;
pub mod catalog;
pub mod cli;
pub mod convert;
pub mod edit;
pub mod error;
pub mod frame;
pub mod pretty;
pub mod query;
pub mod seq_lemmas;
pub mod session;
pub mod tag;
pub mod text;
pub mod version;

pub use access::{
    get_content_comm, get_content_link, get_content_text, get_content_txxx, get_content_uslt,
    get_content_wxxx,
};
pub use action::Action;
pub use cli::{Cli, CliError, Plan};
pub use convert::{convert_tag, convert_with, has_counterpart, tag_with_version_from};
pub use edit::{delete_tag_frame, set_tag_frame};
pub use error::TagError;
pub use frame::{
    Binary, Comment, Content, Encoding, ExtendedLink, ExtendedText, Frame, Kind, Lyrics,
};
pub use pretty::{
    list_file, no_tag_message, print_all_file_frames_pretty, print_frame_pretty, FileListing,
    Listing,
};
pub use query::{find_frame, frames_query_equal, print_tag_frame_query};
pub use session::{Next, Separators, Session, Step};
pub use tag::Tag;
pub use version::{ConvertOpt, PurgeOpt, Version};
