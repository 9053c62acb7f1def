//! Text as sequences of characters: classification, searching, splitting and
//! editing, each with a contract over `Seq<char>`.

pub mod chars;
pub mod edit;
pub mod number;
pub mod scan;
pub mod split;
