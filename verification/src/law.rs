//! What the library promises as a whole, in terms of what goes in and what comes
//! out.

pub mod drawing;
pub mod editing;
pub mod effecting;
pub mod interface;
pub mod parsing;
pub mod plain;
pub mod scanning;
pub mod viewing;
pub mod wording;
