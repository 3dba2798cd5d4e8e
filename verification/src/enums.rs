//! Closed sets of operator and keyword variants, each with a total,
//! collision-free mapping between variants and their canonical names and
//! symbolic spellings.

pub mod arithmetic;
pub mod bitop;
pub mod cmp;
pub mod keyword;
pub mod logicop;
pub mod token_type;
