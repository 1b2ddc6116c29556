//! A small workbook library: an insertion-ordered string log with membership
//! queries, plus a handful of verified exercises on integers, vectors and strings.
pub mod big_o;
pub mod concepts;
pub mod rust_book;
pub mod training;
