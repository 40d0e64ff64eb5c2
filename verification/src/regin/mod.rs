//! REGIN: the genome promotion gate. A genome is promoted only when every register's
//! signature and the genome's own verify under the DAP key and every content predicate
//! holds; otherwise every finding is reported.
pub mod canonical;
pub mod verdict;
pub mod promotion;
