//! A manually managed string interner with reference-counted handles.
mod fold;
mod istring;
mod istringci;
mod jail;
mod ref_or_istring;
mod ref_or_istringci;
mod text;

pub use fold::{all_ascii, ascii_ci_equal, ascii_lower, fold_cmp, folds_equal};
pub use istring::{null_str_ptr, IString, StrNullPtr, NULL_ADDR};
pub use istringci::{lemma_case_insensitive_eq, IStringCi};
pub use jail::{
    acquire_addr_ok, acquired, acquired_times, count_in, fresh_addr, lemma_acquire_release_n,
    lemma_acquire_twice, lemma_distinct_texts_distinct_addrs, released, released_times, table_wf,
    Jail, Key,
};
pub use ref_or_istring::{lemma_borrowed_eq_owned, RefOrIString};
pub use ref_or_istringci::RefOrIStringCi;
pub use text::{lex_cmp, str_cmp, str_eq};
