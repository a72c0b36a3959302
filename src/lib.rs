//! Widths of the primitive C types on a target, as fixed by its C data model.
mod data_model;

pub use data_model::{
    lemma_bytes_are_bits_over_eight, lemma_float_double_fixed, lemma_integer_minimum_widths,
    lemma_integer_widths_ordered, lemma_pointer_width_grouping, CDataModel, CTypeBits, Size,
};
