mod arrays;
mod boolean;
mod complex;
mod containers;
mod free_arrays;
mod maps;
mod modn;
mod option;
pub(crate) mod quaternion;
mod signed;
mod subset;
mod tuples;
mod unsigned;
