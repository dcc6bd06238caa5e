pub mod small_vector;
