pub mod lvl_up;
pub mod wave;
