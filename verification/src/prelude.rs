//! The items that most callers need, in one place.

pub use crate::error::{EntropyError, RangeError};
pub use crate::floats::{draw_f32_bits, f32_bits_from_read};
pub use crate::range::{
    fold_into_i32range, fold_into_range, fold_into_u64range, random_from_i32range,
    random_from_range, random_from_u64range, random_index, random_with_ceiling,
    random_with_floor,
};
pub use crate::raw::{
    i32_from_read, i8_from_read, random_i32, random_i8, random_u16, random_u32, random_u64,
    random_u8, u16_from_read, u32_from_read, u64_from_read, u8_from_read,
};
pub use crate::source::Entropy;
pub use crate::strings::{draw_string, string_from_read};
