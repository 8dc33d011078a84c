//! The C++ standard library allocators: [`new_delete::NewDelete`],
//! [`new_delete_array::NewDeleteArray`], [`new_delete_aligned::NewDeleteAligned`],
//! [`new_delete_array_aligned::NewDeleteArrayAligned`] and [`std_allocator::StdAllocator`].

pub mod new_delete;
pub mod new_delete_aligned;
pub mod new_delete_array;
pub mod new_delete_array_aligned;
pub mod std_allocator;
