pub mod binder_native;
pub mod layout;
pub mod object_space;
pub mod status;
pub mod vtable;
